//! Lazy opening of a stream pair.
//!
//! A pair is reserved first and put on the wire later: no SYN_STREAM is sent
//! until the consumer actually writes or reads. Peers that dial an upstream
//! connection eagerly on SYN_STREAM would otherwise close it while idle.
use super::commands::MuxCommand;
use super::commands::StreamRegistration;
use super::write::broken_pipe;
use super::write::StreamError;
use crate::error::MuxError;
use vstd::prelude::*;

verus! {

/// RST_STREAM status code for CANCEL.
pub const RST_STATUS_CANCEL: u32 = 5;

/// The headers of one SYN_STREAM, passed on as they are.
pub type Headers = Vec<(String, String)>;

/// Guards the session's count of active pairs for an unopened stream. Once
/// the stream is open, a [`StreamGuard`] owns the count and this guard is
/// disarmed.
pub struct PairReleaseGuard {
    pub armed: bool,
}

impl PairReleaseGuard {
    /// A guard that releases the pair.
    pub fn new() -> (r: PairReleaseGuard)
        ensures
            r.armed,
    {
        PairReleaseGuard { armed: true }
    }

    /// Disarms without releasing.
    pub fn disarm(&mut self)
        ensures
            !final(self).armed,
    {
        self.armed = false;
    }

    /// Whether the pair is to be released now that the guard goes.
    pub fn on_drop(self) -> (release: bool)
        ensures
            release == self.armed,
    {
        self.armed
    }
}

/// What to do when a stream goes.
pub struct DropActions {
    /// A command for the writer task.
    pub reset: Option<MuxCommand>,
    /// Notices for the frame workers, in order.
    pub notices: Vec<StreamRegistration>,
    /// Release the session's slot.
    pub release_pair: bool,
}

/// Guard of an open stream.
pub struct StreamGuard {
    pub data_id: u32,
    pub error_id: u32,
}

impl StreamGuard {
    /// What to do now that the guard goes. The error stream was half-closed
    /// at open time, so it is never reset. The data stream is reset unless
    /// its write side was shut down gracefully: the peer then closes its end
    /// by itself.
    pub fn on_drop(self, graceful: bool) -> (r: DropActions)
        ensures
            r.reset == (if graceful {
                None
            } else {
                Some(
                    MuxCommand::CloseStream { stream_id: self.data_id, status: RST_STATUS_CANCEL },
                )
            }),
            r.notices@ == seq![
                StreamRegistration::Close { stream_id: self.error_id },
                StreamRegistration::Close { stream_id: self.data_id },
            ],
            r.release_pair,
    {
        let reset = if graceful {
            None
        } else {
            Some(MuxCommand::CloseStream { stream_id: self.data_id, status: RST_STATUS_CANCEL })
        };
        let mut notices: Vec<StreamRegistration> = Vec::new();
        notices.push(StreamRegistration::Close { stream_id: self.error_id });
        notices.push(StreamRegistration::Close { stream_id: self.data_id });
        DropActions { reset, notices, release_pair: true }
    }
}

/// A reserved pair that is not on the wire yet.
pub struct UnopenedShared {
    pub error_headers: Headers,
    pub data_headers: Headers,
    /// The sender for data chunks was not handed over yet.
    pub pending_data_tx: bool,
    /// The sender for error chunks was not handed over yet.
    pub pending_error_tx: bool,
    pub release_guard: PairReleaseGuard,
}

/// A pair that is on the wire.
pub struct OpenedShared {
    pub data_id: u32,
    /// The write side was shut down by DATA with FIN.
    pub graceful_shutdown: bool,
    pub guard: StreamGuard,
}

/// The open state that both halves of a stream share.
pub enum SharedSplitState {
    Unopened(UnopenedShared),
    Opened(OpenedShared),
}

/// A request to put a pair on the wire, together with the two senders that
/// were kept for it.
pub struct RealizeRequest {
    pub error_headers: Headers,
    pub data_headers: Headers,
}

/// The ids under which a pair was put on the wire.
#[derive(Clone, Copy, Debug, PartialEq, Eq, Structural)]
pub struct OpenedStreamParts {
    pub data_id: u32,
    pub error_id: u32,
}

/// How an operation that needs an open stream goes on.
pub enum OpenStep {
    /// The stream is open.
    Open,
    /// Put the pair on the wire and hand in the outcome.
    Realize(RealizeRequest),
    /// The stream is gone.
    BrokenPipe,
}

/// The open state in short.
pub enum OpenModel {
    /// Not on the wire, and never tried.
    Fresh,
    /// Not on the wire, and the one attempt is under way or failed.
    Spent,
    /// On the wire.
    Opened { graceful: bool },
}

/// What can happen to the open state.
pub enum OpenOp {
    /// An operation needs the stream to be open.
    Need,
    /// The attempt to open came to an end.
    Realized { ok: bool },
    /// The write side is shut down, and the writer task takes the command.
    Shutdown,
}

impl OpenModel {
    /// The state after one operation.
    pub open spec fn after(self, op: OpenOp) -> OpenModel {
        match (self, op) {
            (OpenModel::Fresh, OpenOp::Need) => OpenModel::Spent,
            (OpenModel::Spent, OpenOp::Realized { ok }) => if ok {
                OpenModel::Opened { graceful: false }
            } else {
                OpenModel::Spent
            },
            (OpenModel::Opened { graceful: _ }, OpenOp::Shutdown) => OpenModel::Opened {
                graceful: true,
            },
            (state, _) => state,
        }
    }

    /// Whether the operation puts the pair on the wire.
    pub open spec fn realizes(self, op: OpenOp) -> bool {
        self is Fresh && op is Need
    }

    /// Whether the operation sends DATA with FIN.
    pub open spec fn finishes(self, op: OpenOp) -> bool {
        self matches OpenModel::Opened { graceful } && !graceful && op is Shutdown
    }

    /// The state after a sequence of operations.
    pub open spec fn after_all(self, ops: Seq<OpenOp>) -> OpenModel
        decreases ops.len(),
    {
        if ops.len() == 0 {
            self
        } else {
            self.after_all(ops.drop_last()).after(ops.last())
        }
    }

    /// How often a sequence of operations puts the pair on the wire.
    pub open spec fn realize_count(self, ops: Seq<OpenOp>) -> nat
        decreases ops.len(),
    {
        if ops.len() == 0 {
            0
        } else {
            self.realize_count(ops.drop_last()) + if self.after_all(ops.drop_last()).realizes(
                ops.last(),
            ) {
                1nat
            } else {
                0
            }
        }
    }

    /// How often a sequence of operations sends DATA with FIN.
    pub open spec fn finish_count(self, ops: Seq<OpenOp>) -> nat
        decreases ops.len(),
    {
        if ops.len() == 0 {
            0
        } else {
            self.finish_count(ops.drop_last()) + if self.after_all(ops.drop_last()).finishes(
                ops.last(),
            ) {
                1nat
            } else {
                0
            }
        }
    }
}

impl UnopenedShared {
    /// Both senders are still there to be handed over.
    pub open spec fn can_realize(self) -> bool {
        self.pending_data_tx && self.pending_error_tx
    }
}

impl SharedSplitState {
    /// The open state in short.
    pub open spec fn model(self) -> OpenModel {
        match self {
            SharedSplitState::Unopened(u) => if u.can_realize() {
                OpenModel::Fresh
            } else {
                OpenModel::Spent
            },
            SharedSplitState::Opened(o) => OpenModel::Opened { graceful: o.graceful_shutdown },
        }
    }

    /// The slot is guarded in either state, under the ids of the stream.
    pub open spec fn wf(self) -> bool {
        match self {
            SharedSplitState::Unopened(u) => u.release_guard.armed,
            SharedSplitState::Opened(o) => o.guard.data_id == o.data_id,
        }
    }

    /// The headers of an unopened pair.
    pub open spec fn unopened_with(self, error_headers: Headers, data_headers: Headers) -> bool {
        self matches SharedSplitState::Unopened(u) && u.error_headers == error_headers
            && u.data_headers == data_headers
    }

    /// What to do when the stream goes: an unopened pair sends nothing and
    /// gives its slot back; of an open one see [`StreamGuard::on_drop`].
    pub fn on_drop(self) -> (r: DropActions)
        requires
            self.wf(),
        ensures
            dropped(self, r),
    {
        match self {
            SharedSplitState::Unopened(u) => DropActions {
                reset: None,
                notices: Vec::new(),
                release_pair: u.release_guard.on_drop(),
            },
            SharedSplitState::Opened(o) => o.guard.on_drop(o.graceful_shutdown),
        }
    }
}

/// What to do when a stream goes: an unopened pair sends nothing, an open one
/// is reset unless it was shut down gracefully; either gives its slot back.
pub open spec fn dropped(state: SharedSplitState, actions: DropActions) -> bool {
    &&& actions.release_pair
    &&& match state {
        SharedSplitState::Unopened(_) => actions.reset is None && actions.notices@.len() == 0,
        SharedSplitState::Opened(o) => {
            &&& actions.reset == (if o.graceful_shutdown {
                None
            } else {
                Some(MuxCommand::CloseStream { stream_id: o.data_id, status: RST_STATUS_CANCEL })
            })
            &&& actions.notices@ =~= seq![
                StreamRegistration::Close { stream_id: o.guard.error_id },
                StreamRegistration::Close { stream_id: o.data_id },
            ]
        },
    }
}

/// Whether `after` is `before` once its one attempt to open was given away as
/// `request`.
pub open spec fn realize_taken(
    before: SharedSplitState,
    after: SharedSplitState,
    request: RealizeRequest,
) -> bool {
    &&& before matches SharedSplitState::Unopened(u) && after matches SharedSplitState::Unopened(w)
        && {
        &&& u.can_realize()
        &&& request.error_headers == u.error_headers
        &&& request.data_headers == u.data_headers
        &&& w.error_headers@.len() == 0
        &&& w.data_headers@.len() == 0
        &&& !w.pending_data_tx
        &&& !w.pending_error_tx
        &&& w.release_guard == u.release_guard
    }
}

/// Whether `after` is `before` opened under the ids of `parts`.
pub open spec fn opened_as(
    before: SharedSplitState,
    after: SharedSplitState,
    parts: OpenedStreamParts,
) -> bool {
    &&& before is Unopened
    &&& after matches SharedSplitState::Opened(o) && {
        &&& o.data_id == parts.data_id
        &&& !o.graceful_shutdown
        &&& o.guard == (StreamGuard { data_id: parts.data_id, error_id: parts.error_id })
    }
}

/// Gives away the one attempt to open a pair. Where the senders are gone, an
/// earlier attempt failed and the stream is permanently broken.
pub fn ensure_realized(u: &mut UnopenedShared) -> (r: Result<RealizeRequest, StreamError>)
    ensures
        match r {
            Ok(request) => realize_taken(
                SharedSplitState::Unopened(*old(u)),
                SharedSplitState::Unopened(*final(u)),
                request,
            ),
            Err(e) => {
                &&& e == StreamError::BrokenPipe
                &&& !old(u).can_realize()
                &&& final(u).error_headers == old(u).error_headers
                &&& final(u).data_headers == old(u).data_headers
            },
        },
        !final(u).pending_data_tx,
        !final(u).pending_error_tx,
        final(u).release_guard == old(u).release_guard,
{
    let had_data = u.pending_data_tx;
    let had_error = u.pending_error_tx;
    u.pending_data_tx = false;
    u.pending_error_tx = false;
    if !had_data || !had_error {
        return Err(broken_pipe());
    }
    let mut error_headers: Headers = Vec::new();
    let mut data_headers: Headers = Vec::new();
    std::mem::swap(&mut error_headers, &mut u.error_headers);
    std::mem::swap(&mut data_headers, &mut u.data_headers);
    Ok(RealizeRequest { error_headers, data_headers })
}

/// Whether `after` is `before`, which cannot be opened any more.
pub open spec fn left_broken(before: SharedSplitState, after: SharedSplitState) -> bool {
    before matches SharedSplitState::Unopened(u) && after matches SharedSplitState::Unopened(w) && {
        &&& w.error_headers == u.error_headers
        &&& w.data_headers == u.data_headers
        &&& !w.pending_data_tx
        &&& !w.pending_error_tx
        &&& w.release_guard == u.release_guard
    }
}

/// What [`ensure_shared_open`] does.
pub open spec fn open_needed(
    before: SharedSplitState,
    after: SharedSplitState,
    step: OpenStep,
) -> bool {
    &&& after.model() == before.model().after(OpenOp::Need)
    &&& match before.model() {
        OpenModel::Opened { graceful: _ } => step is Open && after == before,
        OpenModel::Spent => step is BrokenPipe && left_broken(before, after),
        OpenModel::Fresh => step matches OpenStep::Realize(request) && realize_taken(
            before,
            after,
            request,
        ),
    }
}

/// Makes sure that a stream is open. Only the first call on an unopened one
/// puts the pair on the wire.
pub fn ensure_shared_open(state: &mut SharedSplitState) -> (step: OpenStep)
    ensures
        open_needed(*old(state), *final(state), step),
        old(state).wf() ==> final(state).wf(),
{
    match state {
        SharedSplitState::Unopened(u) => match ensure_realized(u) {
            Ok(request) => OpenStep::Realize(request),
            Err(_) => OpenStep::BrokenPipe,
        },
        SharedSplitState::Opened(_) => OpenStep::Open,
    }
}

/// Moves a pair from reserved to open. The slot changes hands without being
/// released: the guard of the reserved pair is disarmed before it goes.
pub fn finish_shared_open(state: &mut SharedSplitState, parts: OpenedStreamParts)
    requires
        *old(state) is Unopened,
    ensures
        opened_as(*old(state), *final(state), parts),
        final(state).wf(),
{
    let mut opened = SharedSplitState::Opened(
        OpenedShared {
            data_id: parts.data_id,
            graceful_shutdown: false,
            guard: StreamGuard { data_id: parts.data_id, error_id: parts.error_id },
        },
    );
    std::mem::swap(state, &mut opened);
    match opened {
        SharedSplitState::Unopened(u) => {
            let mut release_guard = u.release_guard;
            release_guard.disarm();
            let released = release_guard.on_drop();
            assert(!released);
        },
        SharedSplitState::Opened(_) => {},
    }
}

/// Takes the outcome of the attempt to open. After a failure the pair stays
/// unopened and broken.
pub fn realized(
    state: &mut SharedSplitState,
    outcome: Result<OpenedStreamParts, MuxError>,
) -> (r: Result<(), StreamError>)
    requires
        old(state).model() is Spent,
    ensures
        final(state).model() == old(state).model().after(OpenOp::Realized { ok: outcome is Ok }),
        match outcome {
            Ok(parts) => r is Ok && opened_as(*old(state), *final(state), parts),
            Err(_) => r == Err::<(), StreamError>(StreamError::BrokenPipe) && *final(state) == *old(
                state),
        },
        old(state).wf() ==> final(state).wf(),
{
    match outcome {
        Ok(parts) => {
            finish_shared_open(state, parts);
            Ok(())
        },
        Err(_) => Err(broken_pipe()),
    }
}

/// However a stream is used, its pair is put on the wire at most once, and
/// DATA with FIN is sent at most once.
pub proof fn law_opens_and_finishes_at_most_once(start: OpenModel, ops: Seq<OpenOp>)
    ensures
        start.realize_count(ops) <= 1,
        start.finish_count(ops) <= 1,
        start.realize_count(ops) == 1 ==> !(start.after_all(ops) is Fresh),
        start.finish_count(ops) == 1 ==> start.after_all(ops) == (OpenModel::Opened {
            graceful: true,
        }),
    decreases ops.len(),
{
    if ops.len() > 0 {
        law_opens_and_finishes_at_most_once(start, ops.drop_last());
    }
}

/// A stream that nobody reads from or writes to is never put on the wire.
pub proof fn law_unused_stream_stays_unopened(ops: Seq<OpenOp>)
    requires
        forall|i: int| 0 <= i < ops.len() ==> !(ops[i] is Need),
    ensures
        OpenModel::Fresh.after_all(ops) == OpenModel::Fresh,
        OpenModel::Fresh.realize_count(ops) == 0,
        OpenModel::Fresh.finish_count(ops) == 0,
    decreases ops.len(),
{
    if ops.len() > 0 {
        law_unused_stream_stays_unopened(ops.drop_last());
    }
}

/// The headers that a pair was reserved with go out as they are.
pub proof fn law_headers_go_out_verbatim(
    reserved: SharedSplitState,
    error_headers: Headers,
    data_headers: Headers,
    after: SharedSplitState,
    step: OpenStep,
)
    requires
        reserved.unopened_with(error_headers, data_headers),
        reserved.model() is Fresh,
        open_needed(reserved, after, step),
    ensures
        step == OpenStep::Realize(RealizeRequest { error_headers, data_headers }),
{
}

/// The first use of a pair that is not on the wire asks for it to be put
/// there, with its headers as they are; while that is under way, or after it
/// failed, a further use fails; once it is on the wire a use goes on and
/// changes nothing.
pub proof fn law_first_use_opens(
    before: SharedSplitState,
    after: SharedSplitState,
    step: OpenStep,
    again: SharedSplitState,
    next: OpenStep,
)
    requires
        open_needed(before, after, step),
        open_needed(after, again, next),
    ensures
        step is Open <==> before is Opened,
        before is Opened ==> after == before,
        before matches SharedSplitState::Unopened(u) ==> {
            &&& after is Unopened
            &&& step is Realize <==> u.pending_data_tx && u.pending_error_tx
            &&& step matches OpenStep::Realize(request) ==> request.error_headers
                == u.error_headers && request.data_headers == u.data_headers
            &&& !(step is Realize) ==> step is BrokenPipe
            &&& next is BrokenPipe
            &&& after->Unopened_0.release_guard == u.release_guard
        },
{
}

/// A pair is on the wire under the ids that it was given, the data stream and
/// the error stream each under its own, with its write side open.
pub proof fn law_opened_pair_has_its_ids(
    before: SharedSplitState,
    after: SharedSplitState,
    parts: OpenedStreamParts,
)
    requires
        opened_as(before, after, parts),
    ensures
        before is Unopened,
        after matches SharedSplitState::Opened(o) && {
            &&& o.data_id == parts.data_id
            &&& o.guard.data_id == parts.data_id
            &&& o.guard.error_id == parts.error_id
            &&& !o.graceful_shutdown
        },
        after.model() == (OpenModel::Opened { graceful: false }),
{
}

/// A stream that goes always gives its slot back. One that was never on the
/// wire says nothing to anybody. One that was tells the frame workers of both
/// its streams, the error stream first, and resets the data stream with the
/// code for CANCEL exactly if its write side was not shut down; the error
/// stream is never reset.
pub proof fn law_dropped_stream_leaves_nothing_behind(state: SharedSplitState, actions: DropActions)
    requires
        dropped(state, actions),
    ensures
        actions.release_pair,
        state is Unopened ==> actions.reset is None && actions.notices@.len() == 0,
        state matches SharedSplitState::Opened(o) ==> {
            &&& actions.reset is None <==> o.graceful_shutdown
            &&& actions.reset matches Some(command) ==> (command matches MuxCommand::CloseStream {
                stream_id,
                status,
            } && stream_id == o.data_id && status == 5)
            &&& actions.notices@.len() == 2
            &&& actions.notices@[0] == StreamRegistration::Close { stream_id: o.guard.error_id }
            &&& actions.notices@[1] == StreamRegistration::Close { stream_id: o.data_id }
        },
{
}

/// An open stream can be shut down once, and stays open otherwise: nothing
/// takes it back, and an attempt to open that failed is never tried again.
pub proof fn law_open_state_only_moves_on(model: OpenModel, op: OpenOp)
    ensures
        model is Opened ==> model.after(op) is Opened,
        model matches OpenModel::Opened { graceful } ==> model.after(op) == (OpenModel::Opened {
            graceful: graceful || op is Shutdown,
        }),
        !(model is Fresh) ==> !(model.after(op) is Fresh),
        model is Spent ==> (model.after(op) is Opened <==> op == OpenOp::Realized { ok: true }),
        model is Fresh ==> (model.after(op) is Spent <==> op is Need),
        model is Fresh ==> !(model.after(op) is Opened),
        model.realizes(op) <==> model is Fresh && model.after(op) is Spent,
        model.finishes(op) <==> model.after(op) != model && model is Opened,
{
}

/// The state in short says whether the pair is on the wire, and if not,
/// whether both senders are still there for the one attempt.
pub proof fn law_model_reads_the_state(state: SharedSplitState)
    ensures
        state.model() is Opened <==> state is Opened,
        state matches SharedSplitState::Opened(o) ==> state.model() == (OpenModel::Opened {
            graceful: o.graceful_shutdown,
        }),
        state matches SharedSplitState::Unopened(u) ==> (state.model() is Fresh
            <==> u.pending_data_tx && u.pending_error_tx),
{
}

} // verus!
