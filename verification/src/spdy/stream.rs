//! Paired streams.
//!
//! A stream is a writable "data" stream plus an "error" stream that is
//! half-closed at open time. The shape suits any peer that uses paired
//! streams; the headers are opaque.
//!
//! An operation that has to wait for something outside answers with an action
//! that names it. The caller performs the action and hands in its outcome.
use super::commands::MuxCommand;
use super::open::dropped;
use super::open::ensure_shared_open;
use super::open::finish_shared_open;
use super::open::left_broken;
use super::open::open_needed;
use super::open::opened_as;
use super::open::realize_taken;
use super::open::realized;
use super::open::DropActions;
use super::open::Headers;
use super::open::OpenModel;
use super::open::OpenOp;
use super::open::OpenStep;
use super::open::OpenedShared;
use super::open::OpenedStreamParts;
use super::open::PairReleaseGuard;
use super::open::RealizeRequest;
use super::open::SharedSplitState;
use super::open::UnopenedShared;
use super::read::consume_channel_buf;
use super::read::fill_received;
use super::read::fill_started;
use super::read::fill_went_on;
use super::read::left;
use super::read::poll_fill_buf_channel;
use super::read::poll_read_channel;
use super::read::read_ended;
use super::read::read_received;
use super::read::read_started;
use super::read::ReadSide;
use super::read::ReadStep;
use super::read::RecvPoll;
use super::write::data_frame;
use super::write::fin_command;
use super::write::poll_shutdown_opened;
use super::write::poll_write_via_sender;
use super::write::shutdown_next;
use super::write::shutdown_stage_after;
use super::write::write_command;
use super::write::write_next;
use super::write::ReservePoll;
use super::write::ShutdownEvent;
use super::write::ShutdownStage;
use super::write::StreamError;
use super::write::WriteEvent;
use super::write::WriteStage;
use crate::error::MuxError;
use crate::outside::buffer::bytes_of;
use vstd::prelude::*;

verus! {

/// How a read or a fill goes on.
pub enum ReadAction {
    /// Put the pair on the wire and hand in the outcome.
    Realize(RealizeRequest),
    /// Poll the channel and hand in the outcome.
    Recv,
    /// Nothing to read yet.
    Pending,
    /// The operation is complete.
    Ready,
    /// The stream is gone.
    BrokenPipe,
}

/// How a write goes on.
pub enum WriteAction {
    /// Put the pair on the wire and hand in the outcome.
    Realize(RealizeRequest),
    /// The write is at this stage.
    Stage(WriteStage),
}

impl ReadAction {
    /// The action for a step of the read side.
    pub open spec fn of(step: ReadStep) -> ReadAction {
        match step {
            ReadStep::Recv => ReadAction::Recv,
            ReadStep::Pending => ReadAction::Pending,
            ReadStep::Ready => ReadAction::Ready,
            ReadStep::BrokenPipe => ReadAction::BrokenPipe,
        }
    }
}

/// The action for a step of the read side.
fn read_action(step: ReadStep) -> (r: ReadAction)
    ensures
        r == ReadAction::of(step),
{
    match step {
        ReadStep::Recv => ReadAction::Recv,
        ReadStep::Pending => ReadAction::Pending,
        ReadStep::Ready => ReadAction::Ready,
        ReadStep::BrokenPipe => ReadAction::BrokenPipe,
    }
}

/// What the start of a read does. A read without room is complete at once and
/// opens nothing; any other opens the stream first.
pub open spec fn stream_read_started(
    state: SharedSplitState,
    side: ReadSide,
    room: nat,
    out: Seq<u8>,
    state_after: SharedSplitState,
    side_after: ReadSide,
    out_after: Seq<u8>,
    action: ReadAction,
) -> bool {
    if room == 0 {
        action is Ready && state_after == state && side_after == side && out_after == out
    } else {
        &&& state_after.model() == state.model().after(OpenOp::Need)
        &&& match state.model() {
            OpenModel::Opened { graceful: _ } => state_after == state && read_started(
                side,
                room,
                out,
                side_after,
                out_after,
                step_of(action),
            ) && action == ReadAction::of(step_of(action)),
            OpenModel::Spent => action is BrokenPipe && left_broken(state, state_after)
                && side_after == side && out_after == out,
            OpenModel::Fresh => action matches ReadAction::Realize(request) && realize_taken(
                state,
                state_after,
                request,
            ) && side_after == side && out_after == out,
        }
    }
}

/// The step of the read side that an action stands for.
pub open spec fn step_of(action: ReadAction) -> ReadStep {
    match action {
        ReadAction::Recv => ReadStep::Recv,
        ReadAction::Pending => ReadStep::Pending,
        ReadAction::BrokenPipe => ReadStep::BrokenPipe,
        _ => ReadStep::Ready,
    }
}

/// What a read does once the attempt to open came to an end.
pub open spec fn stream_read_realized(
    state: SharedSplitState,
    side: ReadSide,
    outcome: Result<OpenedStreamParts, MuxError>,
    room: nat,
    out: Seq<u8>,
    state_after: SharedSplitState,
    side_after: ReadSide,
    out_after: Seq<u8>,
    action: ReadAction,
) -> bool {
    match outcome {
        Ok(parts) => {
            &&& opened_as(state, state_after, parts)
            &&& read_started(side, room, out, side_after, out_after, step_of(action))
            &&& action == ReadAction::of(step_of(action))
        },
        Err(_) => action is BrokenPipe && state_after == state && side_after == side && out_after
            == out,
    }
}

/// What the start of a fill does: it opens the stream first.
pub open spec fn stream_fill_started(
    state: SharedSplitState,
    side: ReadSide,
    state_after: SharedSplitState,
    side_after: ReadSide,
    action: ReadAction,
) -> bool {
    &&& state_after.model() == state.model().after(OpenOp::Need)
    &&& match state.model() {
        OpenModel::Opened { graceful: _ } => state_after == state && fill_started(
            side,
            side_after,
            step_of(action),
        ) && action == ReadAction::of(step_of(action)),
        OpenModel::Spent => action is BrokenPipe && left_broken(state, state_after) && side_after
            == side,
        OpenModel::Fresh => action matches ReadAction::Realize(request) && realize_taken(
            state,
            state_after,
            request,
        ) && side_after == side,
    }
}

/// What a fill does once the attempt to open came to an end.
pub open spec fn stream_fill_realized(
    state: SharedSplitState,
    side: ReadSide,
    outcome: Result<OpenedStreamParts, MuxError>,
    state_after: SharedSplitState,
    side_after: ReadSide,
    action: ReadAction,
) -> bool {
    match outcome {
        Ok(parts) => {
            &&& opened_as(state, state_after, parts)
            &&& fill_started(side, side_after, step_of(action))
            &&& action == ReadAction::of(step_of(action))
        },
        Err(_) => action is BrokenPipe && state_after == state && side_after == side,
    }
}

/// What the start of a write of `len` bytes does. An empty write is complete
/// at once and opens nothing; after a graceful shutdown a write fails.
pub open spec fn stream_write_started(
    state: SharedSplitState,
    len: nat,
    state_after: SharedSplitState,
    action: WriteAction,
) -> bool {
    if len == 0 {
        action == WriteAction::Stage(WriteStage::Ready { n: 0 }) && state_after == state
    } else {
        &&& state_after.model() == state.model().after(OpenOp::Need)
        &&& match state.model() {
            OpenModel::Opened { graceful } => state_after == state && action == WriteAction::Stage(
                if graceful {
                    WriteStage::BrokenPipe
                } else {
                    WriteStage::CheckClosed
                },
            ),
            OpenModel::Spent => action == WriteAction::Stage(WriteStage::BrokenPipe)
                && left_broken(state, state_after),
            OpenModel::Fresh => action matches WriteAction::Realize(request) && realize_taken(
                state,
                state_after,
                request,
            ),
        }
    }
}

/// What a write does once the attempt to open came to an end.
pub open spec fn stream_write_realized(
    state: SharedSplitState,
    outcome: Result<OpenedStreamParts, MuxError>,
    state_after: SharedSplitState,
    stage: WriteStage,
) -> bool {
    match outcome {
        Ok(parts) => opened_as(state, state_after, parts) && stage == WriteStage::CheckClosed,
        Err(_) => state_after == state && stage == WriteStage::BrokenPipe,
    }
}

/// What one event does to a shutdown of the write side.
pub open spec fn stream_shutdown_moved(
    state: SharedSplitState,
    stage: ShutdownStage,
    event: ShutdownEvent,
    state_after: SharedSplitState,
    next: ShutdownStage,
) -> bool {
    let finished = stage == ShutdownStage::SendFin && event == ShutdownEvent::Sent(true);
    match (state, state_after) {
        (SharedSplitState::Opened(o), SharedSplitState::Opened(p)) => {
            &&& next == shutdown_stage_after(stage, event)
            &&& p.data_id == o.data_id
            &&& p.guard == o.guard
            &&& p.graceful_shutdown == (o.graceful_shutdown || finished)
        },
        (SharedSplitState::Unopened(_), _) => state_after == state && next == ShutdownStage::Ready,
        _ => false,
    }
}

/// The command that sends `payload` on the data stream. There is one exactly
/// when the stream is open.
pub open spec fn data_sent(
    state: SharedSplitState,
    payload: Seq<u8>,
    command: Option<MuxCommand>,
) -> bool {
    match state {
        SharedSplitState::Opened(o) => command matches Some(MuxCommand::SendRawFrame { frame })
            && bytes_of(frame) == data_frame(o.data_id, payload),
        SharedSplitState::Unopened(_) => command is None,
    }
}

/// The command that half-closes the data stream. There is one exactly when
/// the stream is open.
pub open spec fn half_closed(state: SharedSplitState, command: Option<MuxCommand>) -> bool {
    match state {
        SharedSplitState::Opened(o) => command matches Some(
            MuxCommand::SendData { stream_id, payload, fin },
        ) && stream_id == o.data_id && bytes_of(payload).len() == 0 && fin,
        SharedSplitState::Unopened(_) => command is None,
    }
}

fn start_read(
    state: &mut SharedSplitState,
    side: &mut ReadSide,
    room: usize,
    out: &mut Vec<u8>,
) -> (action: ReadAction)
    ensures
        stream_read_started(
            *old(state),
            *old(side),
            room as nat,
            old(out)@,
            *final(state),
            *final(side),
            final(out)@,
            action,
        ),
        old(state).wf() ==> final(state).wf(),
        old(side).wf() ==> final(side).wf(),
{
    if room == 0 {
        return ReadAction::Ready;
    }
    match ensure_shared_open(state) {
        OpenStep::Open => read_action(poll_read_channel(side, room, out)),
        OpenStep::Realize(request) => ReadAction::Realize(request),
        OpenStep::BrokenPipe => ReadAction::BrokenPipe,
    }
}

fn read_after_realize(
    state: &mut SharedSplitState,
    side: &mut ReadSide,
    outcome: Result<OpenedStreamParts, MuxError>,
    room: usize,
    out: &mut Vec<u8>,
) -> (action: ReadAction)
    requires
        old(state).model() is Spent,
    ensures
        stream_read_realized(
            *old(state),
            *old(side),
            outcome,
            room as nat,
            old(out)@,
            *final(state),
            *final(side),
            final(out)@,
            action,
        ),
        old(state).wf() ==> final(state).wf(),
        old(side).wf() ==> final(side).wf(),
{
    match realized(state, outcome) {
        Ok(_) => read_action(poll_read_channel(side, room, out)),
        Err(_) => ReadAction::BrokenPipe,
    }
}

fn start_fill(state: &mut SharedSplitState, side: &mut ReadSide) -> (action: ReadAction)
    ensures
        stream_fill_started(*old(state), *old(side), *final(state), *final(side), action),
        old(state).wf() ==> final(state).wf(),
        old(side).wf() ==> final(side).wf(),
{
    match ensure_shared_open(state) {
        OpenStep::Open => read_action(poll_fill_buf_channel(side)),
        OpenStep::Realize(request) => ReadAction::Realize(request),
        OpenStep::BrokenPipe => ReadAction::BrokenPipe,
    }
}

fn fill_after_realize(
    state: &mut SharedSplitState,
    side: &mut ReadSide,
    outcome: Result<OpenedStreamParts, MuxError>,
) -> (action: ReadAction)
    requires
        old(state).model() is Spent,
    ensures
        stream_fill_realized(*old(state), *old(side), outcome, *final(state), *final(side), action),
        old(state).wf() ==> final(state).wf(),
        old(side).wf() ==> final(side).wf(),
{
    match realized(state, outcome) {
        Ok(_) => read_action(poll_fill_buf_channel(side)),
        Err(_) => ReadAction::BrokenPipe,
    }
}

fn start_write(state: &mut SharedSplitState, len: usize) -> (action: WriteAction)
    ensures
        stream_write_started(*old(state), len as nat, *final(state), action),
        old(state).wf() ==> final(state).wf(),
{
    if len == 0 {
        return WriteAction::Stage(WriteStage::Ready { n: 0 });
    }
    match ensure_shared_open(state) {
        OpenStep::Open => match state {
            SharedSplitState::Opened(o) => if o.graceful_shutdown {
                WriteAction::Stage(WriteStage::BrokenPipe)
            } else {
                WriteAction::Stage(WriteStage::CheckClosed)
            },
            SharedSplitState::Unopened(_) => WriteAction::Stage(WriteStage::BrokenPipe),
        },
        OpenStep::Realize(request) => WriteAction::Realize(request),
        OpenStep::BrokenPipe => WriteAction::Stage(WriteStage::BrokenPipe),
    }
}

fn write_after_realize(
    state: &mut SharedSplitState,
    outcome: Result<OpenedStreamParts, MuxError>,
) -> (stage: WriteStage)
    requires
        old(state).model() is Spent,
    ensures
        stream_write_realized(*old(state), outcome, *final(state), stage),
        old(state).wf() ==> final(state).wf(),
{
    match realized(state, outcome) {
        Ok(_) => WriteStage::CheckClosed,
        Err(_) => WriteStage::BrokenPipe,
    }
}

fn start_shutdown(state: &SharedSplitState) -> (stage: ShutdownStage)
    ensures
        stage == (if state.model().finishes(OpenOp::Shutdown) {
            ShutdownStage::Reserve
        } else {
            ShutdownStage::Ready
        }),
{
    match state {
        SharedSplitState::Unopened(_) => ShutdownStage::Ready,
        SharedSplitState::Opened(o) => poll_shutdown_opened(o.graceful_shutdown),
    }
}

fn move_shutdown(
    state: &mut SharedSplitState,
    stage: ShutdownStage,
    event: ShutdownEvent,
) -> (next: ShutdownStage)
    ensures
        stream_shutdown_moved(*old(state), stage, event, *final(state), next),
        old(state).wf() ==> final(state).wf(),
{
    match state {
        SharedSplitState::Unopened(_) => ShutdownStage::Ready,
        SharedSplitState::Opened(o) => shutdown_next(stage, event, &mut o.graceful_shutdown),
    }
}

fn data_command(state: &SharedSplitState, buf: &[u8], n: usize) -> (r: Option<MuxCommand>)
    requires
        n <= buf@.len(),
        n + 8 <= isize::MAX,
    ensures
        data_sent(*state, buf@.take(n as int), r),
{
    match state {
        SharedSplitState::Opened(o) => Some(write_command(o.data_id, buf, n)),
        SharedSplitState::Unopened(_) => None,
    }
}

fn half_close_command(state: &SharedSplitState) -> (r: Option<MuxCommand>)
    ensures
        half_closed(*state, r),
{
    match state {
        SharedSplitState::Opened(o) => Some(fin_command(o.data_id)),
        SharedSplitState::Unopened(_) => None,
    }
}

/// A stream pair as one value: reads and writes go to the data stream.
pub struct Stream {
    pub state: SharedSplitState,
    pub data: ReadSide,
    pub max_frame_size: u32,
}

/// Data half of a split stream: reads from and writes to the peer.
pub struct DataStream {
    pub data: ReadSide,
    pub max_frame_size: u32,
}

/// Error half of a split stream: reads the peer's error messages.
pub struct ErrorStream {
    pub error: ReadSide,
}

impl Stream {
    /// The slot is guarded, and an unopened stream has received nothing.
    pub open spec fn wf(self) -> bool {
        &&& self.state.wf()
        &&& self.data.wf()
        &&& self.state is Unopened ==> self.data.wants_recv()
    }

    /// A reserved pair. Nothing is sent before the first read or write.
    pub fn new_unopened(
        error_headers: Headers,
        data_headers: Headers,
        max_frame_size: u32,
    ) -> (r: Stream)
        ensures
            r.wf(),
            r.state.model() is Fresh,
            r.state.unopened_with(error_headers, data_headers),
            r.max_frame_size == max_frame_size,
    {
        Stream {
            state: SharedSplitState::Unopened(
                UnopenedShared {
                    error_headers,
                    data_headers,
                    pending_data_tx: true,
                    pending_error_tx: true,
                    release_guard: PairReleaseGuard::new(),
                },
            ),
            data: ReadSide::new(),
            max_frame_size,
        }
    }

    /// Whether the remote has already closed this stream's read side, where
    /// `channel_closed` tells whether the data channel lost its sender. Used
    /// to discard stale spare streams. An unopened stream is never stale:
    /// nothing was sent yet that the remote could have closed.
    pub fn is_read_closed(&self, channel_closed: bool) -> (r: bool)
        ensures
            r == (self.state is Opened && (self.data.eof || channel_closed)),
    {
        match &self.state {
            SharedSplitState::Opened(_) => self.data.eof || channel_closed,
            SharedSplitState::Unopened(_) => false,
        }
    }

    /// Splits into a data half and an error half, and the open state that
    /// both share. Splitting opens nothing: whichever half reads or writes
    /// first does.
    pub fn split(self) -> (r: (DataStream, ErrorStream, SharedSplitState))
        ensures
            r.0.data == self.data,
            r.0.max_frame_size == self.max_frame_size,
            r.1.error.wants_recv(),
            r.2 == self.state,
    {
        (
            DataStream { data: self.data, max_frame_size: self.max_frame_size },
            ErrorStream { error: ReadSide::new() },
            self.state,
        )
    }

    /// Makes sure that the stream is open.
    pub fn ensure_open(&mut self) -> (step: OpenStep)
        ensures
            open_needed(old(self).state, final(self).state, step),
            final(self).data == old(self).data,
            final(self).max_frame_size == old(self).max_frame_size,
            old(self).wf() ==> final(self).wf(),
    {
        ensure_shared_open(&mut self.state)
    }

    /// Moves the stream from reserved to open.
    pub fn finish_unopened_stream(&mut self, parts: OpenedStreamParts)
        requires
            old(self).state is Unopened,
        ensures
            opened_as(old(self).state, final(self).state, parts),
            final(self).data == old(self).data,
            final(self).max_frame_size == old(self).max_frame_size,
            old(self).wf() ==> final(self).wf(),
    {
        finish_shared_open(&mut self.state, parts);
    }

    /// Starts a read of at most `room` bytes.
    pub fn poll_read(&mut self, room: usize, out: &mut Vec<u8>) -> (action: ReadAction)
        ensures
            stream_read_started(
                old(self).state,
                old(self).data,
                room as nat,
                old(out)@,
                final(self).state,
                final(self).data,
                final(out)@,
                action,
            ),
            final(self).max_frame_size == old(self).max_frame_size,
            old(self).wf() ==> final(self).wf(),
    {
        start_read(&mut self.state, &mut self.data, room, out)
    }

    /// Goes on with a read after the attempt to open.
    pub fn read_realized(
        &mut self,
        outcome: Result<OpenedStreamParts, MuxError>,
        room: usize,
        out: &mut Vec<u8>,
    ) -> (action: ReadAction)
        requires
            old(self).state.model() is Spent,
        ensures
            stream_read_realized(
                old(self).state,
                old(self).data,
                outcome,
                room as nat,
                old(out)@,
                final(self).state,
                final(self).data,
                final(out)@,
                action,
            ),
            final(self).max_frame_size == old(self).max_frame_size,
            old(self).wf() ==> final(self).wf(),
    {
        read_after_realize(&mut self.state, &mut self.data, outcome, room, out)
    }

    /// Ends a read that polled the data channel.
    pub fn read_received(
        &mut self,
        recv: RecvPoll,
        room: usize,
        out: &mut Vec<u8>,
    ) -> (action: ReadAction)
        requires
            old(self).state is Opened,
            old(self).data.wants_recv(),
        ensures
            read_ended(
                room as nat,
                recv,
                old(self).data,
                old(out)@,
                final(self).data,
                final(out)@,
                step_of(action),
            ),
            action == ReadAction::of(step_of(action)),
            final(self).state == old(self).state,
            final(self).max_frame_size == old(self).max_frame_size,
            old(self).wf() ==> final(self).wf(),
    {
        read_action(read_received(&mut self.data, room, recv, out))
    }

    /// Starts a fill.
    pub fn poll_fill_buf(&mut self) -> (action: ReadAction)
        ensures
            stream_fill_started(
                old(self).state,
                old(self).data,
                final(self).state,
                final(self).data,
                action,
            ),
            final(self).max_frame_size == old(self).max_frame_size,
            old(self).wf() ==> final(self).wf(),
    {
        start_fill(&mut self.state, &mut self.data)
    }

    /// Goes on with a fill after the attempt to open.
    pub fn fill_realized(
        &mut self,
        outcome: Result<OpenedStreamParts, MuxError>,
    ) -> (action: ReadAction)
        requires
            old(self).state.model() is Spent,
        ensures
            stream_fill_realized(
                old(self).state,
                old(self).data,
                outcome,
                final(self).state,
                final(self).data,
                action,
            ),
            final(self).max_frame_size == old(self).max_frame_size,
            old(self).wf() ==> final(self).wf(),
    {
        fill_after_realize(&mut self.state, &mut self.data, outcome)
    }

    /// Goes on with a fill that polled the data channel.
    pub fn fill_received(&mut self, recv: RecvPoll) -> (action: ReadAction)
        requires
            old(self).state is Opened,
            old(self).data.wants_recv(),
        ensures
            fill_went_on(recv, old(self).data, final(self).data, step_of(action)),
            action == ReadAction::of(step_of(action)),
            final(self).state == old(self).state,
            final(self).max_frame_size == old(self).max_frame_size,
            old(self).wf() ==> final(self).wf(),
    {
        read_action(fill_received(&mut self.data, recv))
    }

    /// Drops bytes that a fill made available.
    pub fn consume(&mut self, amt: usize)
        ensures
            final(self).data.pending() == left(old(self).data.pending(), amt as nat),
            final(self).data.eof == old(self).data.eof,
            final(self).data.buf is None <==> old(self).data.pending().len() <= amt,
            final(self).state == old(self).state,
            final(self).max_frame_size == old(self).max_frame_size,
            old(self).wf() ==> final(self).wf(),
    {
        consume_channel_buf(&mut self.data, amt)
    }

    /// Starts a write of `len` bytes.
    pub fn poll_write(&mut self, len: usize) -> (action: WriteAction)
        ensures
            stream_write_started(old(self).state, len as nat, final(self).state, action),
            final(self).data == old(self).data,
            final(self).max_frame_size == old(self).max_frame_size,
            old(self).wf() ==> final(self).wf(),
    {
        start_write(&mut self.state, len)
    }

    /// Goes on with a write after the attempt to open.
    pub fn write_realized(
        &mut self,
        outcome: Result<OpenedStreamParts, MuxError>,
    ) -> (stage: WriteStage)
        requires
            old(self).state.model() is Spent,
        ensures
            stream_write_realized(old(self).state, outcome, final(self).state, stage),
            final(self).data == old(self).data,
            final(self).max_frame_size == old(self).max_frame_size,
            old(self).wf() ==> final(self).wf(),
    {
        write_after_realize(&mut self.state, outcome)
    }

    /// Moves a write of `len` bytes on by one event.
    pub fn write_event(&self, stage: WriteStage, event: WriteEvent, len: usize) -> (next:
        WriteStage)
        ensures
            next == write_next(stage, event, len as nat, self.max_frame_size),
    {
        poll_write_via_sender(stage, event, len, self.max_frame_size)
    }

    /// The command that sends the first `n` bytes of `buf`.
    pub fn write_command(&self, buf: &[u8], n: usize) -> (r: Option<MuxCommand>)
        requires
            n <= buf@.len(),
            n + 8 <= isize::MAX,
        ensures
            data_sent(self.state, buf@.take(n as int), r),
    {
        data_command(&self.state, buf, n)
    }

    /// Frames leave at once, so there is nothing to flush.
    pub fn poll_flush(&self) -> (r: Result<(), StreamError>)
        ensures
            r is Ok,
    {
        Ok(())
    }

    /// Starts the shutdown of the write side. An unopened stream has nothing
    /// on the wire to half-close.
    pub fn poll_shutdown(&self) -> (stage: ShutdownStage)
        ensures
            stage == (if self.state.model().finishes(OpenOp::Shutdown) {
                ShutdownStage::Reserve
            } else {
                ShutdownStage::Ready
            }),
    {
        start_shutdown(&self.state)
    }

    /// Moves a shutdown on by one event.
    pub fn shutdown_event(&mut self, stage: ShutdownStage, event: ShutdownEvent) -> (next:
        ShutdownStage)
        ensures
            stream_shutdown_moved(old(self).state, stage, event, final(self).state, next),
            final(self).data == old(self).data,
            final(self).max_frame_size == old(self).max_frame_size,
            old(self).wf() ==> final(self).wf(),
    {
        move_shutdown(&mut self.state, stage, event)
    }

    /// The command that half-closes the data stream.
    pub fn fin_command(&self) -> (r: Option<MuxCommand>)
        ensures
            half_closed(self.state, r),
    {
        half_close_command(&self.state)
    }

    /// What to do now that the stream goes.
    pub fn on_drop(self) -> (r: DropActions)
        requires
            self.wf(),
        ensures
            dropped(self.state, r),
    {
        self.state.on_drop()
    }
}

impl DataStream {
    /// Starts a read of at most `room` bytes.
    pub fn poll_read(
        &mut self,
        shared: &mut SharedSplitState,
        room: usize,
        out: &mut Vec<u8>,
    ) -> (action: ReadAction)
        ensures
            stream_read_started(
                *old(shared),
                old(self).data,
                room as nat,
                old(out)@,
                *final(shared),
                final(self).data,
                final(out)@,
                action,
            ),
            final(self).max_frame_size == old(self).max_frame_size,
            old(self).data.wf() ==> final(self).data.wf(),
            old(shared).wf() ==> final(shared).wf(),
    {
        start_read(shared, &mut self.data, room, out)
    }

    /// Goes on with a read after the attempt to open.
    pub fn read_realized(
        &mut self,
        shared: &mut SharedSplitState,
        outcome: Result<OpenedStreamParts, MuxError>,
        room: usize,
        out: &mut Vec<u8>,
    ) -> (action: ReadAction)
        requires
            old(shared).model() is Spent,
        ensures
            stream_read_realized(
                *old(shared),
                old(self).data,
                outcome,
                room as nat,
                old(out)@,
                *final(shared),
                final(self).data,
                final(out)@,
                action,
            ),
            final(self).max_frame_size == old(self).max_frame_size,
            old(self).data.wf() ==> final(self).data.wf(),
            old(shared).wf() ==> final(shared).wf(),
    {
        read_after_realize(shared, &mut self.data, outcome, room, out)
    }

    /// Ends a read that polled the data channel.
    pub fn read_received(
        &mut self,
        recv: RecvPoll,
        room: usize,
        out: &mut Vec<u8>,
    ) -> (action: ReadAction)
        requires
            old(self).data.wants_recv(),
        ensures
            read_ended(
                room as nat,
                recv,
                old(self).data,
                old(out)@,
                final(self).data,
                final(out)@,
                step_of(action),
            ),
            action == ReadAction::of(step_of(action)),
            final(self).max_frame_size == old(self).max_frame_size,
            old(self).data.wf() ==> final(self).data.wf(),
    {
        read_action(read_received(&mut self.data, room, recv, out))
    }

    /// Starts a fill.
    pub fn poll_fill_buf(&mut self, shared: &mut SharedSplitState) -> (action: ReadAction)
        ensures
            stream_fill_started(
                *old(shared),
                old(self).data,
                *final(shared),
                final(self).data,
                action,
            ),
            final(self).max_frame_size == old(self).max_frame_size,
            old(self).data.wf() ==> final(self).data.wf(),
            old(shared).wf() ==> final(shared).wf(),
    {
        start_fill(shared, &mut self.data)
    }

    /// Goes on with a fill after the attempt to open.
    pub fn fill_realized(
        &mut self,
        shared: &mut SharedSplitState,
        outcome: Result<OpenedStreamParts, MuxError>,
    ) -> (action: ReadAction)
        requires
            old(shared).model() is Spent,
        ensures
            stream_fill_realized(
                *old(shared),
                old(self).data,
                outcome,
                *final(shared),
                final(self).data,
                action,
            ),
            final(self).max_frame_size == old(self).max_frame_size,
            old(self).data.wf() ==> final(self).data.wf(),
            old(shared).wf() ==> final(shared).wf(),
    {
        fill_after_realize(shared, &mut self.data, outcome)
    }

    /// Goes on with a fill that polled the data channel.
    pub fn fill_received(&mut self, recv: RecvPoll) -> (action: ReadAction)
        requires
            old(self).data.wants_recv(),
        ensures
            fill_went_on(recv, old(self).data, final(self).data, step_of(action)),
            action == ReadAction::of(step_of(action)),
            final(self).max_frame_size == old(self).max_frame_size,
            old(self).data.wf() ==> final(self).data.wf(),
    {
        read_action(fill_received(&mut self.data, recv))
    }

    /// Drops bytes that a fill made available.
    pub fn consume(&mut self, amt: usize)
        ensures
            final(self).data.pending() == left(old(self).data.pending(), amt as nat),
            final(self).data.eof == old(self).data.eof,
            final(self).data.buf is None <==> old(self).data.pending().len() <= amt,
            final(self).max_frame_size == old(self).max_frame_size,
            old(self).data.wf() ==> final(self).data.wf(),
    {
        consume_channel_buf(&mut self.data, amt)
    }

    /// Starts a write of `len` bytes.
    pub fn poll_write(&self, shared: &mut SharedSplitState, len: usize) -> (action: WriteAction)
        ensures
            stream_write_started(*old(shared), len as nat, *final(shared), action),
            old(shared).wf() ==> final(shared).wf(),
    {
        start_write(shared, len)
    }

    /// Goes on with a write after the attempt to open.
    pub fn write_realized(
        &self,
        shared: &mut SharedSplitState,
        outcome: Result<OpenedStreamParts, MuxError>,
    ) -> (stage: WriteStage)
        requires
            old(shared).model() is Spent,
        ensures
            stream_write_realized(*old(shared), outcome, *final(shared), stage),
            old(shared).wf() ==> final(shared).wf(),
    {
        write_after_realize(shared, outcome)
    }

    /// Moves a write of `len` bytes on by one event.
    pub fn write_event(&self, stage: WriteStage, event: WriteEvent, len: usize) -> (next:
        WriteStage)
        ensures
            next == write_next(stage, event, len as nat, self.max_frame_size),
    {
        poll_write_via_sender(stage, event, len, self.max_frame_size)
    }

    /// The command that sends the first `n` bytes of `buf`.
    pub fn write_command(&self, shared: &SharedSplitState, buf: &[u8], n: usize) -> (r: Option<
        MuxCommand,
    >)
        requires
            n <= buf@.len(),
            n + 8 <= isize::MAX,
        ensures
            data_sent(*shared, buf@.take(n as int), r),
    {
        data_command(shared, buf, n)
    }

    /// Frames leave at once, so there is nothing to flush.
    pub fn poll_flush(&self) -> (r: Result<(), StreamError>)
        ensures
            r is Ok,
    {
        Ok(())
    }

    /// Starts the shutdown of the write side.
    pub fn poll_shutdown(&self, shared: &SharedSplitState) -> (stage: ShutdownStage)
        ensures
            stage == (if shared.model().finishes(OpenOp::Shutdown) {
                ShutdownStage::Reserve
            } else {
                ShutdownStage::Ready
            }),
    {
        start_shutdown(shared)
    }

    /// Moves a shutdown on by one event.
    pub fn shutdown_event(
        &self,
        shared: &mut SharedSplitState,
        stage: ShutdownStage,
        event: ShutdownEvent,
    ) -> (next: ShutdownStage)
        ensures
            stream_shutdown_moved(*old(shared), stage, event, *final(shared), next),
            old(shared).wf() ==> final(shared).wf(),
    {
        move_shutdown(shared, stage, event)
    }

    /// The command that half-closes the data stream.
    pub fn fin_command(&self, shared: &SharedSplitState) -> (r: Option<MuxCommand>)
        ensures
            half_closed(*shared, r),
    {
        half_close_command(shared)
    }
}

impl ErrorStream {
    /// Starts a read of at most `room` bytes. Like a read of the data half it
    /// opens the shared stream first.
    pub fn poll_read(
        &mut self,
        shared: &mut SharedSplitState,
        room: usize,
        out: &mut Vec<u8>,
    ) -> (action: ReadAction)
        ensures
            stream_read_started(
                *old(shared),
                old(self).error,
                room as nat,
                old(out)@,
                *final(shared),
                final(self).error,
                final(out)@,
                action,
            ),
            old(self).error.wf() ==> final(self).error.wf(),
            old(shared).wf() ==> final(shared).wf(),
    {
        start_read(shared, &mut self.error, room, out)
    }

    /// Goes on with a read after the attempt to open.
    pub fn read_realized(
        &mut self,
        shared: &mut SharedSplitState,
        outcome: Result<OpenedStreamParts, MuxError>,
        room: usize,
        out: &mut Vec<u8>,
    ) -> (action: ReadAction)
        requires
            old(shared).model() is Spent,
        ensures
            stream_read_realized(
                *old(shared),
                old(self).error,
                outcome,
                room as nat,
                old(out)@,
                *final(shared),
                final(self).error,
                final(out)@,
                action,
            ),
            old(self).error.wf() ==> final(self).error.wf(),
            old(shared).wf() ==> final(shared).wf(),
    {
        read_after_realize(shared, &mut self.error, outcome, room, out)
    }

    /// Ends a read that polled the error channel.
    pub fn read_received(
        &mut self,
        recv: RecvPoll,
        room: usize,
        out: &mut Vec<u8>,
    ) -> (action: ReadAction)
        requires
            old(self).error.wants_recv(),
        ensures
            read_ended(
                room as nat,
                recv,
                old(self).error,
                old(out)@,
                final(self).error,
                final(out)@,
                step_of(action),
            ),
            action == ReadAction::of(step_of(action)),
            old(self).error.wf() ==> final(self).error.wf(),
    {
        read_action(read_received(&mut self.error, room, recv, out))
    }
}

/// A read without room and an empty write leave an unopened stream unopened,
/// and complete at once.
pub proof fn law_empty_operations_do_not_open(
    state: SharedSplitState,
    side: ReadSide,
    out: Seq<u8>,
    after_read: SharedSplitState,
    side_after: ReadSide,
    out_after: Seq<u8>,
    read: ReadAction,
    after_write: SharedSplitState,
    write: WriteAction,
)
    requires
        stream_read_started(state, side, 0, out, after_read, side_after, out_after, read),
        stream_write_started(state, 0, after_write, write),
    ensures
        after_read == state,
        side_after == side,
        out_after == out,
        read is Ready,
        after_write == state,
        write == WriteAction::Stage(WriteStage::Ready { n: 0 }),
{
}

/// Once the write side was shut down, every later write of at least one byte
/// fails at once, a second shutdown is complete at once, and reads go on as
/// before: the read side does not depend on the shutdown.
pub proof fn law_half_close_stops_writes_only(
    state: SharedSplitState,
    shut: SharedSplitState,
    len: nat,
    after_write: SharedSplitState,
    write: WriteAction,
    side: ReadSide,
    room: nat,
    out: Seq<u8>,
    after_read: SharedSplitState,
    side_after: ReadSide,
    out_after: Seq<u8>,
    read: ReadAction,
)
    requires
        state is Opened,
        stream_shutdown_moved(
            state,
            ShutdownStage::SendFin,
            ShutdownEvent::Sent(true),
            shut,
            ShutdownStage::Ready,
        ),
        len > 0,
        stream_write_started(shut, len, after_write, write),
        room > 0,
        stream_read_started(shut, side, room, out, after_read, side_after, out_after, read),
    ensures
        shut.model() == state.model().after(OpenOp::Shutdown),
        write == WriteAction::Stage(WriteStage::BrokenPipe),
        after_write == shut,
        !shut.model().finishes(OpenOp::Shutdown),
        read_started(side, room, out, side_after, out_after, step_of(read)),
        after_read == shut,
{
}

/// Once the connection is gone, every stream on it fails with a broken pipe:
/// a read and a fill that have nothing left to hand out, and that the peer
/// did not end before; a write and a shutdown, which find the channel to the
/// connection closed, or the window poisoned; and the first use of a stream
/// that was not opened yet. What was received before is still handed out.
pub proof fn law_broken_connection_is_reported(
    side: ReadSide,
    room: nat,
    out: Seq<u8>,
    read_after: ReadSide,
    out_after: Seq<u8>,
    read: ReadAction,
    fill_after: ReadSide,
    fill: ReadAction,
    state: SharedSplitState,
    error: MuxError,
    opened_state: SharedSplitState,
    opened_side: ReadSide,
    opened_out: Seq<u8>,
    opened: ReadAction,
    write_state: SharedSplitState,
    write: WriteStage,
    len: nat,
    max_frame_size: u32,
)
    requires
        read_ended(room, RecvPoll::Broken, side, out, read_after, out_after, step_of(read)),
        read == ReadAction::of(step_of(read)),
        fill_went_on(RecvPoll::Broken, side, fill_after, step_of(fill)),
        fill == ReadAction::of(step_of(fill)),
        stream_read_realized(
            state,
            side,
            Err(error),
            room,
            out,
            opened_state,
            opened_side,
            opened_out,
            opened,
        ),
        stream_write_realized(state, Err(error), write_state, write),
    ensures
        read is BrokenPipe,
        read_after == side,
        out_after == out,
        fill is BrokenPipe,
        fill_after == side,
        opened is BrokenPipe,
        write == WriteStage::BrokenPipe,
        write_next(WriteStage::CheckClosed, WriteEvent::Closed(true), len, max_frame_size)
            == WriteStage::BrokenPipe,
        write_next(
            WriteStage::Reserve,
            WriteEvent::Reserve(ReservePoll::Closed),
            len,
            max_frame_size,
        ) == WriteStage::BrokenPipe,
        shutdown_stage_after(ShutdownStage::Reserve, ShutdownEvent::Reserve(ReservePoll::Closed))
            == ShutdownStage::BrokenPipe,
        !side.wants_recv() ==> forall|after: ReadSide, more: Seq<u8>, step: ReadStep| #[trigger]
            read_started(side, room, out, after, more, step) ==> step == ReadStep::Ready,
{
}

/// An action of a read tells its step apart from the others.
pub proof fn law_actions_tell_the_step(step: ReadStep)
    ensures
        step_of(ReadAction::of(step)) == step,
        ReadAction::of(step) is Recv <==> step == ReadStep::Recv,
        ReadAction::of(step) is Pending <==> step == ReadStep::Pending,
        ReadAction::of(step) is Ready <==> step == ReadStep::Ready,
        ReadAction::of(step) is BrokenPipe <==> step == ReadStep::BrokenPipe,
{
}

/// The first read, fill or write of a reserved stream puts the pair on the
/// wire with the headers that it was reserved with, and touches nothing else;
/// a write of at least one byte does so too. Where the one attempt is spent,
/// each of them fails.
pub proof fn law_first_use_puts_the_pair_on_the_wire(
    unopened: UnopenedShared,
    side: ReadSide,
    room: nat,
    out: Seq<u8>,
    len: nat,
    read_state: SharedSplitState,
    read_side: ReadSide,
    read_out: Seq<u8>,
    read: ReadAction,
    fill_state: SharedSplitState,
    fill_side: ReadSide,
    fill: ReadAction,
    write_state: SharedSplitState,
    write: WriteAction,
)
    requires
        room > 0,
        len > 0,
        stream_read_started(
            SharedSplitState::Unopened(unopened),
            side,
            room,
            out,
            read_state,
            read_side,
            read_out,
            read,
        ),
        stream_fill_started(
            SharedSplitState::Unopened(unopened),
            side,
            fill_state,
            fill_side,
            fill,
        ),
        stream_write_started(SharedSplitState::Unopened(unopened), len, write_state, write),
    ensures
        read_side == side && read_out == out && fill_side == side,
        unopened.pending_data_tx && unopened.pending_error_tx ==> {
            &&& read matches ReadAction::Realize(request) && request.error_headers
                == unopened.error_headers && request.data_headers == unopened.data_headers
            &&& fill matches ReadAction::Realize(request) && request.error_headers
                == unopened.error_headers && request.data_headers == unopened.data_headers
            &&& write matches WriteAction::Realize(request) && request.error_headers
                == unopened.error_headers && request.data_headers == unopened.data_headers
        },
        !(unopened.pending_data_tx && unopened.pending_error_tx) ==> {
            &&& read is BrokenPipe
            &&& fill is BrokenPipe
            &&& write == WriteAction::Stage(WriteStage::BrokenPipe)
        },
        read_state is Unopened && fill_state is Unopened && write_state is Unopened,
{
}

/// On an open stream a write begins with a look at the window, unless the
/// write side was shut down: then it fails. The open state does not change.
pub proof fn law_write_begins_on_an_open_stream(
    opened: OpenedShared,
    len: nat,
    after: SharedSplitState,
    action: WriteAction,
)
    requires
        len > 0,
        stream_write_started(SharedSplitState::Opened(opened), len, after, action),
    ensures
        after == SharedSplitState::Opened(opened),
        opened.graceful_shutdown ==> action == WriteAction::Stage(WriteStage::BrokenPipe),
        !opened.graceful_shutdown ==> action == WriteAction::Stage(WriteStage::CheckClosed),
{
}

/// Bytes are sent on the data stream, under its id and as they are, and the
/// half-close is an empty final frame on the same stream. Before the pair is
/// on the wire there is nothing to send either on.
pub proof fn law_commands_go_to_the_data_stream(
    state: SharedSplitState,
    payload: Seq<u8>,
    data: Option<MuxCommand>,
    fin: Option<MuxCommand>,
)
    requires
        data_sent(state, payload, data),
        half_closed(state, fin),
    ensures
        data is Some <==> state is Opened,
        fin is Some <==> state is Opened,
        state matches SharedSplitState::Opened(o) ==> {
            &&& data matches Some(MuxCommand::SendRawFrame { frame }) && {
                let f = bytes_of(frame);
                &&& f.len() == 8 + payload.len()
                &&& f.skip(8) == payload
                &&& f[0] * 0x100_0000 + f[1] * 0x1_0000 + f[2] * 0x100 + f[3] == o.data_id as int
                    % 0x8000_0000
                &&& f[4] == 0
            }
            &&& fin matches Some(MuxCommand::SendData { stream_id, payload: rest, fin: last })
                && stream_id == o.data_id && bytes_of(rest).len() == 0 && last
        },
{
    if let SharedSplitState::Opened(o) = state {
        super::write::law_data_frame_is_plain(o.data_id, payload, o.data_id, payload);
    }
}

/// The write side of an open stream counts as shut down exactly once the final
/// frame was taken; a shutdown that waits or fails leaves it open. The stream
/// keeps its ids. A shutdown before the first use is complete at once and
/// sends nothing.
pub proof fn law_shutdown_marks_what_was_sent(
    state: SharedSplitState,
    stage: ShutdownStage,
    event: ShutdownEvent,
    after: SharedSplitState,
    next: ShutdownStage,
)
    requires
        stream_shutdown_moved(state, stage, event, after, next),
    ensures
        state is Unopened ==> after == state && next == ShutdownStage::Ready,
        state matches SharedSplitState::Opened(o) ==> (after matches SharedSplitState::Opened(p)
            && {
            &&& p.data_id == o.data_id
            &&& p.guard == o.guard
            &&& o.graceful_shutdown ==> p.graceful_shutdown
            &&& !o.graceful_shutdown ==> (p.graceful_shutdown <==> stage is SendFin && event
                == ShutdownEvent::Sent(true))
            &&& p.graceful_shutdown && !o.graceful_shutdown ==> next == ShutdownStage::Ready
            &&& stage is SendFin && event == ShutdownEvent::Sent(false) ==> next
                == ShutdownStage::BrokenPipe
        }),
{
}

/// On an open stream, or once the attempt to open succeeded, a read with room
/// and a fill work on what was received: they poll the channel exactly where
/// nothing is buffered and the peer has not ended the stream, and complete at
/// once otherwise. A write then begins with a look at the window.
pub proof fn law_open_stream_reads_at_once(
    opened: OpenedShared,
    side: ReadSide,
    room: nat,
    out: Seq<u8>,
    read_state: SharedSplitState,
    read_side: ReadSide,
    read_out: Seq<u8>,
    read: ReadAction,
    fill_state: SharedSplitState,
    fill_side: ReadSide,
    fill: ReadAction,
)
    requires
        room > 0,
        stream_read_started(
            SharedSplitState::Opened(opened),
            side,
            room,
            out,
            read_state,
            read_side,
            read_out,
            read,
        ),
        stream_fill_started(SharedSplitState::Opened(opened), side, fill_state, fill_side, fill),
    ensures
        read_state == SharedSplitState::Opened(opened),
        fill_state == SharedSplitState::Opened(opened),
        side.buf is None && !side.eof ==> read is Recv && fill is Recv && read_out == out,
        side.eof ==> read is Ready && read_out == out,
        side.eof && side.buf is None ==> fill is Ready && fill_side.buf is None,
        side.buf matches Some(b) ==> (bytes_of(b).len() > 0 && !side.eof ==> {
            &&& read is Ready
            &&& read_out.len() > out.len()
            &&& fill is Ready
            &&& fill_side == side
        }),
{
    if !side.eof {
        super::read::law_read_drains_the_buffer(
            side,
            room,
            out,
            read_side,
            read_out,
            step_of(read),
        );
    }
}

/// Once the attempt to open came to an end, what asked for it goes on: on the
/// pair under its new ids, or with a broken pipe that leaves the stream as it
/// is.
pub proof fn law_use_goes_on_after_opening(
    state: SharedSplitState,
    side: ReadSide,
    outcome: Result<OpenedStreamParts, MuxError>,
    room: nat,
    out: Seq<u8>,
    read_state: SharedSplitState,
    read_side: ReadSide,
    read_out: Seq<u8>,
    read: ReadAction,
    fill_state: SharedSplitState,
    fill_side: ReadSide,
    fill: ReadAction,
    write_state: SharedSplitState,
    stage: WriteStage,
)
    requires
        side.buf is None && !side.eof,
        stream_read_realized(
            state,
            side,
            outcome,
            room,
            out,
            read_state,
            read_side,
            read_out,
            read,
        ),
        stream_fill_realized(state, side, outcome, fill_state, fill_side, fill),
        stream_write_realized(state, outcome, write_state, stage),
    ensures
        read_out == out,
        outcome matches Ok(parts) ==> {
            &&& read is Recv && fill is Recv && stage == WriteStage::CheckClosed
            &&& read_state matches SharedSplitState::Opened(o) && o.data_id == parts.data_id
                && o.guard.error_id == parts.error_id && !o.graceful_shutdown
            &&& fill_state matches SharedSplitState::Opened(o) && o.data_id == parts.data_id
                && o.guard.error_id == parts.error_id && !o.graceful_shutdown
            &&& write_state matches SharedSplitState::Opened(o) && o.data_id == parts.data_id
                && o.guard.error_id == parts.error_id && !o.graceful_shutdown
        },
        outcome is Err ==> {
            &&& read is BrokenPipe && fill is BrokenPipe && stage == WriteStage::BrokenPipe
            &&& read_state == state && fill_state == state && write_state == state
            &&& read_side == side && fill_side == side
        },
{
}

} // verus!
