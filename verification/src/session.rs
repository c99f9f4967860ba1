//! A port-forward session to one pod port.
//!
//! The session multiplexes many local connections over a pool of upgraded
//! connections to the apiserver, and keeps spare streams so that a connect
//! need not wait. The streams themselves are kept by the caller, under
//! numbers of its choice.
use crate::error::Error;
use crate::error::MuxError;
use crate::outside::queue::queue_capacity;
use crate::outside::queue::queue_items;
use crate::outside::queue::queue_len;
use crate::outside::queue::queue_new;
use crate::outside::queue::queue_pop;
use crate::outside::queue::queue_push;
use crate::spdy;
use crate::spdy::open::Headers;
use crate::spdy::session::room;
use crate::spdy::session::total_capacity;
use crate::spdy::session::total_in_use;
use crate::spdy::session::total_operating;
use crate::subprotocol::Subprotocol;
use crate::text::decimal;
use crate::text::law_decimal_injective;
use crate::text::to_decimal;
use crossbeam_queue::ArrayQueue;
use tokio_util::sync::CancellationToken;
use vstd::prelude::*;

verus! {

/// Spare streams that are kept at most.
pub const SPARE_STREAM_CAP: usize = 16;

/// When the spare count drops to or below this threshold, the spares are to
/// be replenished.
pub const SPARE_STREAM_LOW_WATERMARK: usize = 8;

/// One port-forward session.
pub struct Session {
    pub inner: spdy::session::Session,
    pub protocol: Subprotocol,
    /// Target pod port. The kubelet expects it in the `port` header of every
    /// paired stream.
    pub port: u16,
    /// Counter of request ids. The kubelet pairs the data and the error
    /// stream of one logical connection by this header.
    pub next_request_id: u32,
    /// Spare streams, the oldest first.
    pub spare_streams: ArrayQueue<u64>,
    /// The spares are being replenished.
    pub replenishing: bool,
}

/// What was seen of a spare stream before it is handed out.
#[derive(Clone, Copy, Debug, PartialEq, Eq, Structural)]
pub struct SpareProbe {
    /// The remote has closed the read side.
    pub read_closed: bool,
    /// The connection that the stream is bound to is gone.
    pub connection_closed: bool,
}

/// How a connect goes on.
pub enum ConnectStep {
    /// Look at this spare and hand in what was seen.
    Probe { stream: u64 },
    /// This spare can be used.
    Ready { stream: u64 },
    /// Open a stream pair with these headers.
    Open { error_headers: Headers, data_headers: Headers },
}

/// How the replenishing goes on.
pub enum ReplenishStep {
    /// Open a stream pair with these headers and hand in the outcome.
    Open { error_headers: Headers, data_headers: Headers },
    /// There is nothing left to do. A stream that found no place goes.
    Done { discard: Option<u64> },
}

/// A header list as characters.
pub open spec fn header_texts(headers: Headers) -> Seq<(Seq<char>, Seq<char>)> {
    Seq::new(headers@.len(), |i: int| (headers@[i].0@, headers@[i].1@))
}

/// The headers of one stream of a pair.
pub open spec fn pair_headers(stream_type: Seq<char>, port: u16, request_id: u32) -> Seq<
    (Seq<char>, Seq<char>),
> {
    seq![
        ("streamtype"@, stream_type),
        ("port"@, decimal(port as nat)),
        ("requestid"@, decimal(request_id as nat)),
    ]
}

/// Whether the two header lists are those of the pair with this request id.
pub open spec fn are_pair_headers(
    error_headers: Headers,
    data_headers: Headers,
    port: u16,
    request_id: u32,
) -> bool {
    &&& header_texts(error_headers) =~= pair_headers("error"@, port, request_id)
    &&& header_texts(data_headers) =~= pair_headers("data"@, port, request_id)
}

fn stream_headers(stream_type: &str, port: u16, request_id: u32) -> (r: Headers)
    ensures
        header_texts(r) =~= pair_headers(stream_type@, port, request_id),
{
    let mut headers: Headers = Vec::new();
    headers.push(("streamtype".to_owned(), stream_type.to_owned()));
    headers.push(("port".to_owned(), to_decimal(port as u64)));
    headers.push(("requestid".to_owned(), to_decimal(request_id as u64)));
    headers
}

impl Session {
    /// The spare streams, the oldest first.
    pub open spec fn spares(self) -> Seq<u64> {
        queue_items(self.spare_streams)
    }

    /// There are no more spares than allowed, and the pool is sound.
    pub open spec fn wf(self) -> bool {
        &&& self.inner.wf()
        &&& queue_capacity(self.spare_streams) == SPARE_STREAM_CAP
        &&& self.spares().len() <= SPARE_STREAM_CAP
    }

    /// Whether everything but the spares, the request ids and the
    /// replenishing is as in `other`.
    pub open spec fn same_session(self, other: Session) -> bool {
        &&& self.inner == other.inner
        &&& self.protocol == other.protocol
        &&& self.port == other.port
    }

    /// A session over a pool of connections.
    pub fn from_spdy(session: spdy::session::Session, protocol: Subprotocol, port: u16) -> (r:
        Session)
        ensures
            r.inner == session,
            r.protocol == protocol,
            r.port == port,
            r.next_request_id == 0,
            r.spares().len() == 0,
            !r.replenishing,
            session.wf() ==> r.wf(),
    {
        Session {
            inner: session,
            protocol,
            port,
            next_request_id: 0,
            spare_streams: queue_new(SPARE_STREAM_CAP),
            replenishing: false,
        }
    }

    /// Builds the `portforward.k8s.io` headers for one stream pair, under the
    /// next request id.
    pub fn portforward_headers(&mut self) -> (r: (Headers, Headers))
        ensures
            are_pair_headers(r.0, r.1, old(self).port, old(self).next_request_id),
            final(self).next_request_id == old(self).next_request_id.wrapping_add(1),
            final(self).same_session(*old(self)),
            final(self).spare_streams == old(self).spare_streams,
            final(self).replenishing == old(self).replenishing,
    {
        let request_id = self.next_request_id;
        self.next_request_id = request_id.wrapping_add(1);
        (
            stream_headers("error", self.port, request_id),
            stream_headers("data", self.port, request_id),
        )
    }

    /// Whether opening a new stream is what follows, under the next request
    /// id.
    pub open spec fn opens_new(
        self,
        after: Session,
        error_headers: Headers,
        data_headers: Headers,
    ) -> bool {
        &&& are_pair_headers(error_headers, data_headers, self.port, self.next_request_id)
        &&& after.next_request_id == self.next_request_id.wrapping_add(1)
    }

    /// What a connect does next: the oldest spare is looked at; without
    /// spares a stream is opened.
    pub open spec fn connect_went_on(self, after: Session, step: ConnectStep) -> bool {
        &&& after.same_session(self)
        &&& after.replenishing == self.replenishing
        &&& if self.spares().len() > 0 {
            &&& step == (ConnectStep::Probe { stream: self.spares()[0] })
            &&& after.spares() =~= self.spares().skip(1)
            &&& after.next_request_id == self.next_request_id
        } else {
            &&& after.spares().len() == 0
            &&& step matches ConnectStep::Open { error_headers, data_headers } && self.opens_new(
                after,
                error_headers,
                data_headers,
            )
        }
    }

    /// Begins a connect.
    pub fn connect(&mut self) -> (step: ConnectStep)
        requires
            old(self).wf(),
        ensures
            final(self).wf(),
            old(self).connect_went_on(*final(self), step),
    {
        match queue_pop(&mut self.spare_streams) {
            Some(stream) => ConnectStep::Probe { stream },
            None => {
                let (error_headers, data_headers) = self.portforward_headers();
                ConnectStep::Open { error_headers, data_headers }
            },
        }
    }

    /// Goes on with a connect after a look at a spare. One that the remote
    /// has closed, or that is bound to a dead connection, is dropped.
    pub fn spare_probed(&mut self, stream: u64, probe: SpareProbe) -> (step: ConnectStep)
        requires
            old(self).wf(),
        ensures
            final(self).wf(),
            if probe.read_closed || probe.connection_closed {
                old(self).connect_went_on(*final(self), step)
            } else {
                step == (ConnectStep::Ready { stream }) && *final(self) == *old(self)
            },
    {
        if probe.read_closed || probe.connection_closed {
            return self.connect();
        }
        ConnectStep::Ready { stream }
    }

    /// The outcome of opening a stream pair, with the session's own error.
    pub fn opened(outcome: Result<u64, MuxError>) -> (r: Result<u64, Error>)
        ensures
            match outcome {
                Ok(stream) => r == Ok::<u64, Error>(stream),
                Err(e) => r == Err::<u64, Error>(Error::of_mux(e)),
            },
    {
        match outcome {
            Ok(stream) => Ok(stream),
            Err(e) => Err(Error::from_mux(e)),
        }
    }

    /// What the replenishing does next when `spares` are there: as long as
    /// there is room for more, the pool takes streams and the session is not
    /// cancelled, another stream is opened.
    pub open spec fn replenish_went_on(
        self,
        spares: Seq<u64>,
        cancelled: bool,
        after: Session,
        step: ReplenishStep,
    ) -> bool {
        &&& after.same_session(self)
        &&& after.spares() =~= spares
        &&& if spares.len() < SPARE_STREAM_CAP && !self.full() && !cancelled {
            &&& after.replenishing
            &&& step matches ReplenishStep::Open { error_headers, data_headers } && self.opens_new(
                after,
                error_headers,
                data_headers,
            )
        } else {
            &&& !after.replenishing
            &&& after.next_request_id == self.next_request_id
            &&& step == (ReplenishStep::Done { discard: None })
        }
    }

    /// No connection of the pool can take another pair.
    pub open spec fn full(self) -> bool {
        forall|i: int|
            0 <= i < self.inner.pool@.len() ==> {
                let m = #[trigger] self.inner.pool@[i];
                m.closed || m.active_pairs >= m.max_concurrent
            }
    }

    fn replenish_more(&mut self, cancelled: bool) -> (step: ReplenishStep)
        requires
            old(self).wf(),
        ensures
            final(self).wf(),
            old(self).replenish_went_on(old(self).spares(), cancelled, *final(self), step),
    {
        if queue_len(&self.spare_streams) >= SPARE_STREAM_CAP || self.is_full() || cancelled {
            self.replenishing = false;
            return ReplenishStep::Done { discard: None };
        }
        self.replenishing = true;
        let (error_headers, data_headers) = self.portforward_headers();
        ReplenishStep::Open { error_headers, data_headers }
    }

    /// Begins to open spare streams up to [`SPARE_STREAM_CAP`], where
    /// `cancelled` tells whether the session was cancelled. While another
    /// run is under way nothing is done.
    pub fn begin_replenish(&mut self, cancelled: bool) -> (step: ReplenishStep)
        requires
            old(self).wf(),
        ensures
            final(self).wf(),
            old(self).replenish_began(cancelled, *final(self), step),
    {
        if self.replenishing {
            return ReplenishStep::Done { discard: None };
        }
        self.replenish_more(cancelled)
    }

    /// What the start of a replenishing does.
    pub open spec fn replenish_began(
        self,
        cancelled: bool,
        after: Session,
        step: ReplenishStep,
    ) -> bool {
        if self.replenishing {
            step == (ReplenishStep::Done { discard: None }) && after == self
        } else {
            self.replenish_went_on(self.spares(), cancelled, after, step)
        }
    }

    /// Begins to open spare streams. Whether the session was cancelled, its
    /// token tells; see [`begin_replenish`](Session::begin_replenish).
    pub fn replenish_spare_streams(&mut self) -> (step: ReplenishStep)
        requires
            old(self).wf(),
        ensures
            final(self).wf(),
            exists|cancelled: bool| #[trigger]
                old(self).replenish_began(cancelled, *final(self), step),
    {
        let cancelled = self.cancellation_token().is_cancelled();
        self.begin_replenish(cancelled)
    }

    /// Goes on with the replenishing once a stream was opened, or could not
    /// be.
    pub fn spare_opened(&mut self, outcome: Result<u64, Error>, cancelled: bool) -> (step:
        ReplenishStep)
        requires
            old(self).wf(),
        ensures
            final(self).wf(),
            match outcome {
                Ok(stream) => if old(self).spares().len() < SPARE_STREAM_CAP {
                    old(self).replenish_went_on(
                        old(self).spares().push(stream),
                        cancelled,
                        *final(self),
                        step,
                    )
                } else {
                    &&& step == (ReplenishStep::Done { discard: Some(stream) })
                    &&& final(self).spares() == old(self).spares()
                    &&& !final(self).replenishing
                    &&& final(self).next_request_id == old(self).next_request_id
                    &&& final(self).same_session(*old(self))
                },
                Err(_) => {
                    &&& step == (ReplenishStep::Done { discard: None })
                    &&& final(self).spares() == old(self).spares()
                    &&& !final(self).replenishing
                    &&& final(self).next_request_id == old(self).next_request_id
                    &&& final(self).same_session(*old(self))
                },
            },
    {
        match outcome {
            Ok(stream) => match queue_push(&mut self.spare_streams, stream) {
                Ok(()) => self.replenish_more(cancelled),
                Err(stream) => {
                    self.replenishing = false;
                    ReplenishStep::Done { discard: Some(stream) }
                },
            },
            Err(_) => {
                self.replenishing = false;
                ReplenishStep::Done { discard: None }
            },
        }
    }

    /// Ends a replenishing that was given up on the way.
    pub fn abandon_replenish(&mut self)
        ensures
            !final(self).replenishing,
            final(self).same_session(*old(self)),
            final(self).spare_streams == old(self).spare_streams,
            final(self).next_request_id == old(self).next_request_id,
    {
        self.replenishing = false;
    }

    /// Number of spare streams.
    pub fn spare_count(&self) -> (r: usize)
        ensures
            r == self.spares().len(),
    {
        queue_len(&self.spare_streams)
    }

    /// Whether the spares have run low.
    pub fn needs_replenish(&self) -> (r: bool)
        ensures
            r == (self.spares().len() <= SPARE_STREAM_LOW_WATERMARK),
            r <==> self.spares().len() <= 8,
    {
        self.spare_count() <= SPARE_STREAM_LOW_WATERMARK
    }

    /// The negotiated protocol.
    pub fn protocol(&self) -> (r: Subprotocol)
        ensures
            r == self.protocol,
    {
        self.protocol
    }

    /// Max concurrent streams this session can hold.
    pub fn capacity(&self) -> (r: usize)
        requires
            total_capacity(self.inner.pool@) <= usize::MAX,
        ensures
            r == total_capacity(self.inner.pool@),
    {
        self.inner.capacity()
    }

    /// Streams that the session is scheduled for.
    pub fn operating_capacity(&self) -> (r: usize)
        requires
            total_operating(self.inner.pool@) <= usize::MAX,
        ensures
            r == total_operating(self.inner.pool@),
    {
        self.inner.operating_capacity()
    }

    /// Streams reserved or open.
    pub fn in_use(&self) -> (r: usize)
        requires
            total_in_use(self.inner.pool@) <= usize::MAX,
        ensures
            r == total_in_use(self.inner.pool@),
    {
        self.inner.in_use()
    }

    /// Room for further streams.
    pub fn available(&self) -> (r: usize)
        requires
            self.inner.totals_fit(),
        ensures
            r == room(total_capacity(self.inner.pool@), total_in_use(self.inner.pool@)),
    {
        self.inner.available()
    }

    /// Whether no connection can take another stream.
    pub fn is_full(&self) -> (r: bool)
        ensures
            r == self.full(),
    {
        self.inner.is_full()
    }

    /// Whether all connections are gone.
    pub fn is_drained(&self) -> (r: bool)
        ensures
            r == forall|i: int|
                0 <= i < self.inner.pool@.len() ==> (#[trigger] self.inner.pool@[i]).closed,
    {
        self.inner.is_drained()
    }

    /// The token that ends the session.
    pub fn cancellation_token(&self) -> (r: CancellationToken)
        ensures
            r == self.inner.cancel,
    {
        self.inner.cancellation_token()
    }

    /// Closes the session.
    pub fn close(self) -> (r: Result<(), Error>)
        ensures
            r is Ok,
    {
        match self.inner.close() {
            Ok(()) => Ok(()),
            Err(e) => Err(Error::from_mux(e)),
        }
    }
}

/// The spare that a connect ends with when it looks at `spares` one by one,
/// the oldest first, and `usable` tells which can be used.
pub open spec fn spare_found(spares: Seq<u64>, usable: spec_fn(u64) -> bool) -> Option<u64>
    decreases spares.len(),
{
    if spares.len() == 0 {
        None
    } else if usable(spares[0]) {
        Some(spares[0])
    } else {
        spare_found(spares.skip(1), usable)
    }
}

/// A connect hands out the oldest spare that can be used, and opens a stream
/// only if there is none.
pub proof fn law_connect_takes_the_oldest_usable_spare(
    spares: Seq<u64>,
    usable: spec_fn(u64) -> bool,
)
    ensures
        match spare_found(spares, usable) {
            Some(stream) => exists|i: int|
                0 <= i < spares.len() && #[trigger] spares[i] == stream && usable(stream)
                    && forall|j: int| 0 <= j < i ==> !usable(#[trigger] spares[j]),
            None => forall|j: int| 0 <= j < spares.len() ==> !usable(#[trigger] spares[j]),
        },
    decreases spares.len(),
{
    if spares.len() > 0 && !usable(spares[0]) {
        let rest = spares.skip(1);
        law_connect_takes_the_oldest_usable_spare(rest, usable);
        match spare_found(rest, usable) {
            Some(stream) => {
                let i = choose|i: int|
                    0 <= i < rest.len() && #[trigger] rest[i] == stream && usable(stream)
                        && forall|j: int| 0 <= j < i ==> !usable(#[trigger] rest[j]);
                assert(spares[i + 1] == stream);
                assert forall|j: int| 0 <= j < i + 1 implies !usable(#[trigger] spares[j]) by {
                    if j > 0 {
                        assert(rest[j - 1] == spares[j]);
                    }
                }
            },
            None => {
                assert forall|j: int| 0 <= j < spares.len() implies !usable(
                    #[trigger] spares[j],
                ) by {
                    if j > 0 {
                        assert(rest[j - 1] == spares[j]);
                    }
                }
            },
        }
    }
}

/// One look at a spare is one step of that search.
pub proof fn law_connect_looks_at_spares_in_order(
    session: Session,
    after: Session,
    step: ConnectStep,
    usable: spec_fn(u64) -> bool,
)
    requires
        session.connect_went_on(after, step),
    ensures
        step is Open <==> session.spares().len() == 0,
        step is Open ==> spare_found(session.spares(), usable) is None,
        step matches ConnectStep::Probe { stream } ==> spare_found(session.spares(), usable) == (
        if usable(stream) {
            Some(stream)
        } else {
            spare_found(after.spares(), usable)
        }),
{
}

/// The two streams of a pair carry the same port and request id, and pairs
/// with different request ids can be told apart by them.
pub proof fn law_request_id_names_the_pair(
    error_headers: Headers,
    data_headers: Headers,
    port: u16,
    id: u32,
    other_error_headers: Headers,
    other_data_headers: Headers,
    other_port: u16,
    other_id: u32,
)
    requires
        are_pair_headers(error_headers, data_headers, port, id),
        are_pair_headers(other_error_headers, other_data_headers, other_port, other_id),
    ensures
        header_texts(error_headers).skip(1) == header_texts(data_headers).skip(1),
        header_texts(error_headers)[0].1 != header_texts(data_headers)[0].1,
        header_texts(data_headers)[2] == header_texts(other_data_headers)[2] <==> id == other_id,
        header_texts(data_headers) == header_texts(other_data_headers) <==> id == other_id && port
            == other_port,
{
    reveal_strlit("error");
    reveal_strlit("data");
    law_decimal_injective(id as nat, other_id as nat);
    law_decimal_injective(port as nat, other_port as nat);
    assert(header_texts(error_headers).skip(1) =~= header_texts(data_headers).skip(1));
    assert("error"@.len() != "data"@.len());
    if header_texts(data_headers) == header_texts(other_data_headers) {
        assert(header_texts(data_headers)[1].1 == header_texts(other_data_headers)[1].1);
        assert(header_texts(data_headers)[2].1 == header_texts(other_data_headers)[2].1);
    }
}

/// Both streams of a pair carry three headers, in this order and under these
/// names: which of the two it is, the port, and the request id, the last two
/// in decimal.
pub proof fn law_pair_headers_name_type_port_and_id(
    error_headers: Headers,
    data_headers: Headers,
    port: u16,
    request_id: u32,
)
    requires
        are_pair_headers(error_headers, data_headers, port, request_id),
    ensures
        error_headers@.len() == 3,
        data_headers@.len() == 3,
        error_headers@[0].0@ == "streamtype"@ && error_headers@[0].1@ == "error"@,
        data_headers@[0].0@ == "streamtype"@ && data_headers@[0].1@ == "data"@,
        error_headers@[1].0@ == "port"@ && data_headers@[1].0@ == "port"@,
        error_headers@[2].0@ == "requestid"@ && data_headers@[2].0@ == "requestid"@,
        crate::text::decimal_value(error_headers@[1].1@) == port,
        crate::text::decimal_value(data_headers@[1].1@) == port,
        crate::text::decimal_value(error_headers@[2].1@) == request_id,
        crate::text::decimal_value(data_headers@[2].1@) == request_id,
{
    crate::text::law_decimal_reads_back(port as nat);
    crate::text::law_decimal_reads_back(request_id as nat);
    let e = header_texts(error_headers);
    let d = header_texts(data_headers);
    assert(e.len() == 3 && d.len() == 3);
    assert(e[0] == (error_headers@[0].0@, error_headers@[0].1@));
    assert(e[1] == (error_headers@[1].0@, error_headers@[1].1@));
    assert(e[2] == (error_headers@[2].0@, error_headers@[2].1@));
    assert(d[0] == (data_headers@[0].0@, data_headers@[0].1@));
    assert(d[1] == (data_headers@[1].0@, data_headers@[1].1@));
    assert(d[2] == (data_headers@[2].0@, data_headers@[2].1@));
}

/// Every new stream has a request id of its own: the next one is one more,
/// and nothing but opening a stream uses one up. A connect takes the oldest
/// spare off the others, which keep their order, and opens a stream only where
/// there is none.
pub proof fn law_connect_prefers_spares(session: Session, after: Session, step: ConnectStep)
    requires
        session.connect_went_on(after, step),
    ensures
        session.spares().len() > 0 ==> {
            &&& step == (ConnectStep::Probe { stream: session.spares()[0] })
            &&& seq![session.spares()[0]] + after.spares() == session.spares()
            &&& after.next_request_id == session.next_request_id
        },
        session.spares().len() == 0 ==> {
            &&& step is Open
            &&& after.spares().len() == 0
            &&& session.next_request_id < u32::MAX ==> after.next_request_id
                == session.next_request_id + 1
            &&& session.next_request_id == u32::MAX ==> after.next_request_id == 0
        },
        after.port == session.port,
        after.inner == session.inner,
        after.protocol == session.protocol,
        after.replenishing == session.replenishing,
{
    if session.spares().len() > 0 {
        assert(seq![session.spares()[0]] + after.spares() =~= session.spares());
    }
}

/// Replenishing opens another stream exactly while there are fewer than
/// sixteen spares, a connection that lives has room, and the session is not
/// cancelled. Otherwise it is over, and uses up no request id. It never
/// touches the spares that are there.
pub proof fn law_replenishing_stops_in_time(
    session: Session,
    spares: Seq<u64>,
    cancelled: bool,
    after: Session,
    step: ReplenishStep,
)
    requires
        session.replenish_went_on(spares, cancelled, after, step),
    ensures
        step is Open <==> spares.len() < 16 && !cancelled && exists|i: int|
            {
                &&& 0 <= i < session.inner.pool@.len()
                &&& !(#[trigger] session.inner.pool@[i]).closed
                &&& session.inner.pool@[i].active_pairs < session.inner.pool@[i].max_concurrent
            },
        step is Open <==> after.replenishing,
        step is Open ==> {
            &&& session.next_request_id < u32::MAX ==> after.next_request_id
                == session.next_request_id + 1
            &&& session.next_request_id == u32::MAX ==> after.next_request_id == 0
        },
        !(step is Open) ==> step == (ReplenishStep::Done { discard: None })
            && after.next_request_id == session.next_request_id,
        after.spares() == spares,
        after.port == session.port,
        after.inner == session.inner,
{
    if !session.full() {
        let i = choose|i: int|
            0 <= i < session.inner.pool@.len() && !({
                let m = #[trigger] session.inner.pool@[i];
                m.closed || m.active_pairs >= m.max_concurrent
            });
        assert(!session.inner.pool@[i].closed);
    }
}

/// While one replenishing is under way another does nothing at all.
pub proof fn law_one_replenishing_at_a_time(
    session: Session,
    cancelled: bool,
    after: Session,
    step: ReplenishStep,
)
    requires
        session.replenish_began(cancelled, after, step),
    ensures
        session.replenishing ==> step == (ReplenishStep::Done { discard: None }) && after == session,
        !session.replenishing ==> session.replenish_went_on(
            session.spares(),
            cancelled,
            after,
            step,
        ),
{
}

} // verus!
