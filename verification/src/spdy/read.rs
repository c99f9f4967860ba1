//! The read side of a stream: chunks arrive on a channel and leave as bytes.
//!
//! Polling the channel is left to the caller. A read that has to poll it
//! answers `ReadStep::Recv`; the caller polls once and hands the outcome to
//! [`read_received`] or [`fill_received`].
use crate::outside::buffer::bytes_advance;
use crate::outside::buffer::bytes_as_slice;
use crate::outside::buffer::bytes_of;
use crate::outside::buffer::bytes_slice_from;
use bytes::Bytes;
use vstd::prelude::*;
use vstd::slice::slice_subrange;

verus! {

/// What a stream keeps between reads.
pub struct ReadSide {
    /// The rest of a chunk that a read could not take whole.
    pub buf: Option<Bytes>,
    /// The peer has ended the stream.
    pub eof: bool,
}

/// Outcome of polling the channel once.
pub enum RecvPoll {
    Pending,
    Chunk(Bytes),
    /// The peer has ended the stream, and nothing is left in the channel.
    Finished,
    /// The connection is gone before the peer has ended the stream, and
    /// nothing is left in the channel.
    Broken,
}

/// How a read goes on.
#[derive(Clone, Copy, Debug, PartialEq, Eq, Structural)]
pub enum ReadStep {
    /// Poll the channel and hand in the outcome.
    Recv,
    /// Nothing to read yet.
    Pending,
    /// The read is complete.
    Ready,
    /// The connection is gone.
    BrokenPipe,
}

/// The smaller of two lengths.
pub open spec fn min_len(a: nat, b: nat) -> nat {
    if a <= b {
        a
    } else {
        b
    }
}

/// The part of `bytes` that `n` bytes of room can take.
pub open spec fn taken(bytes: Seq<u8>, n: nat) -> Seq<u8> {
    bytes.take(min_len(bytes.len(), n) as int)
}

/// The part of `bytes` that `n` bytes of room cannot take.
pub open spec fn left(bytes: Seq<u8>, n: nat) -> Seq<u8> {
    bytes.skip(min_len(bytes.len(), n) as int)
}

impl ReadSide {
    /// A side that has received nothing.
    pub fn new() -> (r: ReadSide)
        ensures
            r.buf is None,
            !r.eof,
            r.wf(),
    {
        ReadSide { buf: None, eof: false }
    }

    /// The bytes received and not read yet.
    pub open spec fn pending(self) -> Seq<u8> {
        match self.buf {
            Some(b) => bytes_of(b),
            None => Seq::empty(),
        }
    }

    /// The channel ends only after everything it carried was taken up.
    pub open spec fn wf(self) -> bool {
        self.eof ==> self.buf is None
    }

    /// Whether a read has to poll the channel.
    pub open spec fn wants_recv(self) -> bool {
        self.buf is None && !self.eof
    }

    /// The bytes that a fill made available.
    pub fn filled(&self) -> (r: &[u8])
        ensures
            r@ == self.pending(),
    {
        match &self.buf {
            Some(b) => bytes_as_slice(b),
            None => &[],
        }
    }
}

/// The length of the prefix that fits into `room` bytes.
fn fitting(len: usize, room: usize) -> (r: usize)
    ensures
        r == min_len(len as nat, room as nat),
{
    if len <= room {
        len
    } else {
        room
    }
}

/// Appends the first `n` bytes of `chunk` to `out`.
fn copy_prefix(chunk: &Bytes, n: usize, out: &mut Vec<u8>)
    requires
        n <= bytes_of(*chunk).len(),
    ensures
        final(out)@ == old(out)@ + bytes_of(*chunk).take(n as int),
{
    let bytes = bytes_as_slice(chunk);
    let prefix = slice_subrange(bytes, 0, n);
    out.extend_from_slice(prefix);
    assert(out@ =~= old(out)@ + bytes_of(*chunk).take(n as int));
}

/// What the start of a read of at most `room` bytes does: a side that has
/// ended yields nothing, buffered bytes are handed out in order, and the
/// channel has to be polled where neither holds.
pub open spec fn read_started(
    before: ReadSide,
    room: nat,
    out_before: Seq<u8>,
    after: ReadSide,
    out_after: Seq<u8>,
    step: ReadStep,
) -> bool {
    &&& step == (if before.wants_recv() {
        ReadStep::Recv
    } else {
        ReadStep::Ready
    })
    &&& after.eof == before.eof
    &&& before.eof || before.buf is None ==> after == before && out_after == out_before
    &&& !before.eof ==> {
        &&& out_after =~= out_before + taken(before.pending(), room)
        &&& after.pending() =~= left(before.pending(), room)
        &&& after.buf is None <==> before.buf is None || before.pending().len() <= room
    }
}

/// What the end of a read does that polled the channel: of a chunk, what does
/// not fit into `room` bytes stays buffered. A stream that the peer ended
/// reads as ended; one that lost its connection fails, now and later.
pub open spec fn read_ended(
    room: nat,
    recv: RecvPoll,
    before: ReadSide,
    out_before: Seq<u8>,
    after: ReadSide,
    out_after: Seq<u8>,
    step: ReadStep,
) -> bool {
    match recv {
        RecvPoll::Pending => step == ReadStep::Pending && after == before && out_after
            == out_before,
        RecvPoll::Finished => step == ReadStep::Ready && after.eof && after.buf is None
            && out_after == out_before,
        RecvPoll::Broken => step == ReadStep::BrokenPipe && after == before && out_after
            == out_before,
        RecvPoll::Chunk(data) => {
            &&& step == ReadStep::Ready
            &&& !after.eof
            &&& out_after =~= out_before + taken(bytes_of(data), room)
            &&& after.pending() =~= left(bytes_of(data), room)
            &&& after.buf is None <==> bytes_of(data).len() <= room
        },
    }
}

/// What the start of a fill does: it is complete where bytes are buffered or
/// the side has ended; otherwise the channel has to be polled. An empty
/// buffer is dropped.
pub open spec fn fill_started(before: ReadSide, after: ReadSide, step: ReadStep) -> bool {
    &&& after.eof == before.eof
    &&& after.pending() =~= before.pending()
    &&& before.pending().len() > 0 ==> step == ReadStep::Ready && after == before
    &&& before.pending().len() == 0 ==> after.buf is None && step == (if before.eof {
        ReadStep::Ready
    } else {
        ReadStep::Recv
    })
}

/// What a fill does with an outcome of the channel: a chunk is made available
/// whole, and after an empty one the channel has to be polled again. A stream
/// that the peer ended has nothing more to offer; one that lost its
/// connection fails, now and later.
pub open spec fn fill_went_on(
    recv: RecvPoll,
    before: ReadSide,
    after: ReadSide,
    step: ReadStep,
) -> bool {
    match recv {
        RecvPoll::Pending => step == ReadStep::Pending && after == before,
        RecvPoll::Finished => step == ReadStep::Ready && after.eof && after.buf is None,
        RecvPoll::Broken => step == ReadStep::BrokenPipe && after == before,
        RecvPoll::Chunk(data) => {
            &&& !after.eof
            &&& after.pending() =~= bytes_of(data)
            &&& bytes_of(data).len() > 0 ==> step == ReadStep::Ready && after.buf == Some(data)
            &&& bytes_of(data).len() == 0 ==> step == ReadStep::Recv && after.wants_recv()
        },
    }
}

/// Starts a read of at most `room` bytes. Buffered bytes are drained first,
/// in order; a side that has ended yields nothing; otherwise the channel has
/// to be polled.
pub fn poll_read_channel(side: &mut ReadSide, room: usize, out: &mut Vec<u8>) -> (step: ReadStep)
    ensures
        read_started(*old(side), room as nat, old(out)@, *final(side), final(out)@, step),
        old(side).wf() ==> final(side).wf(),
{
    if side.eof {
        return ReadStep::Ready;
    }
    match side.buf.take() {
        Some(remaining) => {
            let to_copy = fitting(remaining.len(), room);
            copy_prefix(&remaining, to_copy, out);
            if to_copy < remaining.len() {
                side.buf = Some(bytes_slice_from(&remaining, to_copy));
            }
            ReadStep::Ready
        },
        None => ReadStep::Recv,
    }
}

/// Ends a read that polled the channel. Of a chunk, what does not fit into
/// `room` bytes stays buffered.
pub fn read_received(
    side: &mut ReadSide,
    room: usize,
    recv: RecvPoll,
    out: &mut Vec<u8>,
) -> (step: ReadStep)
    requires
        old(side).wants_recv(),
    ensures
        read_ended(room as nat, recv, *old(side), old(out)@, *final(side), final(out)@, step),
        final(side).wf(),
{
    match recv {
        RecvPoll::Pending => ReadStep::Pending,
        RecvPoll::Finished => {
            side.eof = true;
            ReadStep::Ready
        },
        RecvPoll::Broken => ReadStep::BrokenPipe,
        RecvPoll::Chunk(data) => {
            let to_copy = fitting(data.len(), room);
            copy_prefix(&data, to_copy, out);
            if to_copy < data.len() {
                side.buf = Some(bytes_slice_from(&data, to_copy));
            }
            ReadStep::Ready
        },
    }
}

/// Starts a fill: makes the next bytes available through
/// [`ReadSide::filled`]. An empty buffer is dropped.
pub fn poll_fill_buf_channel(side: &mut ReadSide) -> (step: ReadStep)
    ensures
        fill_started(*old(side), *final(side), step),
        old(side).wf() ==> final(side).wf(),
{
    let empty = match &side.buf {
        Some(b) => b.is_empty(),
        None => true,
    };
    if !empty {
        return ReadStep::Ready;
    }
    side.buf = None;
    if side.eof {
        ReadStep::Ready
    } else {
        ReadStep::Recv
    }
}

/// Goes on with a fill that polled the channel. An empty chunk is skipped:
/// the channel has to be polled again.
pub fn fill_received(side: &mut ReadSide, recv: RecvPoll) -> (step: ReadStep)
    requires
        old(side).wants_recv(),
    ensures
        fill_went_on(recv, *old(side), *final(side), step),
        final(side).wf(),
{
    match recv {
        RecvPoll::Pending => ReadStep::Pending,
        RecvPoll::Finished => {
            side.eof = true;
            ReadStep::Ready
        },
        RecvPoll::Broken => ReadStep::BrokenPipe,
        RecvPoll::Chunk(data) => {
            if data.is_empty() {
                ReadStep::Recv
            } else {
                side.buf = Some(data);
                ReadStep::Ready
            }
        },
    }
}

/// Drops the first `amt` buffered bytes, or all of them where fewer are
/// buffered.
pub fn consume_channel_buf(side: &mut ReadSide, amt: usize)
    ensures
        final(side).eof == old(side).eof,
        final(side).pending() == left(old(side).pending(), amt as nat),
        old(side).wf() ==> final(side).wf(),
        final(side).buf is None <==> old(side).pending().len() <= amt,
        amt <= old(side).pending().len() ==> final(side).pending() == old(side).pending().skip(
            amt as int,
        ),
{
    match side.buf.take() {
        Some(mut bytes) => {
            let consumed = fitting(bytes.len(), amt);
            bytes_advance(&mut bytes, consumed);
            if !bytes.is_empty() {
                side.buf = Some(bytes);
            }
        },
        None => {},
    }
    assert(side.pending() =~= left(old(side).pending(), amt as nat));
}

/// An operation on a read side, with what it was given.
pub enum ReadOp {
    /// A read that found bytes buffered.
    Read { room: nat },
    /// A read that polled the channel and received `chunk`.
    ReadChunk { room: nat, chunk: Seq<u8> },
    /// A fill that received `chunk`.
    Fill { chunk: Seq<u8> },
    /// Bytes made available by a fill were consumed.
    Consume { amt: nat },
}

/// Everything that went through a read side so far.
pub struct ReadHistory {
    /// All chunks received, joined.
    pub received: Seq<u8>,
    /// All bytes handed to the reader, joined.
    pub delivered: Seq<u8>,
    /// The bytes still buffered.
    pub pending: Seq<u8>,
}

impl ReadHistory {
    /// The history of a new side.
    pub open spec fn start() -> ReadHistory {
        ReadHistory { received: Seq::empty(), delivered: Seq::empty(), pending: Seq::empty() }
    }

    /// The channel is polled only when nothing is buffered.
    pub open spec fn allows(self, op: ReadOp) -> bool {
        match op {
            ReadOp::ReadChunk { .. } => self.pending.len() == 0,
            ReadOp::Fill { .. } => self.pending.len() == 0,
            _ => true,
        }
    }

    /// The effect of one operation.
    pub open spec fn after(self, op: ReadOp) -> ReadHistory {
        match op {
            ReadOp::Read { room } => self.hand_out(room),
            ReadOp::ReadChunk { room, chunk } => ReadHistory {
                received: self.received + chunk,
                pending: chunk,
                ..self
            }.hand_out(room),
            ReadOp::Fill { chunk } => ReadHistory {
                received: self.received + chunk,
                pending: chunk,
                ..self
            },
            ReadOp::Consume { amt } => self.hand_out(amt),
        }
    }

    /// At most `n` buffered bytes go to the reader.
    pub open spec fn hand_out(self, n: nat) -> ReadHistory {
        ReadHistory {
            delivered: self.delivered + taken(self.pending, n),
            pending: left(self.pending, n),
            ..self
        }
    }

    /// The effect of a sequence of operations.
    pub open spec fn after_all(self, ops: Seq<ReadOp>) -> ReadHistory
        decreases ops.len(),
    {
        if ops.len() == 0 {
            self
        } else {
            self.after_all(ops.drop_last()).after(ops.last())
        }
    }

    /// Every operation of the sequence is allowed where it stands.
    pub open spec fn allows_all(self, ops: Seq<ReadOp>) -> bool
        decreases ops.len(),
    {
        ops.len() == 0 || (self.allows_all(ops.drop_last()) && self.after_all(
            ops.drop_last(),
        ).allows(ops.last()))
    }
}

/// The operations of a read side are those of the history: each hands out
/// and keeps exactly the bytes that the history says.
pub proof fn law_read_side_follows_history(
    history: ReadHistory,
    side: ReadSide,
    room: nat,
    out: Seq<u8>,
    chunk: Bytes,
    after: ReadSide,
    out_after: Seq<u8>,
    step: ReadStep,
)
    requires
        history.pending == side.pending(),
        !side.eof,
    ensures
        read_started(side, room, out, after, out_after, step) ==> history.after(
            ReadOp::Read { room },
        ).pending == after.pending() && history.delivered + out_after.skip(out.len() as int)
            == history.after(ReadOp::Read { room }).delivered,
        read_ended(room, RecvPoll::Chunk(chunk), side, out, after, out_after, step)
            ==> history.after(ReadOp::ReadChunk { room, chunk: bytes_of(chunk) }).pending
            == after.pending() && history.delivered + out_after.skip(out.len() as int)
            == history.after(ReadOp::ReadChunk { room, chunk: bytes_of(chunk) }).delivered,
        fill_went_on(RecvPoll::Chunk(chunk), side, after, step) ==> history.after(
            ReadOp::Fill { chunk: bytes_of(chunk) },
        ).pending == after.pending(),
{
    if read_started(side, room, out, after, out_after, step) {
        assert(out_after.skip(out.len() as int) =~= taken(side.pending(), room));
    }
    if read_ended(room, RecvPoll::Chunk(chunk), side, out, after, out_after, step) {
        assert(out_after.skip(out.len() as int) =~= taken(bytes_of(chunk), room));
    }
}

/// Reads, fills and consumes in any order lose no byte, repeat none and keep
/// their order: what was delivered, followed by what is still buffered, is
/// what was received.
pub proof fn law_reads_deliver_in_order(ops: Seq<ReadOp>)
    requires
        ReadHistory::start().allows_all(ops),
    ensures
        ({
            let h = ReadHistory::start().after_all(ops);
            h.received == h.delivered + h.pending
        }),
    decreases ops.len(),
{
    let h = ReadHistory::start().after_all(ops);
    if ops.len() == 0 {
        assert(h.received =~= h.delivered + h.pending);
    } else {
        let before = ReadHistory::start().after_all(ops.drop_last());
        law_reads_deliver_in_order(ops.drop_last());
        assert(h == before.after(ops.last()));
        match ops.last() {
            ReadOp::Read { room } => {
                assert(h.delivered + h.pending =~= before.delivered + before.pending);
            },
            ReadOp::ReadChunk { room, chunk } => {
                assert(h.delivered + h.pending =~= before.delivered + before.pending + chunk);
            },
            ReadOp::Fill { chunk } => {
                assert(h.delivered + h.pending =~= before.delivered + before.pending + chunk);
            },
            ReadOp::Consume { amt } => {
                assert(h.delivered + h.pending =~= before.delivered + before.pending);
            },
        }
    }
}

/// Room for `n` bytes takes as many as there are, up to `n`, from the front;
/// the rest is left, and nothing in between is lost.
pub proof fn law_room_is_used(bytes: Seq<u8>, n: nat)
    ensures
        taken(bytes, n).len() <= n,
        taken(bytes, n) + left(bytes, n) == bytes,
        left(bytes, n).len() > 0 ==> taken(bytes, n).len() == n,
{
    assert(taken(bytes, n) + left(bytes, n) =~= bytes);
}

/// A read with bytes buffered is complete at once: it appends bytes from the
/// front of the buffer, as many as fit, and keeps the others in order. It
/// polls the channel only where no buffer is there and the peer has not ended
/// the stream, and then changes nothing yet.
pub proof fn law_read_drains_the_buffer(
    side: ReadSide,
    room: nat,
    out: Seq<u8>,
    after: ReadSide,
    out_after: Seq<u8>,
    step: ReadStep,
)
    requires
        read_started(side, room, out, after, out_after, step),
    ensures
        step == ReadStep::Recv <==> side.buf is None && !side.eof,
        step == ReadStep::Ready <==> side.buf is Some || side.eof,
        after.eof == side.eof,
        side.eof || side.buf is None ==> out_after == out && after == side,
        !side.eof ==> (side.buf matches Some(b) ==> {
            let k = out_after.len() - out.len();
            &&& 0 <= k <= room
            &&& k <= bytes_of(b).len()
            &&& k < bytes_of(b).len() ==> k == room
            &&& out_after == out + bytes_of(b).take(k)
            &&& match after.buf {
                Some(rest) => k < bytes_of(b).len() && bytes_of(rest) == bytes_of(b).skip(k),
                None => k == bytes_of(b).len(),
            }
        }),
{
    if !side.eof {
        if let Some(b) = side.buf {
            law_room_is_used(bytes_of(b), room);
            let k = out_after.len() - out.len();
            assert(out_after =~= out + bytes_of(b).take(k));
        }
    }
}

/// A chunk that a read polled for is handed out from the front, as much as
/// fits, and the others of its bytes are buffered in order. Without a chunk
/// nothing is handed out: the read waits, or the stream has ended, or its
/// connection is gone.
pub proof fn law_read_takes_up_the_chunk(
    room: nat,
    recv: RecvPoll,
    side: ReadSide,
    out: Seq<u8>,
    after: ReadSide,
    out_after: Seq<u8>,
    step: ReadStep,
)
    requires
        read_ended(room, recv, side, out, after, out_after, step),
    ensures
        !(recv is Chunk) ==> out_after == out,
        recv is Pending <==> step == ReadStep::Pending,
        recv is Broken <==> step == ReadStep::BrokenPipe,
        recv is Pending || recv is Broken ==> after == side,
        recv is Finished <==> after.eof && step == ReadStep::Ready,
        recv is Finished ==> after.buf is None,
        recv matches RecvPoll::Chunk(data) ==> {
            let k = out_after.len() - out.len();
            &&& step == ReadStep::Ready
            &&& 0 <= k <= room
            &&& k <= bytes_of(data).len()
            &&& k < bytes_of(data).len() ==> k == room
            &&& out_after == out + bytes_of(data).take(k)
            &&& match after.buf {
                Some(rest) => k < bytes_of(data).len() && bytes_of(rest) == bytes_of(data).skip(k),
                None => k == bytes_of(data).len(),
            }
        },
{
    if let RecvPoll::Chunk(data) = recv {
        law_room_is_used(bytes_of(data), room);
        let k = out_after.len() - out.len();
        assert(out_after =~= out + bytes_of(data).take(k));
    }
}

/// A fill offers bytes that are there, and all of them: what is buffered, or
/// else the whole of the next chunk that is not empty. It offers nothing only
/// once the peer has ended the stream, waits where nothing has come, and
/// fails where the connection is gone.
pub proof fn law_fill_offers_what_is_there(
    side: ReadSide,
    started: ReadSide,
    first: ReadStep,
    recv: RecvPoll,
    after: ReadSide,
    step: ReadStep,
)
    requires
        fill_started(side, started, first),
        fill_went_on(recv, started, after, step),
    ensures
        side.buf matches Some(b) ==> (bytes_of(b).len() > 0 ==> first == ReadStep::Ready && started
            == side),
        first == ReadStep::Recv <==> !side.eof && (side.buf matches Some(b) ==> bytes_of(b).len()
            == 0),
        first == ReadStep::Recv ==> started.buf is None && !started.eof,
        first == ReadStep::Recv || first == ReadStep::Ready,
        recv is Pending <==> step == ReadStep::Pending,
        recv is Broken <==> step == ReadStep::BrokenPipe,
        recv is Pending || recv is Broken ==> after == started,
        recv is Finished ==> step == ReadStep::Ready && after.eof && after.buf is None,
        recv matches RecvPoll::Chunk(data) ==> {
            &&& !after.eof
            &&& step == ReadStep::Recv <==> bytes_of(data).len() == 0
            &&& bytes_of(data).len() > 0 ==> step == ReadStep::Ready && after.buf == Some(data)
            &&& bytes_of(data).len() == 0 ==> after.buf is None
        },
{
}

/// What a read would have handed out is what a fill offers, and consuming it
/// leaves what the read would have left: the two ways to read agree.
pub proof fn law_fill_and_consume_read_the_same(
    side: ReadSide,
    room: nat,
    out: Seq<u8>,
    read: ReadSide,
    out_after: Seq<u8>,
    step: ReadStep,
)
    requires
        !side.eof,
        side.buf is Some,
        read_started(side, room, out, read, out_after, step),
    ensures
        read.pending() == left(side.pending(), room),
        out_after == out + side.pending().take(side.pending().len() - read.pending().len()),
{
    law_room_is_used(side.pending(), room);
    assert(out_after =~= out + side.pending().take(
        side.pending().len() - read.pending().len(),
    ));
}

} // verus!
