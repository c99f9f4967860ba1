//! The write side of a stream: DATA frames under per-stream flow control.
//!
//! A write is a sequence of small steps on things that live outside: the
//! channel to the writer task and the stream's send window. Each stage names
//! what to do next, and [`poll_write_via_sender`] turns its outcome into the
//! next stage. The order of the stages keeps the window exact: it is debited
//! only once a place in the channel is reserved.
//!
//! The session-level send window is not enforced on purpose. The peer never
//! sends a session-level WINDOW_UPDATE, so enforcing it would deadlock once
//! the initial window drains.
use super::commands::MuxCommand;
use crate::outside::buffer::bytes_of;
use bytes::Bytes;
use bytes::BytesMut;
use vstd::prelude::*;
use vstd::slice::slice_subrange;

verus! {

/// Length of the header of a DATA frame.
pub const DATA_HEADER_LEN: usize = 8;

/// Failure of a stream operation.
#[derive(Clone, Copy, Debug, PartialEq, Eq, Structural)]
pub enum StreamError {
    /// The stream or its connection is gone.
    BrokenPipe,
}

/// The error of every operation on a stream that is gone.
pub fn broken_pipe() -> (r: StreamError)
    ensures
        r == StreamError::BrokenPipe,
{
    StreamError::BrokenPipe
}

impl StreamError {
    /// What went wrong, in words.
    pub fn message(&self) -> (r: &'static str)
        ensures
            r@ == "mux closed"@,
    {
        match self {
            StreamError::BrokenPipe => "mux closed",
        }
    }
}

/// A 32-bit number in network byte order.
pub open spec fn be32(x: nat) -> Seq<u8> {
    seq![
        (x / 0x100_0000 % 256) as u8,
        (x / 0x1_0000 % 256) as u8,
        (x / 0x100 % 256) as u8,
        (x % 256) as u8,
    ]
}

/// The DATA frame that carries `payload` on a stream: the stream id in 31
/// bits, no flags, the payload's length in 24 bits, and the payload.
pub open spec fn data_frame(stream_id: u32, payload: Seq<u8>) -> Seq<u8> {
    be32(stream_id as nat % 0x8000_0000) + be32(payload.len() % 0x100_0000) + payload
}

/// A 32-bit number in network byte order.
fn to_be_bytes(x: u32) -> (r: [u8; 4])
    ensures
        r@ == be32(x as nat),
{
    let r = [
        (x / 0x100_0000 % 256) as u8,
        (x / 0x1_0000 % 256) as u8,
        (x / 0x100 % 256) as u8,
        (x % 256) as u8,
    ];
    assert(r@ =~= be32(x as nat));
    r
}

/// Builds a DATA frame in a single allocation.
pub fn encode_data_frame(stream_id: u32, payload: &[u8]) -> (r: Bytes)
    requires
        payload@.len() + 8 <= isize::MAX,
    ensures
        bytes_of(r) == data_frame(stream_id, payload@),
{
    let n = payload.len();
    let id = stream_id & 0x7FFF_FFFF;
    let flags_len = (n as u32) & 0x00FF_FFFF;
    assert(stream_id & 0x7FFF_FFFF == stream_id % 0x8000_0000) by (bit_vector);
    assert((n as u32) & 0x00FF_FFFF == n % 0x100_0000) by (bit_vector);
    let mut frame = BytesMut::with_capacity(DATA_HEADER_LEN + n);
    frame.extend_from_slice(to_be_bytes(id).as_slice());
    frame.extend_from_slice(to_be_bytes(flags_len).as_slice());
    frame.extend_from_slice(payload);
    frame.freeze()
}

/// The most payload bytes that one frame of at most `max_frame_size` bytes
/// can carry; a limit that leaves no room for a payload does not apply.
pub open spec fn max_payload(max_frame_size: u32, len: nat) -> nat {
    if max_frame_size > 8 {
        (max_frame_size - 8) as nat
    } else {
        len
    }
}

/// The number of bytes that one write of `len` bytes sends, with `available`
/// bytes left in the send window.
pub open spec fn write_size(len: nat, available: i64, max_frame_size: u32) -> nat {
    let window: nat = if available <= 0 {
        0
    } else {
        available as nat
    };
    let limit = if window <= max_payload(max_frame_size, len) {
        window
    } else {
        max_payload(max_frame_size, len)
    };
    if len <= limit {
        len
    } else {
        limit
    }
}

/// Clamps a write to the send window and to the frame size.
pub fn clamp_write(len: usize, available: i64, max_frame_size: u32) -> (n: usize)
    ensures
        n == write_size(len as nat, available, max_frame_size),
        n <= len,
        available <= 0 ==> n == 0,
        available > 0 ==> n <= available,
        max_frame_size > 8 ==> n + 8 <= max_frame_size,
        available > 0 && n < len ==> n == available || n + 8 == max_frame_size,
{
    let mut n: usize = len;
    if available <= 0 {
        n = 0;
    } else if (available as u64) < n as u64 {
        n = available as usize;
    }
    if max_frame_size > 8 {
        let limit: u32 = max_frame_size - 8;
        if (limit as u64) < n as u64 {
            n = limit as usize;
        }
    }
    n
}

/// Outcome of polling for a place in the channel to the writer task.
#[derive(Clone, Copy, Debug, PartialEq, Eq, Structural)]
pub enum ReservePoll {
    Pending,
    Ready,
    Closed,
}

/// What a write does next.
#[derive(Clone, Copy, Debug, PartialEq, Eq, Structural)]
pub enum WriteStage {
    /// Look whether the send window was poisoned.
    CheckClosed,
    /// Poll for a place in the channel.
    Reserve,
    /// Read the send window.
    ReadWindow,
    /// Register to be woken by the send window, then read it again.
    RegisterWaker,
    /// Debit the send window by `n` bytes.
    Debit { n: usize },
    /// Send the frame with the first `n` bytes.
    Send { n: usize },
    /// Not now: the caller is woken later.
    Pending,
    /// `n` bytes were written.
    Ready { n: usize },
    /// The stream is gone.
    BrokenPipe,
}

/// Outcome of what a stage asked for.
#[derive(Clone, Copy, Debug, PartialEq, Eq, Structural)]
pub enum WriteEvent {
    /// Whether the send window was poisoned.
    Closed(bool),
    /// Outcome of polling the channel.
    Reserve(ReservePoll),
    /// Bytes left in the send window.
    Window(i64),
    /// The send window, read after registering.
    Rechecked { closed: bool, available: i64 },
    /// Whether the debit went through.
    Debited(bool),
    /// Whether the writer task took the frame.
    Sent(bool),
}

/// The stage after `stage` when `event` comes. An event that answers another
/// stage changes nothing.
pub open spec fn write_next(
    stage: WriteStage,
    event: WriteEvent,
    len: nat,
    max_frame_size: u32,
) -> WriteStage {
    match (stage, event) {
        (WriteStage::CheckClosed, WriteEvent::Closed(closed)) => if closed {
            WriteStage::BrokenPipe
        } else {
            WriteStage::Reserve
        },
        (WriteStage::Reserve, WriteEvent::Reserve(poll)) => match poll {
            ReservePoll::Ready => WriteStage::ReadWindow,
            ReservePoll::Closed => WriteStage::BrokenPipe,
            ReservePoll::Pending => WriteStage::Pending,
        },
        (WriteStage::ReadWindow, WriteEvent::Window(available)) => {
            let n = write_size(len, available, max_frame_size);
            if n == 0 {
                WriteStage::RegisterWaker
            } else {
                WriteStage::Debit { n: n as usize }
            }
        },
        (WriteStage::RegisterWaker, WriteEvent::Rechecked { closed, available }) => {
            let n = write_size(len, available, max_frame_size);
            if closed {
                WriteStage::BrokenPipe
            } else if n == 0 {
                WriteStage::Pending
            } else {
                WriteStage::Debit { n: n as usize }
            }
        },
        (WriteStage::Debit { n }, WriteEvent::Debited(done)) => if done {
            WriteStage::Send { n }
        } else {
            WriteStage::BrokenPipe
        },
        (WriteStage::Send { n }, WriteEvent::Sent(done)) => if done {
            WriteStage::Ready { n }
        } else {
            WriteStage::BrokenPipe
        },
        (stage, _) => stage,
    }
}

/// Moves a write of `len` bytes on by one event.
pub fn poll_write_via_sender(
    stage: WriteStage,
    event: WriteEvent,
    len: usize,
    max_frame_size: u32,
) -> (next: WriteStage)
    ensures
        next == write_next(stage, event, len as nat, max_frame_size),
{
    match (stage, event) {
        (WriteStage::CheckClosed, WriteEvent::Closed(closed)) => if closed {
            WriteStage::BrokenPipe
        } else {
            WriteStage::Reserve
        },
        (WriteStage::Reserve, WriteEvent::Reserve(poll)) => match poll {
            ReservePoll::Ready => WriteStage::ReadWindow,
            ReservePoll::Closed => WriteStage::BrokenPipe,
            ReservePoll::Pending => WriteStage::Pending,
        },
        (WriteStage::ReadWindow, WriteEvent::Window(available)) => {
            let n = clamp_write(len, available, max_frame_size);
            if n == 0 {
                WriteStage::RegisterWaker
            } else {
                WriteStage::Debit { n }
            }
        },
        (WriteStage::RegisterWaker, WriteEvent::Rechecked { closed, available }) => {
            let n = clamp_write(len, available, max_frame_size);
            if closed {
                WriteStage::BrokenPipe
            } else if n == 0 {
                WriteStage::Pending
            } else {
                WriteStage::Debit { n }
            }
        },
        (WriteStage::Debit { n }, WriteEvent::Debited(done)) => if done {
            WriteStage::Send { n }
        } else {
            WriteStage::BrokenPipe
        },
        (WriteStage::Send { n }, WriteEvent::Sent(done)) => if done {
            WriteStage::Ready { n }
        } else {
            WriteStage::BrokenPipe
        },
        (stage, _) => stage,
    }
}

/// The command of the `Send` stage: a raw frame with the first `n` bytes of
/// `buf`.
pub fn write_command(stream_id: u32, buf: &[u8], n: usize) -> (r: MuxCommand)
    requires
        n <= buf@.len(),
        n + 8 <= isize::MAX,
    ensures
        r matches MuxCommand::SendRawFrame { frame } && bytes_of(frame) == data_frame(
            stream_id,
            buf@.take(n as int),
        ),
{
    let payload = slice_subrange(buf, 0, n);
    assert(payload@ =~= buf@.take(n as int));
    MuxCommand::SendRawFrame { frame: encode_data_frame(stream_id, payload) }
}

/// What a shutdown of the write side does next.
#[derive(Clone, Copy, Debug, PartialEq, Eq, Structural)]
pub enum ShutdownStage {
    /// Poll for a place in the channel.
    Reserve,
    /// Send the command of [`fin_command`].
    SendFin,
    /// Not now: the caller is woken later.
    Pending,
    /// The write side is shut down.
    Ready,
    /// The stream is gone.
    BrokenPipe,
}

/// Outcome of what a shutdown stage asked for.
#[derive(Clone, Copy, Debug, PartialEq, Eq, Structural)]
pub enum ShutdownEvent {
    /// Outcome of polling the channel.
    Reserve(ReservePoll),
    /// Whether the writer task took the command.
    Sent(bool),
}

/// Starts the shutdown of an open stream's write side. A write side that is
/// shut down already stays so.
pub fn poll_shutdown_opened(graceful_shutdown: bool) -> (stage: ShutdownStage)
    ensures
        stage == (if graceful_shutdown {
            ShutdownStage::Ready
        } else {
            ShutdownStage::Reserve
        }),
{
    if graceful_shutdown {
        ShutdownStage::Ready
    } else {
        ShutdownStage::Reserve
    }
}

/// The stage after `stage` when `event` comes. An event that answers another
/// stage changes nothing.
pub open spec fn shutdown_stage_after(stage: ShutdownStage, event: ShutdownEvent) -> ShutdownStage {
    match (stage, event) {
        (ShutdownStage::Reserve, ShutdownEvent::Reserve(poll)) => match poll {
            ReservePoll::Ready => ShutdownStage::SendFin,
            ReservePoll::Closed => ShutdownStage::BrokenPipe,
            ReservePoll::Pending => ShutdownStage::Pending,
        },
        (ShutdownStage::SendFin, ShutdownEvent::Sent(done)) => if done {
            ShutdownStage::Ready
        } else {
            ShutdownStage::BrokenPipe
        },
        (stage, _) => stage,
    }
}

/// Moves a shutdown on by one event. The flag is set once the final frame is
/// on its way, and only then.
pub fn shutdown_next(
    stage: ShutdownStage,
    event: ShutdownEvent,
    graceful_shutdown: &mut bool,
) -> (next: ShutdownStage)
    ensures
        next == shutdown_stage_after(stage, event),
        *final(graceful_shutdown) == (*old(graceful_shutdown) || (stage == ShutdownStage::SendFin
            && event == ShutdownEvent::Sent(true))),
{
    match (stage, event) {
        (ShutdownStage::Reserve, ShutdownEvent::Reserve(poll)) => match poll {
            ReservePoll::Ready => ShutdownStage::SendFin,
            ReservePoll::Closed => ShutdownStage::BrokenPipe,
            ReservePoll::Pending => ShutdownStage::Pending,
        },
        (ShutdownStage::SendFin, ShutdownEvent::Sent(done)) => if done {
            *graceful_shutdown = true;
            ShutdownStage::Ready
        } else {
            ShutdownStage::BrokenPipe
        },
        (stage, _) => stage,
    }
}

/// The command that half-closes a stream: an empty DATA frame with FIN.
pub fn fin_command(stream_id: u32) -> (r: MuxCommand)
    ensures
        r matches MuxCommand::SendData { stream_id: id, payload, fin } && id == stream_id
            && bytes_of(payload) == Seq::<u8>::empty() && fin,
{
    MuxCommand::SendData { stream_id, payload: Bytes::new(), fin: true }
}

/// A write in progress, with what it did so far.
pub struct WriteTrace {
    pub stage: WriteStage,
    /// A place in the channel is reserved.
    pub reserved: bool,
    /// Bytes debited from the send window.
    pub debited: nat,
    /// Payload bytes handed to the writer task.
    pub sent: nat,
}

impl WriteTrace {
    /// A write that has done nothing.
    pub open spec fn start() -> WriteTrace {
        WriteTrace { stage: WriteStage::CheckClosed, reserved: false, debited: 0, sent: 0 }
    }

    /// The write after one event.
    pub open spec fn after(self, event: WriteEvent, len: nat, max_frame_size: u32) -> WriteTrace {
        WriteTrace {
            stage: write_next(self.stage, event, len, max_frame_size),
            reserved: self.reserved || (self.stage == WriteStage::Reserve && event
                == WriteEvent::Reserve(ReservePoll::Ready)),
            debited: self.debited + match (self.stage, event) {
                (WriteStage::Debit { n }, WriteEvent::Debited(true)) => n as nat,
                _ => 0,
            },
            sent: self.sent + match (self.stage, event) {
                (WriteStage::Send { n }, WriteEvent::Sent(true)) => n as nat,
                _ => 0,
            },
        }
    }

    /// The write after a sequence of events.
    pub open spec fn after_all(
        self,
        events: Seq<WriteEvent>,
        len: nat,
        max_frame_size: u32,
    ) -> WriteTrace
        decreases events.len(),
    {
        if events.len() == 0 {
            self
        } else {
            self.after_all(events.drop_last(), len, max_frame_size).after(
                events.last(),
                len,
                max_frame_size,
            )
        }
    }
}

/// A write never debits the send window before a place in the channel is
/// reserved. When it has to wait, nothing was debited, so no window leaks.
/// When it succeeds with `n` bytes, exactly these were debited and sent; they
/// are at least one, at most the caller's, and fit into one frame.
pub proof fn law_write_keeps_window_exact(events: Seq<WriteEvent>, len: usize, max_frame_size: u32)
    ensures
        ({
            let t = WriteTrace::start().after_all(events, len as nat, max_frame_size);
            &&& t.debited > 0 ==> t.reserved
            &&& t.stage == WriteStage::Pending ==> t.debited == 0 && t.sent == 0
            &&& t.sent <= t.debited
            &&& t.stage matches WriteStage::Ready { n } ==> {
                &&& t.debited == n
                &&& t.sent == n
                &&& 0 < n <= len
                &&& n <= max_payload(max_frame_size, len as nat)
            }
        }),
    decreases events.len(),
{
    lemma_write_trace(events, len, max_frame_size);
}

/// What holds of a write at each stage.
proof fn lemma_write_trace(events: Seq<WriteEvent>, len: usize, max_frame_size: u32)
    ensures
        ({
            let t = WriteTrace::start().after_all(events, len as nat, max_frame_size);
            match t.stage {
                WriteStage::CheckClosed | WriteStage::Reserve => !t.reserved && t.debited == 0
                    && t.sent == 0,
                WriteStage::ReadWindow | WriteStage::RegisterWaker => t.reserved && t.debited == 0
                    && t.sent == 0,
                WriteStage::Pending => t.debited == 0 && t.sent == 0,
                WriteStage::Debit { n } => t.reserved && t.debited == 0 && t.sent == 0 && 0 < n
                    <= len && n <= max_payload(max_frame_size, len as nat),
                WriteStage::Send { n } => t.reserved && t.debited == n && t.sent == 0 && 0 < n
                    <= len && n <= max_payload(max_frame_size, len as nat),
                WriteStage::Ready { n } => t.reserved && t.debited == n && t.sent == n && 0 < n
                    <= len && n <= max_payload(max_frame_size, len as nat),
                WriteStage::BrokenPipe => (t.debited > 0 ==> t.reserved) && t.sent == 0,
            }
        }),
    decreases events.len(),
{
    if events.len() > 0 {
        lemma_write_trace(events.drop_last(), len, max_frame_size);
    }
}

/// A DATA frame announces itself: the control bit and the flags are clear, the
/// stream id and the length can be read back, and the payload follows.
pub proof fn law_data_frame_reads_back(stream_id: u32, payload: Seq<u8>)
    requires
        stream_id < 0x8000_0000,
        payload.len() < 0x100_0000,
    ensures
        ({
            let f = data_frame(stream_id, payload);
            &&& f.len() == 8 + payload.len()
            &&& f[0] < 128
            &&& f[0] * 0x100_0000 + f[1] * 0x1_0000 + f[2] * 0x100 + f[3] == stream_id
            &&& f[4] == 0
            &&& f[5] * 0x1_0000 + f[6] * 0x100 + f[7] == payload.len()
            &&& f.skip(8) == payload
        }),
{
    let f = data_frame(stream_id, payload);
    assert(f.skip(8) =~= payload);
    let id = stream_id as nat;
    assert(id == id / 0x100_0000 % 256 * 0x100_0000 + id / 0x1_0000 % 256 * 0x1_0000 + id / 0x100
        % 256 * 0x100 + id % 256);
}

/// One write sends as much as it may and no more: never more than the caller
/// has, than the send window has left, or than fits into a frame behind its
/// eight bytes of header; and one of the three is what stops it. With an
/// empty or overdrawn window it sends nothing, whatever the length.
pub proof fn law_write_fits_window_and_frame(len: nat, available: i64, max_frame_size: u32)
    ensures
        ({
            let n = write_size(len, available, max_frame_size);
            &&& n <= len
            &&& available <= 0 ==> n == 0
            &&& available > 0 ==> n <= available
            &&& max_frame_size > 8 ==> n + 8 <= max_frame_size
            &&& available > 0 && n < len ==> n == available || n + 8 == max_frame_size
            &&& available > 0 && len > 0 ==> n > 0
        }),
{
}

/// A larger window, a larger frame or a longer buffer never makes a write
/// shorter, and once a write takes the whole buffer, more room changes
/// nothing.
pub proof fn law_write_grows_with_room(
    len: nat,
    longer: nat,
    available: i64,
    more: i64,
    max_frame_size: u32,
    larger: u32,
)
    requires
        len <= longer,
        available <= more,
        8 < max_frame_size <= larger,
    ensures
        write_size(len, available, max_frame_size) <= write_size(longer, more, larger),
        write_size(len, available, max_frame_size) == len ==> write_size(len, more, larger) == len,
{
}

/// A window that was read decides how much is debited: a write goes on to a
/// debit exactly where the window has bytes left and there is something to
/// write, and the debit never exceeds the window, the buffer or the frame.
/// Otherwise it registers for a wake-up, and waits if nothing came meanwhile.
/// A window that was poisoned meanwhile fails the write.
pub proof fn law_debit_never_exceeds_the_window(
    available: i64,
    closed: bool,
    len: usize,
    max_frame_size: u32,
)
    ensures
        match write_next(
            WriteStage::ReadWindow,
            WriteEvent::Window(available),
            len as nat,
            max_frame_size,
        ) {
            WriteStage::Debit { n } => {
                &&& 0 < n <= available
                &&& n <= len
                &&& max_frame_size > 8 ==> n + 8 <= max_frame_size
                &&& n < len ==> n == available || n + 8 == max_frame_size
            },
            WriteStage::RegisterWaker => available <= 0 || len == 0,
            _ => false,
        },
        match write_next(
            WriteStage::RegisterWaker,
            WriteEvent::Rechecked { closed, available },
            len as nat,
            max_frame_size,
        ) {
            WriteStage::Debit { n } => {
                &&& !closed
                &&& 0 < n <= available
                &&& n <= len
                &&& max_frame_size > 8 ==> n + 8 <= max_frame_size
                &&& n < len ==> n == available || n + 8 == max_frame_size
            },
            WriteStage::Pending => !closed && (available <= 0 || len == 0),
            WriteStage::BrokenPipe => closed,
            _ => false,
        },
{
    law_write_fits_window_and_frame(len as nat, available, max_frame_size);
}

/// Whether one of the events told of a window of at least `n` bytes.
pub open spec fn window_seen(events: Seq<WriteEvent>, n: nat) -> bool {
    exists|i: int|
        0 <= i < events.len() && match #[trigger] events[i] {
            WriteEvent::Window(available) => n <= available,
            WriteEvent::Rechecked { closed, available } => !closed && n <= available,
            _ => false,
        }
}

/// However a write proceeds, it debits and sends no more than a window that
/// it read had left. It succeeds only after the stream was seen open, a place
/// in the channel was reserved, the debit went through and the writer task
/// took the frame.
pub proof fn law_write_needs_every_step(events: Seq<WriteEvent>, len: usize, max_frame_size: u32)
    ensures
        ({
            let t = WriteTrace::start().after_all(events, len as nat, max_frame_size);
            &&& t.debited > 0 ==> window_seen(events, t.debited)
            &&& !(t.stage is CheckClosed || t.stage is BrokenPipe) ==> events.contains(
                WriteEvent::Closed(false),
            )
            &&& t.reserved ==> events.contains(WriteEvent::Reserve(ReservePoll::Ready))
            &&& t.stage matches WriteStage::Debit { n } ==> window_seen(events, n as nat)
            &&& t.stage matches WriteStage::Send { n } ==> window_seen(events, n as nat)
                && events.contains(WriteEvent::Debited(true)) && t.debited == n
            &&& t.stage matches WriteStage::Ready { n } ==> window_seen(events, n as nat)
                && events.contains(WriteEvent::Debited(true)) && events.contains(
                WriteEvent::Sent(true),
            ) && t.debited == n && t.sent == n
        }),
    decreases events.len(),
{
    if events.len() > 0 {
        let front = events.drop_last();
        let last = events.last();
        law_write_needs_every_step(front, len, max_frame_size);
        lemma_write_trace(front, len, max_frame_size);
        assert(events[events.len() - 1] == last);
        assert forall|e: WriteEvent| front.contains(e) implies events.contains(e) by {
            let i = choose|i: int| 0 <= i < front.len() && front[i] == e;
            assert(events[i] == e);
        }
        assert forall|n: nat| window_seen(front, n) implies window_seen(events, n) by {
            let i = choose|i: int|
                0 <= i < front.len() && match #[trigger] front[i] {
                    WriteEvent::Window(available) => n <= available,
                    WriteEvent::Rechecked { closed, available } => !closed && n <= available,
                    _ => false,
                };
            assert(events[i] == front[i]);
        }
        match last {
            WriteEvent::Window(available) => {
                law_debit_never_exceeds_the_window(available, false, len, max_frame_size);
            },
            WriteEvent::Rechecked { closed, available } => {
                law_debit_never_exceeds_the_window(available, closed, len, max_frame_size);
            },
            _ => {},
        }
    }
}

/// A write with something to send and a window to send it in goes through,
/// step by step, when nothing is in its way. It reports as many bytes as were
/// debited; a caller that writes the rest then sends all.
pub proof fn law_write_goes_through(len: usize, available: i64, max_frame_size: u32)
    requires
        len > 0,
        available > 0,
    ensures
        ({
            let events = seq![
                WriteEvent::Closed(false),
                WriteEvent::Reserve(ReservePoll::Ready),
                WriteEvent::Window(available),
                WriteEvent::Debited(true),
                WriteEvent::Sent(true),
            ];
            let t = WriteTrace::start().after_all(events, len as nat, max_frame_size);
            t.stage matches WriteStage::Ready { n } && {
                &&& 0 < n <= len
                &&& t.debited == n
                &&& t.sent == n
                &&& n == len || n == available || n + 8 == max_frame_size
            }
        }),
{
    let events = seq![
        WriteEvent::Closed(false),
        WriteEvent::Reserve(ReservePoll::Ready),
        WriteEvent::Window(available),
        WriteEvent::Debited(true),
        WriteEvent::Sent(true),
    ];
    let e4 = events.drop_last();
    let e3 = e4.drop_last();
    let e2 = e3.drop_last();
    let e1 = e2.drop_last();
    let t0 = WriteTrace::start().after_all(e1.drop_last(), len as nat, max_frame_size);
    assert(t0 == WriteTrace::start());
    let t1 = WriteTrace::start().after_all(e1, len as nat, max_frame_size);
    assert(t1.stage == WriteStage::Reserve);
    let t2 = WriteTrace::start().after_all(e2, len as nat, max_frame_size);
    assert(t2.stage == WriteStage::ReadWindow);
    law_debit_never_exceeds_the_window(available, false, len, max_frame_size);
    let t3 = WriteTrace::start().after_all(e3, len as nat, max_frame_size);
    assert(t3.stage is Debit);
    let t4 = WriteTrace::start().after_all(e4, len as nat, max_frame_size);
    assert(t4.stage is Send);
}

/// A write whose stream turns out gone, at whatever step, fails: with a
/// poisoned window, a closed channel, a debit that does not go through, or a
/// frame that nobody takes. One that finds no place in the channel waits. An
/// end is final, and an answer to something that was not asked is ignored.
pub proof fn law_write_stops_where_it_must(
    stage: WriteStage,
    event: WriteEvent,
    len: nat,
    max_frame_size: u32,
)
    ensures
        ({
            let next = write_next(stage, event, len, max_frame_size);
            &&& stage is CheckClosed && event is Closed ==> next == (if event->Closed_0 {
                WriteStage::BrokenPipe
            } else {
                WriteStage::Reserve
            })
            &&& stage is Reserve && event is Reserve ==> match event->Reserve_0 {
                ReservePoll::Closed => next is BrokenPipe,
                ReservePoll::Pending => next is Pending,
                ReservePoll::Ready => next is ReadWindow,
            }
            &&& stage is Debit && event == WriteEvent::Debited(false) ==> next is BrokenPipe
            &&& stage is Send && event == WriteEvent::Sent(false) ==> next is BrokenPipe
            &&& stage matches WriteStage::Debit { n } ==> (event == WriteEvent::Debited(true) ==> next
                == (WriteStage::Send { n }))
            &&& stage matches WriteStage::Send { n } ==> (event == WriteEvent::Sent(true) ==> next
                == (WriteStage::Ready { n }))
            &&& stage is Pending || stage is Ready || stage is BrokenPipe ==> next == stage
            &&& next != stage ==> match stage {
                WriteStage::CheckClosed => event is Closed,
                WriteStage::Reserve => event is Reserve,
                WriteStage::ReadWindow => event is Window,
                WriteStage::RegisterWaker => event is Rechecked,
                WriteStage::Debit { .. } => event is Debited,
                WriteStage::Send { .. } => event is Sent,
                _ => false,
            }
        }),
{
}

/// A shutdown is complete exactly once the writer task took the final frame,
/// for which a place in the channel was reserved first. It fails where the
/// channel is closed or the frame is not taken, and waits where the channel
/// is full.
pub proof fn law_shutdown_needs_the_final_frame(stage: ShutdownStage, event: ShutdownEvent)
    ensures
        ({
            let next = shutdown_stage_after(stage, event);
            &&& next is SendFin && !(stage is SendFin) <==> stage is Reserve && event
                == ShutdownEvent::Reserve(ReservePoll::Ready)
            &&& next is Ready && !(stage is Ready) <==> stage is SendFin && event
                == ShutdownEvent::Sent(true)
            &&& next is Pending && !(stage is Pending) <==> stage is Reserve && event
                == ShutdownEvent::Reserve(ReservePoll::Pending)
            &&& next is BrokenPipe && !(stage is BrokenPipe) <==> (stage is Reserve && event
                == ShutdownEvent::Reserve(ReservePoll::Closed)) || (stage is SendFin && event
                == ShutdownEvent::Sent(false))
            &&& next is Reserve ==> stage is Reserve && event is Sent
        }),
{
}

/// Every DATA frame reads back, whatever the stream id and the payload: the
/// control bit and the flags are clear, the low 31 bits of the id and the low
/// 24 bits of the length stand in network byte order, and the payload follows
/// unchanged. So frames on different streams, or with different payloads,
/// differ.
pub proof fn law_data_frame_is_plain(
    stream_id: u32,
    payload: Seq<u8>,
    other_id: u32,
    other_payload: Seq<u8>,
)
    ensures
        ({
            let f = data_frame(stream_id, payload);
            &&& f.len() == 8 + payload.len()
            &&& f[0] < 128
            &&& f[0] * 0x100_0000 + f[1] * 0x1_0000 + f[2] * 0x100 + f[3] == stream_id as int
                % 0x8000_0000
            &&& f[4] == 0
            &&& f[5] * 0x1_0000 + f[6] * 0x100 + f[7] == payload.len() % 0x100_0000
            &&& f.skip(8) == payload
        }),
        data_frame(stream_id, payload) == data_frame(other_id, other_payload) ==> payload
            == other_payload && stream_id as int % 0x8000_0000 == other_id as int % 0x8000_0000,
{
    let f = data_frame(stream_id, payload);
    let g = data_frame(other_id, other_payload);
    let id = be32(stream_id as nat % 0x8000_0000);
    let size = be32(payload.len() % 0x100_0000);
    let other = be32(other_id as nat % 0x8000_0000);
    lemma_be32_reads_back(stream_id as nat % 0x8000_0000);
    lemma_be32_reads_back(payload.len() % 0x100_0000);
    lemma_be32_reads_back(other_id as nat % 0x8000_0000);
    assert(f.skip(8) =~= payload);
    assert(g.skip(8) =~= other_payload);
    assert(f[0] == id[0] && f[1] == id[1] && f[2] == id[2] && f[3] == id[3]);
    assert(f[4] == size[0] && f[5] == size[1] && f[6] == size[2] && f[7] == size[3]);
    assert(g[0] == other[0] && g[1] == other[1] && g[2] == other[2] && g[3] == other[3]);
}

/// A number of at most 32 bits reads back from its four bytes.
proof fn lemma_be32_reads_back(x: nat)
    requires
        x < 0x1_0000_0000,
    ensures
        be32(x).len() == 4,
        be32(x)[0] * 0x100_0000 + be32(x)[1] * 0x1_0000 + be32(x)[2] * 0x100 + be32(x)[3] == x,
        x < 0x8000_0000 ==> be32(x)[0] < 128,
        x < 0x100_0000 ==> be32(x)[0] == 0,
{
    assert(x == x / 0x100_0000 % 256 * 0x100_0000 + x / 0x1_0000 % 256 * 0x1_0000 + x / 0x100 % 256
        * 0x100 + x % 256);
}

} // verus!
