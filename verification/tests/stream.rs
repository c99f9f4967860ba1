use bytes::Bytes;
use kube_portforward::error::MuxError;
use kube_portforward::spdy::commands::{MuxCommand, StreamRegistration};
use kube_portforward::spdy::open::{
    DropActions, OpenStep, OpenedStreamParts, PairReleaseGuard, RealizeRequest, SharedSplitState,
    RST_STATUS_CANCEL,
};
use kube_portforward::spdy::read::RecvPoll;
use kube_portforward::spdy::stream::{DataStream, ErrorStream, ReadAction, Stream, WriteAction};
use kube_portforward::spdy::write::{
    ReservePoll, ShutdownEvent, ShutdownStage, StreamError, WriteEvent, WriteStage,
};
use std::collections::VecDeque;

const TEST_MAX_FRAME: u32 = 1024 * 1024;
const ERROR_ID: u32 = 1;
const DATA_ID: u32 = 3;

type Headers = Vec<(String, String)>;

/// The far end of a connection: what it was asked to open, what it received,
/// and what it has to say.
struct Peer {
    opens: Vec<(Headers, Headers)>,
    refuses: bool,
    received: Vec<(u32, Vec<u8>, bool)>,
    data_out: VecDeque<Vec<u8>>,
    data_ended: bool,
    broken: bool,
    error_out: VecDeque<Vec<u8>>,
    window: i64,
    window_closed: bool,
    reserve: ReservePoll,
    active_pairs: usize,
}

impl Peer {
    fn new() -> Peer {
        Peer {
            opens: Vec::new(),
            refuses: false,
            received: Vec::new(),
            data_out: VecDeque::new(),
            data_ended: false,
            broken: false,
            error_out: VecDeque::new(),
            window: 1024 * 1024,
            window_closed: false,
            reserve: ReservePoll::Ready,
            active_pairs: 1,
        }
    }

    fn stream(&self) -> Stream {
        Stream::new_unopened(Vec::new(), Vec::new(), TEST_MAX_FRAME)
    }

    fn realize(&mut self, request: RealizeRequest) -> Result<OpenedStreamParts, MuxError> {
        self.opens.push((request.error_headers, request.data_headers));
        if self.refuses {
            Err(MuxError::MuxClosed)
        } else {
            Ok(OpenedStreamParts { data_id: DATA_ID, error_id: ERROR_ID })
        }
    }

    fn recv_data(&mut self) -> RecvPoll {
        match self.data_out.pop_front() {
            Some(chunk) => RecvPoll::Chunk(Bytes::from(chunk)),
            None if self.data_ended => RecvPoll::Finished,
            None if self.broken => RecvPoll::Broken,
            None => RecvPoll::Pending,
        }
    }

    fn recv_error(&mut self) -> RecvPoll {
        match self.error_out.pop_front() {
            Some(chunk) => RecvPoll::Chunk(Bytes::from(chunk)),
            None if self.broken => RecvPoll::Broken,
            None => RecvPoll::Pending,
        }
    }

    /// Loses the connection without a word from the other side.
    fn lose(&mut self) {
        self.broken = true;
        self.refuses = true;
        self.window_closed = true;
        self.reserve = ReservePoll::Closed;
    }

    fn take(&mut self, command: MuxCommand) -> bool {
        match command {
            MuxCommand::SendRawFrame { frame } => {
                let id = u32::from_be_bytes([frame[0], frame[1], frame[2], frame[3]]);
                let len = u32::from_be_bytes([0, frame[5], frame[6], frame[7]]) as usize;
                assert_eq!(frame[4], 0);
                assert_eq!(frame.len(), 8 + len);
                self.received.push((id, frame[8..].to_vec(), false));
            }
            MuxCommand::SendData { stream_id, payload, fin } => {
                self.received.push((stream_id, payload.to_vec(), fin));
            }
            _ => panic!("unexpected command"),
        }
        true
    }

    fn drop_stream(&mut self, actions: DropActions) -> Option<(u32, u32)> {
        if actions.release_pair {
            self.active_pairs -= 1;
        }
        match actions.reset {
            Some(MuxCommand::CloseStream { stream_id, status }) => Some((stream_id, status)),
            Some(_) => panic!("unexpected command"),
            None => None,
        }
    }
}

#[derive(Debug, PartialEq)]
enum Read {
    Pending,
    Got(Vec<u8>),
    BrokenPipe,
}

/// The two shapes of a stream's data side.
trait DataSide {
    fn read(&mut self, peer: &mut Peer, room: usize) -> Read;
    fn fill(&mut self, peer: &mut Peer) -> Read;
    fn begin_write(&mut self, len: usize) -> WriteAction;
    fn realized(&mut self, outcome: Result<OpenedStreamParts, MuxError>) -> WriteStage;
    fn event(&mut self, stage: WriteStage, event: WriteEvent, len: usize) -> WriteStage;
    fn command(&self, buf: &[u8], n: usize) -> MuxCommand;
    fn begin_shutdown(&self) -> ShutdownStage;
    fn shutdown_event(&mut self, stage: ShutdownStage, event: ShutdownEvent) -> ShutdownStage;
    fn fin(&self) -> MuxCommand;

    fn write(&mut self, peer: &mut Peer, buf: &[u8]) -> Result<Option<usize>, StreamError> {
        let mut stage = match self.begin_write(buf.len()) {
            WriteAction::Realize(request) => {
                let outcome = peer.realize(request);
                self.realized(outcome)
            }
            WriteAction::Stage(stage) => stage,
        };
        loop {
            let event = match stage {
                WriteStage::CheckClosed => WriteEvent::Closed(peer.window_closed),
                WriteStage::Reserve => WriteEvent::Reserve(peer.reserve),
                WriteStage::ReadWindow => WriteEvent::Window(peer.window),
                WriteStage::RegisterWaker => WriteEvent::Rechecked {
                    closed: peer.window_closed,
                    available: peer.window,
                },
                WriteStage::Debit { n } => {
                    peer.window -= n as i64;
                    WriteEvent::Debited(true)
                }
                WriteStage::Send { n } => WriteEvent::Sent(peer.take(self.command(buf, n))),
                WriteStage::Pending => return Ok(None),
                WriteStage::Ready { n } => return Ok(Some(n)),
                WriteStage::BrokenPipe => return Err(StreamError::BrokenPipe),
            };
            stage = self.event(stage, event, buf.len());
        }
    }

    fn write_all(&mut self, peer: &mut Peer, buf: &[u8]) {
        let mut done = 0;
        while done < buf.len() {
            done += self.write(peer, &buf[done..]).expect("write failed").expect("write waits");
        }
    }

    fn shutdown(&mut self, peer: &mut Peer) -> Result<(), StreamError> {
        let mut stage = self.begin_shutdown();
        loop {
            let event = match stage {
                ShutdownStage::Reserve => ShutdownEvent::Reserve(peer.reserve),
                ShutdownStage::SendFin => ShutdownEvent::Sent(peer.take(self.fin())),
                ShutdownStage::Pending => panic!("shutdown waits"),
                ShutdownStage::Ready => return Ok(()),
                ShutdownStage::BrokenPipe => return Err(StreamError::BrokenPipe),
            };
            stage = self.shutdown_event(stage, event);
        }
    }

    fn read_to_end(&mut self, peer: &mut Peer) -> Vec<u8> {
        let mut all = Vec::new();
        loop {
            match self.read(peer, 7) {
                Read::Got(bytes) if bytes.is_empty() => return all,
                Read::Got(bytes) => all.extend_from_slice(&bytes),
                other => panic!("unexpected read: {:?}", other),
            }
        }
    }
}

impl DataSide for Stream {
    fn read(&mut self, peer: &mut Peer, room: usize) -> Read {
        let mut out = Vec::new();
        let mut action = self.poll_read(room, &mut out);
        loop {
            action = match action {
                ReadAction::Realize(request) => {
                    let outcome = peer.realize(request);
                    self.read_realized(outcome, room, &mut out)
                }
                ReadAction::Recv => self.read_received(peer.recv_data(), room, &mut out),
                ReadAction::Pending => return Read::Pending,
                ReadAction::Ready => return Read::Got(out),
                ReadAction::BrokenPipe => return Read::BrokenPipe,
            };
        }
    }

    fn fill(&mut self, peer: &mut Peer) -> Read {
        let mut action = self.poll_fill_buf();
        loop {
            action = match action {
                ReadAction::Realize(request) => {
                    let outcome = peer.realize(request);
                    self.fill_realized(outcome)
                }
                ReadAction::Recv => self.fill_received(peer.recv_data()),
                ReadAction::Pending => return Read::Pending,
                ReadAction::Ready => return Read::Got(self.data.filled().to_vec()),
                ReadAction::BrokenPipe => return Read::BrokenPipe,
            };
        }
    }

    fn begin_write(&mut self, len: usize) -> WriteAction {
        self.poll_write(len)
    }

    fn realized(&mut self, outcome: Result<OpenedStreamParts, MuxError>) -> WriteStage {
        self.write_realized(outcome)
    }

    fn event(&mut self, stage: WriteStage, event: WriteEvent, len: usize) -> WriteStage {
        self.write_event(stage, event, len)
    }

    fn command(&self, buf: &[u8], n: usize) -> MuxCommand {
        self.write_command(buf, n).expect("open")
    }

    fn begin_shutdown(&self) -> ShutdownStage {
        self.poll_shutdown()
    }

    fn shutdown_event(&mut self, stage: ShutdownStage, event: ShutdownEvent) -> ShutdownStage {
        Stream::shutdown_event(self, stage, event)
    }

    fn fin(&self) -> MuxCommand {
        self.fin_command().expect("open")
    }
}

struct Split {
    data: DataStream,
    error: ErrorStream,
    shared: SharedSplitState,
}

impl Split {
    fn of(stream: Stream) -> Split {
        let (data, error, shared) = stream.split();
        Split { data, error, shared }
    }

    fn read_error(&mut self, peer: &mut Peer, room: usize) -> Read {
        let mut out = Vec::new();
        let mut action = self.error.poll_read(&mut self.shared, room, &mut out);
        loop {
            action = match action {
                ReadAction::Realize(request) => {
                    let outcome = peer.realize(request);
                    self.error.read_realized(&mut self.shared, outcome, room, &mut out)
                }
                ReadAction::Recv => self.error.read_received(peer.recv_error(), room, &mut out),
                ReadAction::Pending => return Read::Pending,
                ReadAction::Ready => return Read::Got(out),
                ReadAction::BrokenPipe => return Read::BrokenPipe,
            };
        }
    }
}

impl DataSide for Split {
    fn read(&mut self, peer: &mut Peer, room: usize) -> Read {
        let mut out = Vec::new();
        let mut action = self.data.poll_read(&mut self.shared, room, &mut out);
        loop {
            action = match action {
                ReadAction::Realize(request) => {
                    let outcome = peer.realize(request);
                    self.data.read_realized(&mut self.shared, outcome, room, &mut out)
                }
                ReadAction::Recv => self.data.read_received(peer.recv_data(), room, &mut out),
                ReadAction::Pending => return Read::Pending,
                ReadAction::Ready => return Read::Got(out),
                ReadAction::BrokenPipe => return Read::BrokenPipe,
            };
        }
    }

    fn fill(&mut self, peer: &mut Peer) -> Read {
        let mut action = self.data.poll_fill_buf(&mut self.shared);
        loop {
            action = match action {
                ReadAction::Realize(request) => {
                    let outcome = peer.realize(request);
                    self.data.fill_realized(&mut self.shared, outcome)
                }
                ReadAction::Recv => self.data.fill_received(peer.recv_data()),
                ReadAction::Pending => return Read::Pending,
                ReadAction::Ready => return Read::Got(self.data.data.filled().to_vec()),
                ReadAction::BrokenPipe => return Read::BrokenPipe,
            };
        }
    }

    fn begin_write(&mut self, len: usize) -> WriteAction {
        self.data.poll_write(&mut self.shared, len)
    }

    fn realized(&mut self, outcome: Result<OpenedStreamParts, MuxError>) -> WriteStage {
        self.data.write_realized(&mut self.shared, outcome)
    }

    fn event(&mut self, stage: WriteStage, event: WriteEvent, len: usize) -> WriteStage {
        self.data.write_event(stage, event, len)
    }

    fn command(&self, buf: &[u8], n: usize) -> MuxCommand {
        self.data.write_command(&self.shared, buf, n).expect("open")
    }

    fn begin_shutdown(&self) -> ShutdownStage {
        self.data.poll_shutdown(&self.shared)
    }

    fn shutdown_event(&mut self, stage: ShutdownStage, event: ShutdownEvent) -> ShutdownStage {
        self.data.shutdown_event(&mut self.shared, stage, event)
    }

    fn fin(&self) -> MuxCommand {
        self.data.fin_command(&self.shared).expect("open")
    }
}

#[test]
fn server_first_read_wakes_unsplit_stream_without_client_write() {
    let mut peer = Peer::new();
    let mut stream = peer.stream();
    assert_eq!(stream.read(&mut peer, 16), Read::Pending);
    assert_eq!(peer.opens.len(), 1);
    peer.data_out.push_back(b"hello".to_vec());
    assert_eq!(stream.read(&mut peer, 16), Read::Got(b"hello".to_vec()));
    assert_eq!(peer.opens.len(), 1);
}

#[test]
fn server_first_fill_buf_wakes_unsplit_stream_without_client_write() {
    let mut peer = Peer::new();
    let mut stream = peer.stream();
    assert_eq!(stream.fill(&mut peer), Read::Pending);
    assert_eq!(peer.opens.len(), 1);
    peer.data_out.push_back(b"greeting".to_vec());
    assert_eq!(stream.fill(&mut peer), Read::Got(b"greeting".to_vec()));
    stream.consume(8);
    assert_eq!(stream.fill(&mut peer), Read::Pending);
}

#[test]
fn server_first_read_wakes_split_data_stream() {
    let mut peer = Peer::new();
    let mut split = Split::of(peer.stream());
    assert!(peer.opens.is_empty());
    assert_eq!(split.read(&mut peer, 16), Read::Pending);
    assert_eq!(peer.opens.len(), 1);
    peer.data_out.push_back(b"pod-out".to_vec());
    assert_eq!(split.read(&mut peer, 16), Read::Got(b"pod-out".to_vec()));
}

#[test]
fn server_first_read_wakes_split_error_stream() {
    let mut peer = Peer::new();
    let mut split = Split::of(peer.stream());
    assert_eq!(split.read_error(&mut peer, 16), Read::Pending);
    assert_eq!(peer.opens.len(), 1);
    peer.error_out.push_back(b"pod not found".to_vec());
    assert_eq!(split.read_error(&mut peer, 16), Read::Got(b"pod not found".to_vec()));
}

#[test]
fn concurrent_read_and_write_open_the_stream_exactly_once() {
    let mut peer = Peer::new();
    let mut split = Split::of(peer.stream());
    assert_eq!(split.read_error(&mut peer, 8), Read::Pending);
    split.write_all(&mut peer, b"race-safe-payload");
    assert_eq!(peer.opens.len(), 1);
    assert_eq!(peer.received, vec![(DATA_ID, b"race-safe-payload".to_vec(), false)]);
    peer.error_out.push_back(b"ack".to_vec());
    assert_eq!(split.read_error(&mut peer, 8), Read::Got(b"ack".to_vec()));
}

#[test]
fn unused_unopened_stream_never_opens_and_releases_capacity() {
    let mut peer = Peer::new();
    let stream = peer.stream();
    assert_eq!(peer.active_pairs, 1);
    let actions = stream.on_drop();
    assert!(actions.notices.is_empty());
    assert_eq!(peer.drop_stream(actions), None);
    assert_eq!(peer.active_pairs, 0);
    assert!(peer.opens.is_empty());
}

#[test]
fn dropped_stream_after_read_triggered_open_sends_rst() {
    let mut peer = Peer::new();
    let mut stream = peer.stream();
    assert_eq!(stream.read(&mut peer, 4), Read::Pending);
    let actions = stream.on_drop();
    assert_eq!(
        actions.notices,
        vec![
            StreamRegistration::Close { stream_id: ERROR_ID },
            StreamRegistration::Close { stream_id: DATA_ID },
        ]
    );
    assert_eq!(peer.drop_stream(actions), Some((DATA_ID, RST_STATUS_CANCEL)));
    assert_eq!(peer.active_pairs, 0);
}

#[test]
fn first_write_after_lazy_open_is_bounded_by_frame_size() {
    let mut peer = Peer::new();
    let mut stream = Stream::new_unopened(Vec::new(), Vec::new(), 16);
    let n = stream.write(&mut peer, b"0123456789ABCDEFGHIJ").expect("write failed");
    assert_eq!(n, Some(8));
    assert_eq!(peer.received, vec![(DATA_ID, b"01234567".to_vec(), false)]);
}

#[test]
fn tokio_io_split_write_then_read_open_stream_exactly_once() {
    let mut peer = Peer::new();
    let mut stream = peer.stream();
    stream.write_all(&mut peer, b"via-tokio-split-write-first");
    assert_eq!(stream.read(&mut peer, 8), Read::Pending);
    assert_eq!(peer.opens.len(), 1);
    assert_eq!(peer.received, vec![(DATA_ID, b"via-tokio-split-write-first".to_vec(), false)]);
    peer.data_out.push_back(b"greeting".to_vec());
    assert_eq!(stream.read(&mut peer, 8), Read::Got(b"greeting".to_vec()));
}

#[test]
fn tokio_io_split_read_then_write_open_stream_exactly_once() {
    let mut peer = Peer::new();
    let mut stream = peer.stream();
    assert_eq!(stream.read(&mut peer, 8), Read::Pending);
    peer.data_out.push_back(b"greeting".to_vec());
    stream.write_all(&mut peer, b"via-tokio-split-read-first");
    assert_eq!(stream.read(&mut peer, 8), Read::Got(b"greeting".to_vec()));
    assert_eq!(peer.opens.len(), 1);
    assert_eq!(peer.received, vec![(DATA_ID, b"via-tokio-split-read-first".to_vec(), false)]);
}

#[test]
fn write_then_read_open_split_stream_exactly_once() {
    let mut peer = Peer::new();
    let mut split = Split::of(peer.stream());
    split.write_all(&mut peer, b"write-branch-first");
    assert_eq!(split.read_error(&mut peer, 8), Read::Pending);
    assert_eq!(peer.opens.len(), 1);
    assert_eq!(peer.received, vec![(DATA_ID, b"write-branch-first".to_vec(), false)]);
    peer.error_out.push_back(b"ack".to_vec());
    assert_eq!(split.read_error(&mut peer, 8), Read::Got(b"ack".to_vec()));
}

#[test]
fn three_way_race_does_not_lose_a_wake() {
    let mut peer = Peer::new();
    let mut split = Split::of(peer.stream());
    split.write_all(&mut peer, b"three-way-race");
    assert_eq!(split.read(&mut peer, 8), Read::Pending);
    assert_eq!(split.read_error(&mut peer, 8), Read::Pending);
    assert_eq!(peer.opens.len(), 1);
    assert_eq!(peer.received, vec![(DATA_ID, b"three-way-race".to_vec(), false)]);
    peer.data_out.push_back(b"pod-out".to_vec());
    peer.error_out.push_back(b"pod-err".to_vec());
    assert_eq!(split.read(&mut peer, 8), Read::Got(b"pod-out".to_vec()));
    assert_eq!(split.read_error(&mut peer, 8), Read::Got(b"pod-err".to_vec()));
}

#[test]
fn zero_length_read_does_not_open_unsplit_stream() {
    let mut peer = Peer::new();
    let mut stream = peer.stream();
    assert_eq!(stream.read(&mut peer, 0), Read::Got(Vec::new()));
    assert!(peer.opens.is_empty());
    assert_eq!(peer.active_pairs, 1);
}

#[test]
fn zero_length_read_does_not_open_split_data_stream() {
    let mut peer = Peer::new();
    let mut split = Split::of(peer.stream());
    assert_eq!(split.read(&mut peer, 0), Read::Got(Vec::new()));
    assert!(peer.opens.is_empty());
    assert_eq!(peer.active_pairs, 1);
}

fn exercise_write_shutdown(side: &mut dyn DataSide, peer: &mut Peer) {
    let request = b"request-before-fin".repeat(128);
    let reply = b"response-after-fin".repeat(128);
    side.write_all(peer, &request);
    assert_eq!(side.shutdown(peer), Ok(()));
    assert_eq!(side.shutdown(peer), Ok(()));
    assert_eq!(side.write(peer, b"not-sent"), Err(StreamError::BrokenPipe));
    assert_eq!(peer.opens.len(), 1);
    assert_eq!(peer.received, vec![(DATA_ID, request, false), (DATA_ID, Vec::new(), true)]);
    peer.data_out.push_back(reply.clone());
    peer.data_ended = true;
    assert_eq!(side.read_to_end(peer), reply);
}

#[test]
fn write_shutdown_preserves_unsplit_response_reads() {
    let mut peer = Peer::new();
    let mut stream = peer.stream();
    exercise_write_shutdown(&mut stream, &mut peer);
    assert_eq!(peer.drop_stream(stream.on_drop()), None);
    assert_eq!(peer.active_pairs, 0);
}

#[test]
fn write_shutdown_preserves_split_response_reads() {
    let mut peer = Peer::new();
    let mut split = Split::of(peer.stream());
    exercise_write_shutdown(&mut split, &mut peer);
}

#[test]
fn failed_open_breaks_the_stream_for_good() {
    let mut peer = Peer::new();
    peer.refuses = true;
    let mut stream = peer.stream();
    assert_eq!(stream.read(&mut peer, 4), Read::BrokenPipe);
    assert_eq!(stream.write(&mut peer, b"x"), Err(StreamError::BrokenPipe));
    assert_eq!(stream.fill(&mut peer), Read::BrokenPipe);
    assert_eq!(peer.opens.len(), 1);
    assert_eq!(stream.shutdown(&mut peer), Ok(()));
    assert_eq!(peer.drop_stream(stream.on_drop()), None);
    assert_eq!(peer.active_pairs, 0);
}

#[test]
fn empty_write_does_not_open() {
    let mut peer = Peer::new();
    let mut stream = peer.stream();
    assert_eq!(stream.write(&mut peer, b""), Ok(Some(0)));
    assert!(peer.opens.is_empty());
    assert!(stream.poll_flush().is_ok());
    assert!(stream.fin_command().is_none());
    assert!(stream.write_command(b"abc", 2).is_none());
}

#[test]
fn headers_go_out_with_the_open() {
    let mut peer = Peer::new();
    let error_headers = vec![("streamtype".to_string(), "error".to_string())];
    let data_headers = vec![("streamtype".to_string(), "data".to_string())];
    let mut stream = Stream::new_unopened(error_headers.clone(), data_headers.clone(), 64);
    match stream.ensure_open() {
        OpenStep::Realize(request) => {
            let outcome = peer.realize(request);
            stream.finish_unopened_stream(outcome.expect("opened"));
        }
        _ => panic!("expected an open"),
    }
    assert_eq!(peer.opens, vec![(error_headers, data_headers)]);
    assert!(matches!(stream.ensure_open(), OpenStep::Open));
}

#[test]
fn chunks_are_read_in_pieces_and_in_order() {
    let mut peer = Peer::new();
    let mut stream = peer.stream();
    peer.data_out.push_back(b"abcdef".to_vec());
    peer.data_out.push_back(b"gh".to_vec());
    assert_eq!(stream.read(&mut peer, 4), Read::Got(b"abcd".to_vec()));
    assert_eq!(stream.fill(&mut peer), Read::Got(b"ef".to_vec()));
    stream.consume(1);
    assert_eq!(stream.read(&mut peer, 4), Read::Got(b"f".to_vec()));
    assert_eq!(stream.read(&mut peer, 4), Read::Got(b"gh".to_vec()));
    assert_eq!(stream.read(&mut peer, 4), Read::Pending);
    peer.data_ended = true;
    assert!(!stream.is_read_closed(false));
    assert!(stream.is_read_closed(true));
    assert_eq!(stream.read(&mut peer, 4), Read::Got(Vec::new()));
    assert!(stream.is_read_closed(false));
    assert_eq!(stream.fill(&mut peer), Read::Got(Vec::new()));
}

#[test]
fn fill_skips_empty_chunks_and_consume_stops_at_the_end() {
    let mut peer = Peer::new();
    let mut split = Split::of(peer.stream());
    peer.data_out.push_back(Vec::new());
    peer.data_out.push_back(b"xy".to_vec());
    assert_eq!(split.fill(&mut peer), Read::Got(b"xy".to_vec()));
    split.data.consume(9);
    assert_eq!(split.fill(&mut peer), Read::Pending);
}

#[test]
fn write_waits_without_touching_the_window() {
    let mut peer = Peer::new();
    let mut stream = peer.stream();
    peer.reserve = ReservePoll::Pending;
    assert_eq!(stream.write(&mut peer, b"data"), Ok(None));
    assert_eq!(peer.window, 1024 * 1024);
    peer.reserve = ReservePoll::Ready;
    peer.window = 0;
    assert_eq!(stream.write(&mut peer, b"data"), Ok(None));
    peer.window = 3;
    assert_eq!(stream.write(&mut peer, b"data"), Ok(Some(3)));
    assert_eq!(peer.window, 0);
    peer.window_closed = true;
    assert_eq!(stream.write(&mut peer, b"data"), Err(StreamError::BrokenPipe));
    peer.window_closed = false;
    peer.reserve = ReservePoll::Closed;
    assert_eq!(stream.write(&mut peer, b"data"), Err(StreamError::BrokenPipe));
    assert_eq!(stream.shutdown(&mut peer), Err(StreamError::BrokenPipe));
    assert_eq!(StreamError::BrokenPipe.message(), "mux closed");
}

#[test]
fn release_guard_releases_only_while_armed() {
    assert!(PairReleaseGuard::new().on_drop());
    let mut guard = PairReleaseGuard::new();
    guard.disarm();
    assert!(!guard.on_drop());
}

#[test]
fn a_lost_connection_is_a_broken_pipe() {
    let mut peer = Peer::new();
    let mut stream = peer.stream();
    let mut unopened = peer.stream();
    let mut split = Split::of(peer.stream());
    peer.data_out.push_back(b"abcd".to_vec());
    assert_eq!(stream.read(&mut peer, 3), Read::Got(b"abc".to_vec()));
    assert_eq!(split.read(&mut peer, 3), Read::Pending);
    peer.lose();
    // what was received is still handed out
    assert_eq!(stream.read(&mut peer, 3), Read::Got(b"d".to_vec()));
    for _ in 0..2 {
        assert_eq!(stream.read(&mut peer, 3), Read::BrokenPipe);
        assert_eq!(stream.fill(&mut peer), Read::BrokenPipe);
        assert_eq!(split.read(&mut peer, 3), Read::BrokenPipe);
        assert_eq!(split.fill(&mut peer), Read::BrokenPipe);
        assert_eq!(split.read_error(&mut peer, 3), Read::BrokenPipe);
        assert_eq!(stream.write(&mut peer, b"x"), Err(StreamError::BrokenPipe));
        assert_eq!(unopened.read(&mut peer, 3), Read::BrokenPipe);
    }
    assert_eq!(stream.shutdown(&mut peer), Err(StreamError::BrokenPipe));
    assert!(!stream.data.eof);
    // a stream that the peer ended before stays ended
    let mut peer = Peer::new();
    let mut stream = peer.stream();
    peer.data_ended = true;
    assert_eq!(stream.read(&mut peer, 3), Read::Got(Vec::new()));
    peer.lose();
    assert_eq!(stream.read(&mut peer, 3), Read::Got(Vec::new()));
}

#[test]
fn an_unopened_stream_is_never_stale() {
    let mut peer = Peer::new();
    let mut stream = peer.stream();
    assert!(!stream.is_read_closed(false));
    assert!(!stream.is_read_closed(true));
    peer.refuses = true;
    assert_eq!(stream.read(&mut peer, 1), Read::BrokenPipe);
    assert!(!stream.is_read_closed(true));
}
