use kube_portforward::error::{Error, MuxError};
use kube_portforward::session::{ConnectStep, ReplenishStep, Session, SpareProbe};
use kube_portforward::spdy;
use kube_portforward::spdy::open::{OpenStep, OpenedStreamParts, RealizeRequest};
use kube_portforward::spdy::session::{MuxHandle, OpenPairStep};
use kube_portforward::spdy::stream::Stream;
use kube_portforward::subprotocol::Subprotocol;
use std::collections::HashMap;
use tokio_util::sync::CancellationToken;

const FRESH: SpareProbe = SpareProbe { read_closed: false, connection_closed: false };

fn session(connections: usize) -> Session {
    let handle =
        MuxHandle { closed: false, active_pairs: 0, max_concurrent: 100, operating_capacity: 64 };
    let outcomes = (0..connections).map(|_| Ok(handle)).collect();
    let mux = spdy::session::Session::with_config(outcomes, CancellationToken::new())
        .expect("all connections are healthy");
    Session::from_spdy(mux, Subprotocol::LegacySpdy, 8080)
}

fn pairs(list: &[(&str, &str)]) -> Vec<(String, String)> {
    list.iter().map(|(a, b)| (a.to_string(), b.to_string())).collect()
}

/// Streams by number, each with the connection that it is bound to.
struct Streams {
    kept: HashMap<u64, (Stream, usize)>,
    next: u64,
}

impl Streams {
    fn open(&mut self, session: &mut Session, error: Vec<(String, String)>, data: Vec<(String, String)>) -> u64 {
        let (mut progress, mut step) = session.inner.open_stream_pair();
        loop {
            match step {
                OpenPairStep::Try { idx } => {
                    let mut seen = session.inner.pool[idx];
                    seen.active_pairs += 1;
                    session.inner.observe(idx, seen);
                    step = session.inner.tried_with(&mut progress, idx, 1_000_000, Ok(()));
                }
                OpenPairStep::Opened { idx } => {
                    self.next += 1;
                    let stream = Stream::new_unopened(error, data, 1024);
                    self.kept.insert(self.next, (stream, idx));
                    return self.next;
                }
                OpenPairStep::Failed(_) => panic!("no room"),
            }
        }
    }

    fn replenish(&mut self, session: &mut Session, limit: usize) {
        let mut step = session.replenish_spare_streams();
        let mut opened = 0;
        loop {
            match step {
                ReplenishStep::Open { error_headers, data_headers } if opened < limit => {
                    let stream = self.open(session, error_headers, data_headers);
                    opened += 1;
                    step = session.spare_opened(Ok(stream), false);
                }
                ReplenishStep::Open { .. } => {
                    step = session.spare_opened(Err(Error::Cancelled), false);
                }
                ReplenishStep::Done { discard } => {
                    assert!(discard.is_none());
                    return;
                }
            }
        }
    }

    fn connect(&mut self, session: &mut Session) -> u64 {
        let mut step = session.connect();
        loop {
            match step {
                ConnectStep::Probe { stream } => {
                    let (kept, idx) = &self.kept[&stream];
                    let probe = SpareProbe {
                        read_closed: kept.is_read_closed(false),
                        connection_closed: session.inner.pool[*idx].closed,
                    };
                    step = session.spare_probed(stream, probe);
                }
                ConnectStep::Ready { stream } => return stream,
                ConnectStep::Open { error_headers, data_headers } => {
                    return self.open(session, error_headers, data_headers);
                }
            }
        }
    }
}

#[test]
fn connect_skips_a_cached_spare_bound_to_a_dead_mux() {
    let mut session = session(2);
    let mut streams = Streams { kept: HashMap::new(), next: 0 };
    let capacity = session.capacity();
    streams.replenish(&mut session, 2);
    assert_eq!(session.spare_count(), 2);
    let on: Vec<usize> = vec![streams.kept[&1].1, streams.kept[&2].1];
    assert_ne!(on[0], on[1], "the two spares are on different connections");
    let mut gone = session.inner.pool[0];
    gone.closed = true;
    session.inner.observe(0, gone);
    assert_ne!(session.capacity(), capacity);
    for _ in 0..2 {
        let number = streams.connect(&mut session);
        let (stream, idx) = streams.kept.get_mut(&number).expect("a stream");
        assert_eq!(*idx, 1);
        let parts = match stream.ensure_open() {
            OpenStep::Realize(RealizeRequest { .. }) => OpenedStreamParts { data_id: 3, error_id: 1 },
            _ => panic!("the stream was not opened before"),
        };
        stream.finish_unopened_stream(parts);
        let payload = b"hello-through-the-healthy-transport";
        assert!(stream.write_command(payload, payload.len()).is_some());
    }
}

#[test]
fn headers_pair_the_streams() {
    let mut session = session(1);
    let (error, data) = session.portforward_headers();
    assert_eq!(error, pairs(&[("streamtype", "error"), ("port", "8080"), ("requestid", "0")]));
    assert_eq!(data, pairs(&[("streamtype", "data"), ("port", "8080"), ("requestid", "0")]));
    let (error, data) = session.portforward_headers();
    assert_eq!(error[2].1, "1");
    assert_eq!(data[2].1, "1");
    session.next_request_id = u32::MAX;
    assert_eq!(session.portforward_headers().0[2].1, "4294967295");
    assert_eq!(session.portforward_headers().0[2].1, "0");
}

#[test]
fn spares_are_handed_out_oldest_first() {
    let mut session = session(1);
    for number in [11, 12, 13] {
        assert!(matches!(session.begin_replenish(false), ReplenishStep::Open { .. }));
        assert!(session.replenishing);
        session.spare_opened(Ok(number), true);
        assert!(!session.replenishing);
    }
    assert_eq!(session.spare_count(), 3);
    assert!(matches!(session.connect(), ConnectStep::Probe { stream: 11 }));
    let stale = SpareProbe { read_closed: true, connection_closed: false };
    assert!(matches!(session.spare_probed(11, stale), ConnectStep::Probe { stream: 12 }));
    assert!(matches!(session.spare_probed(12, FRESH), ConnectStep::Ready { stream: 12 }));
    let dead = SpareProbe { read_closed: false, connection_closed: true };
    assert!(matches!(session.connect(), ConnectStep::Probe { stream: 13 }));
    match session.spare_probed(13, dead) {
        ConnectStep::Open { error_headers, .. } => assert_eq!(error_headers[2].1, "3"),
        _ => panic!("expected a new stream"),
    }
    assert_eq!(session.spare_count(), 0);
}

#[test]
fn replenishing_fills_up_to_the_cap() {
    let mut session = session(1);
    assert!(session.needs_replenish());
    let mut streams = Streams { kept: HashMap::new(), next: 0 };
    streams.replenish(&mut session, 8);
    assert!(session.needs_replenish());
    streams.replenish(&mut session, 100);
    assert_eq!(session.spare_count(), 16);
    assert!(!session.needs_replenish());
    assert!(matches!(session.begin_replenish(false), ReplenishStep::Done { discard: None }));
    // a stream that finds no place goes
    assert!(matches!(session.spare_opened(Ok(99), false), ReplenishStep::Done { discard: Some(99) }));
    assert_eq!(session.spare_count(), 16);
}

#[test]
fn replenishing_runs_once_at_a_time() {
    let mut session = session(1);
    assert!(matches!(session.begin_replenish(false), ReplenishStep::Open { .. }));
    assert!(matches!(session.begin_replenish(false), ReplenishStep::Done { discard: None }));
    session.abandon_replenish();
    assert!(matches!(session.begin_replenish(false), ReplenishStep::Open { .. }));
    assert!(matches!(
        session.spare_opened(Err(Error::Cancelled), false),
        ReplenishStep::Done { discard: None }
    ));
    assert!(matches!(session.begin_replenish(true), ReplenishStep::Done { discard: None }));
    session.cancellation_token().cancel();
    assert!(matches!(session.replenish_spare_streams(), ReplenishStep::Done { discard: None }));
    let full = MuxHandle { closed: false, active_pairs: 100, max_concurrent: 100, operating_capacity: 64 };
    session.inner.observe(0, full);
    assert!(session.is_full());
    assert!(matches!(session.begin_replenish(false), ReplenishStep::Done { discard: None }));
}

#[test]
fn numbers_come_from_the_pool() {
    let mut session = session(2);
    let busy = MuxHandle { closed: false, active_pairs: 7, max_concurrent: 100, operating_capacity: 64 };
    session.inner.observe(0, busy);
    assert_eq!(session.protocol(), Subprotocol::LegacySpdy);
    assert_eq!(session.capacity(), 200);
    assert_eq!(session.operating_capacity(), 128);
    assert_eq!(session.in_use(), 7);
    assert_eq!(session.available(), 193);
    assert!(!session.is_full());
    assert!(!session.is_drained());
    let token = session.cancellation_token();
    assert!(session.close().is_ok());
    assert!(token.is_cancelled());
}

#[test]
fn multiplexer_errors_are_taken_over() {
    assert!(matches!(Session::opened(Ok(4)), Ok(4)));
    assert!(matches!(
        Session::opened(Err(MuxError::CapacityExhausted { in_use: 3, limit: 9 })),
        Err(Error::CapacityExhausted { in_use: 3, capacity: 9 })
    ));
    assert!(matches!(
        Session::opened(Err(MuxError::MuxClosed)),
        Err(Error::Mux(MuxError::MuxClosed))
    ));
}
