use kube_portforward::error::MuxError;
use kube_portforward::spdy::metrics::{complete_with, HandleMetrics};
use kube_portforward::spdy::session::{MuxHandle, OpenPairStep, PairOpen, Session};
use tokio_util::sync::CancellationToken;

fn handle() -> MuxHandle {
    MuxHandle { closed: false, active_pairs: 0, max_concurrent: 100, operating_capacity: 64 }
}

fn session(n: usize) -> Session {
    let outcomes = (0..n).map(|_| Ok(handle())).collect();
    Session::with_config(outcomes, CancellationToken::new()).expect("all connections are healthy")
}

fn close(session: &mut Session, idx: usize) {
    let mut gone = session.pool[idx];
    gone.closed = true;
    session.observe(idx, gone);
}

/// Opens a pair; every connection takes it as long as it has room.
fn open(session: &mut Session) -> Result<usize, MuxError> {
    let (mut progress, mut step) = session.open_stream_pair();
    loop {
        match step {
            OpenPairStep::Try { idx } => {
                let sample = session.metrics[idx].start_sample();
                let mut seen = session.pool[idx];
                let outcome = if seen.active_pairs < seen.operating_capacity {
                    seen.active_pairs += 1;
                    Ok(())
                } else {
                    let limit = seen.operating_capacity as u32;
                    Err(MuxError::CapacityExhausted { in_use: seen.active_pairs, limit })
                };
                session.observe(idx, seen);
                step = session.tried(&mut progress, idx, sample, outcome);
            }
            OpenPairStep::Opened { idx } => return Ok(idx),
            OpenPairStep::Failed(e) => return Err(e),
        }
    }
}

#[test]
fn dead_peer_does_not_cancel_healthy_siblings() {
    let mut session = session(2);
    assert_eq!(session.pool.len(), 2);
    assert!(!session.pool[0].closed);
    assert!(!session.pool[1].closed);
    close(&mut session, 0);
    assert!(session.pool[0].closed);
    assert!(!session.pool[1].closed);
    for _ in 0..4 {
        assert_eq!(open(&mut session).expect("the healthy handle should still accept streams"), 1);
    }
    assert!(!session.cancellation_token().is_cancelled());
}

#[test]
fn parent_cancellation_closes_all_children() {
    let parent = CancellationToken::new();
    let mut session = Session::with_config(vec![Ok(handle()), Ok(handle())], parent.clone())
        .expect("both connections are healthy");
    // the tasks of a connection end with a child of the session's token
    let children: Vec<_> =
        session.pool.iter().map(|_| session.cancellation_token().child_token()).collect();
    let look = |session: &mut Session| {
        for (idx, child) in children.iter().enumerate() {
            let mut seen = session.pool[idx];
            seen.closed = child.is_cancelled();
            session.observe(idx, seen);
        }
    };
    look(&mut session);
    assert!(!session.is_drained());
    assert!(!session.pool[0].closed && !session.pool[1].closed);
    parent.cancel();
    assert!(session.cancellation_token().is_cancelled());
    look(&mut session);
    assert!(session.pool[0].closed && session.pool[1].closed);
    assert!(session.is_drained());
    assert!(matches!(open(&mut session), Err(MuxError::CapacityExhausted { in_use: 0, limit: 0 })));
}

#[test]
fn partial_initialization_retains_healthy_connections() {
    let outcomes = vec![Ok(handle()), Err(MuxError::MuxClosed)];
    let mut session = Session::with_config(outcomes, CancellationToken::new())
        .expect("the healthy connection should survive partial initialization");
    assert_eq!(session.pool.len(), 1);
    assert!(!session.is_drained());
    assert!(!session.pool[0].closed);
    assert_eq!(open(&mut session).expect("the surviving handle should still accept streams"), 0);
}

#[test]
fn a_session_needs_one_connection() {
    assert!(matches!(
        Session::with_config(Vec::new(), CancellationToken::new()),
        Err(MuxError::MuxClosed)
    ));
    let outcomes = vec![Err(MuxError::MuxClosed), Err(MuxError::Transport("last".into()))];
    assert!(matches!(
        Session::with_config(outcomes, CancellationToken::new()),
        Err(MuxError::Transport(text)) if text == "last"
    ));
}

#[test]
fn closing_cancels_the_token() {
    let session = session(1);
    let token = session.cancellation_token();
    assert!(!token.is_cancelled());
    assert!(session.close().is_ok());
    assert!(token.is_cancelled());
}

#[test]
fn picks_are_distinct_and_exact() {
    let mut session = session(3);
    // seed 0: 0 % 3 and (0 * k + 1) % 3
    assert_eq!(session.pick_two(3), (0, 1));
    // seed 1: 1 % 3 and (k + 1) % 3
    let k: u64 = 6_364_136_223_846_793_005;
    assert_eq!(session.pick_two(3).0, 1);
    assert_eq!(session.next, 2);
    session.next = usize::MAX;
    let (a, b) = session.pick_two(3);
    assert_eq!(a, (u64::MAX % 3) as usize);
    assert_ne!(a, b);
    assert_eq!(session.next, 0);
    for seed in 0..500 {
        session.next = seed;
        let (a, b) = session.pick_two(3);
        let other = ((seed as u64).wrapping_mul(k).wrapping_add(1) % 3) as usize;
        assert_eq!(a, seed % 3);
        assert_eq!(b, if other == a { (a + 1) % 3 } else { other });
    }
}

#[test]
fn the_cheaper_connection_is_tried_first() {
    let mut session = session(2);
    let mut busy = handle();
    busy.active_pairs = 10;
    session.observe(0, busy);
    assert_eq!(session.handle_cost(0), 11_000_000);
    assert_eq!(session.handle_cost(1), 1_000_000);
    for _ in 0..5 {
        assert_eq!(open(&mut session).expect("room"), 1);
    }
    session.metrics[1].rtt_ns = u64::MAX;
    assert_eq!(session.handle_cost(1), u64::MAX);
    assert_eq!(open(&mut session).expect("room"), 0);
    close(&mut session, 0);
    assert_eq!(session.handle_cost(0), u64::MAX);
}

#[test]
fn the_scan_reaches_every_connection() {
    let mut session = session(5);
    for idx in [0, 1, 3, 4] {
        close(&mut session, idx);
    }
    for start in 0..20 {
        session.next = start;
        assert_eq!(open(&mut session).expect("one connection is left"), 2);
    }
}

#[test]
fn a_full_pool_reports_its_numbers() {
    let mut session = session(2);
    let full = MuxHandle { closed: false, active_pairs: 64, max_concurrent: 100, operating_capacity: 64 };
    session.observe(0, full);
    session.observe(1, full);
    match open(&mut session) {
        Err(MuxError::CapacityExhausted { in_use, limit }) => {
            assert_eq!(in_use, 128);
            assert_eq!(limit, 200);
        }
        _ => panic!("expected exhausted capacity"),
    }
    // two picks, then a scan of both
    assert_eq!(session.next, 3);
    assert_eq!(session.metrics[0].rtt_ns, 1_000_000);
}

#[test]
fn other_failures_end_the_search() {
    let mut session = session(1);
    let (mut progress, step) = session.open_stream_pair();
    assert!(matches!(step, OpenPairStep::Try { idx: 0 }));
    let failed = Err(MuxError::Transport("broken".into()));
    let step = session.tried_with(&mut progress, 0, 5, failed);
    assert!(matches!(step, OpenPairStep::Failed(MuxError::Transport(text)) if text == "broken"));
    assert_eq!(session.metrics[0].rtt_ns, 1_000_000);
    let step = session.tried_with(&mut progress, 0, 3_000_000, Ok(()));
    assert!(matches!(step, OpenPairStep::Opened { idx: 0 }));
    assert_eq!(session.metrics[0].rtt_ns, 3_000_000);
}

#[test]
fn totals_count_live_connections() {
    let mut session = session(3);
    for idx in 0..3 {
        let mut seen = handle();
        seen.active_pairs = 10 * (idx + 1);
        session.observe(idx, seen);
    }
    assert_eq!(session.capacity(), 300);
    assert_eq!(session.operating_capacity(), 192);
    assert_eq!(session.in_use(), 60);
    assert_eq!(session.available(), 240);
    assert!(!session.is_full());
    close(&mut session, 2);
    assert_eq!(session.capacity(), 200);
    assert_eq!(session.operating_capacity(), 128);
    assert_eq!(session.in_use(), 60);
    assert_eq!(session.available(), 140);
    let mut over = handle();
    over.active_pairs = 100;
    session.observe(0, over);
    assert!(!session.is_full());
    close(&mut session, 1);
    assert!(session.is_full());
    assert_eq!(session.capacity(), 100);
    assert_eq!(session.available(), 0);
    assert!(!session.is_drained());
    close(&mut session, 0);
    assert!(session.is_drained());
}

#[test]
fn a_search_without_connections_ends() {
    let mut session = session(2);
    close(&mut session, 0);
    close(&mut session, 1);
    let mut progress = PairOpen { picks: Vec::new(), scanned: 0 };
    assert_eq!(session.next_handle(&mut progress), None);
    assert_eq!(progress.scanned, 2);
    assert!(matches!(open(&mut session), Err(MuxError::CapacityExhausted { in_use: 0, limit: 0 })));
}

#[test]
fn round_trip_estimates() {
    let mut metrics = HandleMetrics::new();
    assert_eq!(metrics.rtt_ns, 1_000_000);
    metrics.record_rtt(5_000_000);
    assert_eq!(metrics.rtt_ns, 5_000_000);
    metrics.record_rtt(1_000_000);
    assert_eq!(metrics.rtt_ns, 4_600_000);
    metrics.record_rtt(0);
    assert_eq!(metrics.rtt_ns, 4_140_000);
    assert_eq!(metrics.cost(0), 4_140_000);
    assert_eq!(metrics.cost(9), 41_400_000);
    complete_with(u128::MAX, &mut metrics);
    assert_eq!(metrics.rtt_ns, u64::MAX);
    assert_eq!(metrics.cost(1), u64::MAX);
    let mut zero = HandleMetrics { rtt_ns: 0 };
    assert_eq!(zero.cost(usize::MAX), 0);
    let sample = zero.start_sample();
    std::hint::black_box((0..10_000u64).sum::<u64>());
    assert!(sample.nanos() < 20_000_000_000);
    sample.complete(&mut zero);
    assert!(zero.rtt_ns < 20_000_000_000);
}

#[test]
fn a_search_fails_once_all_have_refused() {
    let mut session = session(3);
    close(&mut session, 1);
    let mut refused = Vec::new();
    let (mut progress, mut step) = session.open_stream_pair();
    while let OpenPairStep::Try { idx } = step {
        refused.push(idx);
        let outcome = Err(MuxError::CapacityExhausted { in_use: 64, limit: 64 });
        step = session.tried_with(&mut progress, idx, 1, outcome);
    }
    assert!(matches!(step, OpenPairStep::Failed(MuxError::CapacityExhausted { .. })));
    assert!(refused.contains(&0) && refused.contains(&2) && !refused.contains(&1));
}
