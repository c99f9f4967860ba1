use kube_portforward::client::Client;
use kube_portforward::connect::ClusterUrl;
use kube_portforward::error::{Error, MuxError};
use kube_portforward::forwarder::lifecycle::{
    PermitOutcome, ReactorAction, ReactorEvent, SearchMove, SearchStage, SearchStep, SessionSearch,
};
use kube_portforward::forwarder::pool::{
    OpeningSlot, PooledSession, SessionPool, SessionStatus, SharedSession,
};
use kube_portforward::forwarder::prefetch::{PrefetchEnd, SessionLoad};
use kube_portforward::forwarder::{Attempt, ForwardStep, Forwarder, ForwarderConfig};
use kube_portforward::pod_watch::{
    Pod, PodChange, PodCondition, PodReadiness, PodSelector, PodStatus, PodWatcher, ReadyPod,
    WaitEvent, WaitStep,
};
use kube_portforward::recovery::RecoverySignal;
use kube_portforward::spdy::session::MuxHandle;
use kube_portforward::subprotocol::Subprotocol;
use quanta::Instant;
use std::time::Duration;

const IDLE: SessionStatus =
    SessionStatus { cancelled: false, drained: false, full: false, in_use: 0 };

fn ready(name: &str, uid: &str) -> ReadyPod {
    ReadyPod::new(name.into(), Some(uid.into()))
}

fn pod(name: &str) -> Pod {
    Pod {
        name: Some(name.to_string()),
        generate_name: None,
        uid: Some("uid".to_string()),
        terminating: false,
        status: Some(PodStatus {
            phase: Some("Running".to_string()),
            conditions: Some(vec![PodCondition { type_: "Ready".into(), status: "True".into() }]),
        }),
    }
}

/// A forwarder that has seen no pod. The runtime is only there because the
/// Kubernetes client asks for one.
fn waiting_forwarder() -> (Forwarder, tokio::runtime::Runtime) {
    let runtime = tokio::runtime::Builder::new_current_thread().build().expect("a runtime");
    let kube = {
        let _guard = runtime.enter();
        let url: http::Uri = "http://127.0.0.1:1".parse().expect("a URI");
        kube::Client::try_from(kube::Config::new(url)).expect("a client")
    };
    let url = ClusterUrl::parse("http://127.0.0.1:1").expect("a URL");
    let selector = PodSelector::Name("waiting".into());
    let watcher = PodWatcher::new(true, selector, PodReadiness::Ready).expect("subscribed");
    let config = ForwarderConfig::default();
    let client = Client::new(kube, url);
    (Forwarder::new(client, "default".to_string(), watcher, config), runtime)
}

/// The sessions that readers of the pool see.
fn seen(pool: &SessionPool) -> Vec<u64> {
    pool.snapshot.iter().map(|shared| shared.session).collect()
}

fn at(r: &SearchMove) -> &SearchStep {
    &r.step
}

#[test]
fn died_event_for_a_non_target_pod_does_not_drain_the_pool() {
    let mut pool = SessionPool::new();
    let pod_b = ready("b", "uid-b");
    pool.retarget(&pod_b);
    assert!(pool.install_if_current(&pod_b, 8080, 11).is_ok());

    let drained = pool.handle_pod_died("a");
    assert!(drained.is_none(), "an old pod's Died event must not match an unrelated target");
    assert_eq!(pool.entries.len(), 1);

    let drained = pool.handle_pod_died("b");
    assert_eq!(drained.expect("Died for the actual target must drain the pool"), vec![11]);
    assert!(pool.entries.is_empty());
    assert!(pool.snapshot.is_empty());
    assert!(pool.handle_pod_died("b").is_none());
}

#[test]
fn shutdown_cancels_pending_connections_and_prevents_reopening() {
    let (mut forwarder, _runtime) = waiting_forwarder();
    let (mut pending, step) = forwarder.connect(8080);
    assert!(matches!(step, ForwardStep::EnsureSession));
    let token = forwarder.cancellation_token();
    assert!(!token.is_cancelled());
    assert!(forwarder.shutdown().is_empty());
    // whoever waits on the token is woken
    assert!(token.is_cancelled());
    assert!(forwarder.session_cancel.is_cancelled());
    assert!(forwarder.pod_watcher.cancel.is_cancelled());
    assert!(forwarder.closed && forwarder.pod_watcher.closed);
    let found = Attempt::Session { pod: ready("a", "uid-a"), outcome: Ok(1) };
    let step = forwarder.session_connected(&mut pending, found);
    assert!(matches!(step, ForwardStep::Failed(Error::Cancelled)));
    let (_, step) = forwarder.connect(8080);
    assert!(matches!(step, ForwardStep::Failed(Error::Cancelled)));
    assert!(matches!(forwarder.wait_for_ready_pod(&vec![pod("waiting")]), WaitStep::Done(None)));
    assert!(forwarder.shutdown().is_empty());
}

#[test]
fn zero_target_port_fails_before_waiting_for_pods() {
    let (mut forwarder, _runtime) = waiting_forwarder();
    let (_, step) = forwarder.connect(0);
    assert!(matches!(step, ForwardStep::Failed(Error::Configuration(text))
        if text == "target port must be greater than zero"));
    forwarder.shutdown();
}

#[test]
fn gate_only_blocks_on_genuine_in_flight_work() {
    let mut pool = SessionPool::new();
    assert!(!pool.has_in_flight_open());
    let target = ready("a", "uid-a");
    pool.retarget(&target);
    assert!(pool.install_if_current(&target, 8080, 11).is_ok());
    assert!(!pool.has_in_flight_open());

    let slot = OpeningSlot::new(&mut pool.opening_count);
    assert!(pool.has_in_flight_open());
    slot.release(&mut pool.opening_count);
    assert!(!pool.has_in_flight_open());

    pool.prefetch_in_flight = true;
    assert!(pool.has_in_flight_open());
}

#[test]
fn install_rejects_a_session_opened_for_a_stale_target() {
    let mut pool = SessionPool::new();
    let pod_a = ready("a", "uid-a");
    let pod_b = ready("b", "uid-b");
    pool.retarget(&pod_b);
    let result = pool.install_if_current(&pod_a, 8080, 1);
    assert_eq!(
        result,
        Err(1),
        "a session opened for a target the pool already moved away from must not be installed"
    );
    assert!(pool.entries.is_empty());

    let result = pool.install_if_current(&pod_b, 8080, 2);
    assert_eq!(result, Ok(2), "a session opened for the still-current target must install");
    assert_eq!(seen(&pool), vec![2]);
    assert_eq!(pool.drain_and_cancel_all(), vec![2]);
    assert!(pool.target.is_none());
}

fn filled(sessions: &[u64]) -> SessionPool {
    let mut pool = SessionPool::new();
    let target = ready("a", "uid-a");
    pool.retarget(&target);
    for session in sessions {
        assert!(pool.install_at(&target, 8080, *session, Instant::now()).is_ok());
    }
    pool
}

#[test]
fn sessions_of_a_replaced_pod_are_drained() {
    let mut pool = filled(&[1, 2]);
    assert!(pool.retarget(&ready("a", "uid-a")).is_empty());
    assert_eq!(seen(&pool), vec![1, 2]);
    assert_eq!(pool.retarget(&ready("a", "uid-b")), vec![1, 2]);
    assert!(pool.entries.is_empty());
    assert_eq!(pool.target.as_ref().expect("a target").uid.as_deref(), Some("uid-b"));
}

#[test]
fn dead_sessions_are_retired() {
    let mut pool = filled(&[1, 2, 3, 4]);
    let cancelled = SessionStatus { cancelled: true, ..IDLE };
    let drained = SessionStatus { drained: true, ..IDLE };
    let full = SessionStatus { full: true, ..IDLE };
    assert_eq!(pool.retire_dead_sessions(&vec![cancelled, IDLE, drained, full]), vec![1, 3]);
    assert_eq!(seen(&pool), vec![2, 4]);
    assert_eq!(pool.find_reusable_session(8080, &vec![full, IDLE]), Some(4));
    assert_eq!(pool.find_reusable_session(8080, &vec![IDLE, IDLE]), Some(2));
    assert_eq!(pool.find_reusable_session(8080, &vec![full, cancelled]), None);
}

#[test]
fn pruning_keeps_one_session() {
    let idle_age = Duration::from_nanos(10);
    let mut pool = filled(&[1, 2, 3]);
    let busy = SessionStatus { in_use: 2, ..IDLE };
    let cancelled = SessionStatus { cancelled: true, in_use: 5, ..IDLE };
    // an entry that is just as old as the limit stays
    assert!(pool.prune_aged(&vec![busy, IDLE, busy], &vec![11, 10, 11], idle_age).is_empty());
    let dropped = pool.prune_aged(&vec![busy, IDLE, cancelled], &vec![11, 11, 0], idle_age);
    assert_eq!(dropped, vec![2, 3]);
    assert_eq!(seen(&pool), vec![1]);
    assert!(pool.prune_aged(&vec![cancelled], &vec![11], idle_age).is_empty());
    let mut pool = filled(&[1, 2, 3]);
    assert_eq!(pool.prune_aged(&vec![IDLE; 3], &vec![11; 3], idle_age), vec![1, 2]);
    assert_eq!(seen(&pool), vec![3]);
    assert!(SessionPool::new().prune_aged(&Vec::new(), &Vec::new(), idle_age).is_empty());
}

#[test]
fn pruning_goes_by_the_clock() {
    let (mut forwarder, _runtime) = waiting_forwarder();
    forwarder.sessions = filled(&[1, 2]);
    assert!(forwarder.prune_once(&vec![IDLE, IDLE]).is_empty());
    forwarder.config.prune_idle_age = Duration::from_nanos(0);
    std::hint::black_box((0..1_000_000u64).fold(0, |a, b| a ^ b));
    assert_eq!(forwarder.prune_once(&vec![IDLE, IDLE]), vec![1]);
}

#[test]
fn default_configuration() {
    let config = ForwarderConfig::default();
    assert_eq!(config.max_sessions, 128);
    assert_eq!(config.prune_interval, Duration::from_secs(30));
    assert_eq!(config.prune_idle_age, Duration::from_secs(60));
}

#[test]
fn slots_are_limited() {
    let mut pool = filled(&[1]);
    let slot = match pool.reserve_new_slot(2) {
        Ok(slot) => slot,
        Err(_) => panic!("there is room"),
    };
    assert!(matches!(
        pool.reserve_new_slot(2),
        Err(Error::CapacityExhausted { in_use: 2, capacity: 2 })
    ));
    assert_eq!(pool.opening_count, 1);
    slot.release(&mut pool.opening_count);
    assert!(pool.reserve_new_slot(2).is_ok());
}

/// Brings a fresh search to the point where a session is being opened.
fn opening(forwarder: &mut Forwarder, target: &ReadyPod) -> SessionSearch {
    let mut search = forwarder.ensure_session(8080);
    let r = forwarder.pod_resolved(&mut search, Some(target.clone()));
    assert!(matches!(at(&r), SearchStep::CheckSessions));
    let statuses = vec![SessionStatus { full: true, ..IDLE }; forwarder.sessions.entries.len()];
    let r = forwarder.sessions_checked(&mut search, &statuses);
    assert!(matches!(at(&r), SearchStep::CheckSessions));
    let r = forwarder.sessions_rechecked(&mut search, &statuses);
    assert!(matches!(at(&r), SearchStep::AcquirePermit));
    let r = forwarder.permit_settled(&mut search, PermitOutcome::Acquired);
    match at(&r) {
        SearchStep::OpenSession { pod, port } => {
            assert_eq!(pod, target);
            assert_eq!(*port, 8080);
        }
        _ => panic!("expected a session to be opened"),
    }
    assert_eq!(forwarder.sessions.opening_count, 1);
    search
}

#[test]
fn a_search_opens_a_session_and_reuses_it() {
    let (mut forwarder, _runtime) = waiting_forwarder();
    let target = ready("a", "uid-a");
    let mut search = opening(&mut forwarder, &target);
    assert_eq!(search.call_id, 0);
    let r = forwarder.session_opened(&mut search, Ok(7));
    assert!(matches!(at(&r), SearchStep::Done { session: 7, fresh: true, .. }));
    assert!(r.cancel.is_empty());
    assert_eq!(search.stage, SearchStage::Ended);
    assert_eq!(forwarder.sessions.opening_count, 0);
    assert_eq!(seen(&forwarder.sessions), vec![7]);

    let mut search = forwarder.ensure_session(8080);
    assert_eq!(search.call_id, 1);
    forwarder.pod_resolved(&mut search, Some(target));
    let r = forwarder.sessions_checked(&mut search, &vec![IDLE]);
    assert!(matches!(at(&r), SearchStep::Done { session: 7, fresh: false, .. }));
}

#[test]
fn a_search_without_a_pod_fails() {
    let (mut forwarder, _runtime) = waiting_forwarder();
    let mut search = forwarder.ensure_session(8080);
    let r = forwarder.pod_resolved(&mut search, None);
    assert!(matches!(at(&r), SearchStep::Failed(Error::Configuration(text))
        if text == "no ready pod available"));
}

#[test]
fn a_changed_pod_drains_the_pool() {
    let (mut forwarder, _runtime) = waiting_forwarder();
    forwarder.sessions = filled(&[1, 2]);
    let mut search = forwarder.ensure_session(8080);
    let r = forwarder.pod_resolved(&mut search, Some(ready("b", "uid-b")));
    assert_eq!(r.cancel, vec![1, 2]);
    assert!(forwarder.sessions.entries.is_empty());
}

#[test]
fn a_search_retires_dead_sessions_and_waits_for_others() {
    let (mut forwarder, _runtime) = waiting_forwarder();
    forwarder.sessions = filled(&[1, 2]);
    forwarder.sessions.opening_count = 1;
    let target = ready("a", "uid-a");
    let mut search = forwarder.ensure_session(8080);
    forwarder.pod_resolved(&mut search, Some(target));
    let cancelled = SessionStatus { cancelled: true, ..IDLE };
    let full = SessionStatus { full: true, ..IDLE };
    let r = forwarder.sessions_checked(&mut search, &vec![cancelled, full]);
    assert_eq!(r.cancel, vec![1]);
    let r = forwarder.sessions_rechecked(&mut search, &vec![full]);
    assert!(matches!(at(&r), SearchStep::AwaitOpen));
    let r = forwarder.open_awaited(&mut search, &vec![full]);
    assert!(matches!(at(&r), SearchStep::AcquirePermit));
    assert_eq!(forwarder.sessions.opening_count, 2);
    let r = forwarder.permit_settled(&mut search, PermitOutcome::TimedOut);
    assert!(matches!(at(&r), SearchStep::Failed(Error::Network(text))
        if text == "timed out waiting for connection slot"));
    assert_eq!(forwarder.sessions.opening_count, 1);
}

#[test]
fn a_second_look_and_a_wait_can_find_a_session() {
    let (mut forwarder, _runtime) = waiting_forwarder();
    forwarder.sessions = filled(&[1]);
    forwarder.sessions.prefetch_in_flight = true;
    let full = SessionStatus { full: true, ..IDLE };
    let mut search = forwarder.ensure_session(8080);
    forwarder.pod_resolved(&mut search, Some(ready("a", "uid-a")));
    forwarder.sessions_checked(&mut search, &vec![full]);
    let r = forwarder.sessions_rechecked(&mut search, &vec![IDLE]);
    assert!(matches!(at(&r), SearchStep::Done { session: 1, fresh: false, .. }));

    let mut search = forwarder.ensure_session(8080);
    forwarder.pod_resolved(&mut search, Some(ready("a", "uid-a")));
    forwarder.sessions_checked(&mut search, &vec![full]);
    forwarder.sessions_rechecked(&mut search, &vec![full]);
    let end = forwarder.prefetch_opened(&ready("a", "uid-a"), 8080, Ok(2));
    assert!(matches!(end, PrefetchEnd::Installed));
    let r = forwarder.open_awaited(&mut search, &vec![full, IDLE]);
    assert!(matches!(at(&r), SearchStep::Done { session: 2, fresh: false, .. }));
}

#[test]
fn a_stale_session_is_replaced_once() {
    let (mut forwarder, _runtime) = waiting_forwarder();
    let target = ready("a", "uid-a");
    let mut search = opening(&mut forwarder, &target);
    forwarder.sessions.retarget(&ready("b", "uid-b"));
    let r = forwarder.session_opened(&mut search, Ok(7));
    assert!(matches!(at(&r), SearchStep::AwaitPod));
    assert_eq!(r.cancel, vec![7]);
    assert_eq!(search.stage, SearchStage::AwaitPod);
    assert_eq!(forwarder.sessions.opening_count, 0);

    forwarder.pod_resolved(&mut search, Some(ready("b", "uid-b")));
    forwarder.sessions_checked(&mut search, &Vec::new());
    forwarder.sessions_rechecked(&mut search, &Vec::new());
    forwarder.permit_settled(&mut search, PermitOutcome::Acquired);
    forwarder.sessions.retarget(&target);
    let r = forwarder.session_opened(&mut search, Ok(8));
    assert!(matches!(at(&r), SearchStep::Failed(Error::Configuration(text))
        if text == "target pod changed while opening a session"));
    assert_eq!(r.cancel, vec![8]);
    assert_eq!(forwarder.sessions.opening_count, 0);
    assert!(forwarder.sessions.entries.is_empty());
}

#[test]
fn every_end_of_a_search_returns_the_slot() {
    let (mut forwarder, _runtime) = waiting_forwarder();
    let target = ready("a", "uid-a");
    let mut search = opening(&mut forwarder, &target);
    let r = forwarder.session_opened(&mut search, Err(Error::Cancelled));
    assert!(matches!(at(&r), SearchStep::Failed(Error::Cancelled)));
    assert_eq!(forwarder.sessions.opening_count, 0);

    let search = opening(&mut forwarder, &target);
    forwarder.search_dropped(search);
    assert_eq!(forwarder.sessions.opening_count, 0);
    let search = forwarder.ensure_session(1);
    forwarder.search_dropped(search);
    assert_eq!(forwarder.sessions.opening_count, 0);

    let mut search = forwarder.ensure_session(8080);
    forwarder.pod_resolved(&mut search, Some(target.clone()));
    forwarder.sessions_checked(&mut search, &Vec::new());
    forwarder.sessions_rechecked(&mut search, &Vec::new());
    let r = forwarder.permit_settled(&mut search, PermitOutcome::Closed);
    assert!(matches!(at(&r), SearchStep::Failed(Error::Network(text))
        if text == "connection slot semaphore closed"));
    assert_eq!(forwarder.sessions.opening_count, 0);

    forwarder.config.max_sessions = 0;
    let mut search = forwarder.ensure_session(8080);
    forwarder.pod_resolved(&mut search, Some(target));
    forwarder.sessions_checked(&mut search, &Vec::new());
    let r = forwarder.sessions_rechecked(&mut search, &Vec::new());
    assert!(matches!(
        at(&r),
        SearchStep::Failed(Error::CapacityExhausted { in_use: 0, capacity: 0 })
    ));
}

#[test]
fn a_full_session_leads_to_another() {
    let (mut forwarder, _runtime) = waiting_forwarder();
    forwarder.config.max_sessions = 2;
    let exhausted = || Error::CapacityExhausted { in_use: 5, capacity: 5 };
    let on_a = |outcome| Attempt::Session { pod: ready("a", "uid-a"), outcome };
    let full = || on_a(Err(exhausted()));
    let (mut connect, step) = forwarder.connect_on_pod(8080);
    assert!(matches!(step, ForwardStep::EnsureSession));
    let step = forwarder.session_connected(&mut connect, full());
    assert!(matches!(step, ForwardStep::EnsureSession));
    let step = forwarder.session_connected(&mut connect, full());
    assert!(matches!(
        step,
        ForwardStep::Failed(Error::CapacityExhausted { in_use: 0, capacity: 2 })
    ));
    let (mut connect, _) = forwarder.begin_connect(8080, false);
    let closed = on_a(Err(Error::Mux(MuxError::MuxClosed)));
    let step = forwarder.session_connected(&mut connect, closed);
    assert!(matches!(step, ForwardStep::Failed(Error::Mux(MuxError::MuxClosed))));
    let none = Attempt::NoSession(exhausted());
    let step = forwarder.session_connected(&mut connect, none);
    assert!(matches!(
        step,
        ForwardStep::Failed(Error::CapacityExhausted { in_use: 5, capacity: 5 })
    ));
    let step = forwarder.session_connected(&mut connect, on_a(Ok(3)));
    match step {
        ForwardStep::Connected { stream, pod } => {
            assert_eq!(stream, 3);
            assert_eq!(pod, ready("a", "uid-a"));
        }
        _ => panic!("expected a stream"),
    }
    let (_, step) = forwarder.begin_connect(0, true);
    assert!(matches!(step, ForwardStep::Failed(Error::Cancelled)));
    forwarder.config.max_sessions = 0;
    let (_, step) = forwarder.connect(8080);
    assert!(matches!(
        step,
        ForwardStep::Failed(Error::CapacityExhausted { in_use: 0, capacity: 0 })
    ));
}

#[test]
fn prefetching_needs_load_room_and_the_same_target() {
    let (mut forwarder, _runtime) = waiting_forwarder();
    forwarder.sessions = filled(&[1]);
    let target = ready("a", "uid-a");
    let load = SessionLoad {
        needs_replenish: true,
        full: false,
        operating_capacity: 384,
        over_threshold: true,
    };
    let calm = SessionLoad { over_threshold: false, ..load };
    let actions = forwarder.maybe_prefetch(calm, &target);
    assert!(actions.replenish && !actions.open);
    let closed = SessionLoad { operating_capacity: 0, full: true, ..load };
    let actions = forwarder.maybe_prefetch(closed, &target);
    assert!(!actions.replenish && !actions.open);
    assert!(!forwarder.maybe_prefetch(load, &ready("b", "uid-b")).open);
    assert!(forwarder.maybe_prefetch(load, &target).open);
    assert!(forwarder.sessions.prefetch_in_flight);
    assert!(!forwarder.maybe_prefetch(load, &target).open);
    assert!(matches!(
        forwarder.prefetch_opened(&target, 8080, Err(Error::Cancelled)),
        PrefetchEnd::Failed(Error::Cancelled)
    ));
    assert!(!forwarder.sessions.prefetch_in_flight);
    assert!(matches!(
        forwarder.prefetch_opened(&ready("b", "uid-b"), 8080, Ok(5)),
        PrefetchEnd::Cancel { session: 5 }
    ));
    forwarder.config.max_sessions = 1;
    assert!(!forwarder.maybe_prefetch(load, &target).open);
    assert!(matches!(
        forwarder.prefetch_opened(&target, 8080, Ok(6)),
        PrefetchEnd::Cancel { session: 6 }
    ));
    forwarder.config.max_sessions = 2;
    assert!(matches!(forwarder.prefetch_opened(&target, 8080, Ok(7)), PrefetchEnd::Installed));
    assert_eq!(seen(&forwarder.sessions), vec![1, 7]);
}

#[test]
fn the_reactor_drains_on_the_death_of_the_target() {
    let (mut forwarder, _runtime) = waiting_forwarder();
    forwarder.sessions = filled(&[1, 2]);
    let event = |name: &str| ReactorEvent::Change(PodChange::Died(name.to_string()));
    assert!(matches!(forwarder.reactor_event(event("b")), ReactorAction::Next));
    assert!(matches!(
        forwarder.reactor_event(ReactorEvent::Change(PodChange::Ready("a".into()))),
        ReactorAction::Next
    ));
    assert!(matches!(forwarder.reactor_event(ReactorEvent::Lagged), ReactorAction::Next));
    match forwarder.reactor_event(event("a")) {
        ReactorAction::Drained { cancel, signal } => {
            assert_eq!(cancel, vec![1, 2]);
            assert!(matches!(signal, RecoverySignal::ServerClose));
        }
        _ => panic!("expected the pool to be drained"),
    }
    assert!(matches!(forwarder.reactor_event(ReactorEvent::Closed), ReactorAction::Stop));
    assert!(matches!(forwarder.reactor_event(ReactorEvent::Cancelled), ReactorAction::Stop));
}

#[test]
fn the_forwarder_reports_its_pod() {
    let (mut forwarder, _runtime) = waiting_forwarder();
    let pods = vec![pod("other"), pod("waiting")];
    assert!(forwarder.ready_pod(&Vec::new()).is_none());
    assert_eq!(forwarder.ready_pod(&pods).as_deref(), Some("waiting"));
    assert_eq!(forwarder.ready_pod_identity(&pods), Some(ready("waiting", "uid")));
    assert!(forwarder.has_running_pods(&pods));
    assert!(!forwarder.has_running_pods(&vec![pod("other")]));
    match forwarder.wait_for_ready_pod(&pods) {
        WaitStep::Done(found) => {
            assert_eq!(Forwarder::waited_name(found).as_deref(), Some("waiting"));
        }
        WaitStep::Wait => panic!("the pod is ready"),
    }
    assert!(matches!(forwarder.wait_for_ready_pod(&Vec::new()), WaitStep::Wait));
    assert!(matches!(forwarder.wait_event(WaitEvent::Deadline, &pods), WaitStep::Done(None)));
    assert!(Forwarder::waited_name(None).is_none());
}

#[test]
fn sessions_are_opened_under_the_forwarder() {
    let (forwarder, _runtime) = waiting_forwarder();
    let open = forwarder.open_session("waiting", 8080);
    assert_eq!(open.namespace, "default");
    assert_eq!(open.pod, "waiting");
    assert_eq!(open.port, 8080);
    assert_eq!(open.pool_size, 6);
    assert_eq!(open.extra_connections(), 5);
    forwarder.session_cancel.cancel();
    assert!(open.cancel.is_cancelled());
}

#[test]
fn client_builder_wants_both_parts() {
    let (forwarder, _runtime) = waiting_forwarder();
    let kube = forwarder.pf_client.kube_client().clone();
    assert!(matches!(Client::builder().build(), Err(Error::Configuration(text))
        if text == "kube_client is required"));
    assert!(matches!(Client::builder().kube_client(kube.clone()).build(),
        Err(Error::Configuration(text)) if text == "cluster_url is required"));
    let url = ClusterUrl::parse("https://host:6443").expect("a URL");
    let client = Client::builder().cluster_url(url).kube_client(kube).build().expect("a client");
    assert_eq!(client.cluster_url().authority.as_deref(), Some("host:6443"));
    let builder = client.session("ns".to_string(), "p".to_string(), 80);
    assert_eq!(builder.spdy_pool_size, 6);
    assert_eq!(builder.spdy_pool_size(0).spdy_pool_size, 1);
}

#[test]
fn a_session_is_built_from_its_connections() {
    let (forwarder, _runtime) = waiting_forwarder();
    let client = &forwarder.pf_client;
    let token = tokio_util::sync::CancellationToken::new();
    let builder = || {
        client
            .session("ns".to_string(), "p".to_string(), 80)
            .spdy_pool_size(3)
            .cancellation_token(token.clone())
    };
    let open = builder().open();
    assert_eq!(open.extra_connections(), 2);
    assert_eq!(open.mux_config(2).pool_size, 3);
    assert_eq!(open.filled(&vec![true, true]).pool_size, 3);
    assert_eq!(open.filled(&vec![false, true]).pool_size, 2);
    assert_eq!(open.filled(&vec![false, false]).pool_size, 1);
    assert_eq!(open.filled(&Vec::new()).max_frame_size, 1024 * 1024);
    assert_eq!(open.mux_config(0).max_frame_size, 1024 * 1024);
    let tunnel = open.upgrade_request(Subprotocol::Spdy31Tunnel).expect("a request");
    assert_eq!(tunnel.headers["upgrade"], "websocket");
    let legacy = open.upgrade_request(Subprotocol::LegacySpdy).expect("a request");
    assert_eq!(legacy.headers["upgrade"], "SPDY/3.1");
    assert_eq!(tunnel.uri, legacy.uri);
    let handle =
        MuxHandle { closed: false, active_pairs: 0, max_concurrent: 100, operating_capacity: 64 };
    let outcomes = vec![Ok(handle), Err(MuxError::MuxClosed), Ok(handle)];
    let session = open.finish(Subprotocol::LegacySpdy, outcomes).expect("a session");
    assert_eq!(session.protocol(), Subprotocol::LegacySpdy);
    assert_eq!(session.port, 80);
    assert_eq!(session.capacity(), 200);
    assert_eq!(session.inner.next, 0);
    assert_eq!(session.inner.metrics.len(), 2);
    assert!(session.inner.metrics.iter().all(|metrics| metrics.rtt_ns == 1_000_000));
    token.cancel();
    assert!(session.cancellation_token().is_cancelled());
    let failed = builder().open().finish(Subprotocol::LegacySpdy, vec![Err(MuxError::MuxClosed)]);
    assert!(matches!(failed, Err(Error::Mux(MuxError::MuxClosed))));
    let own = client.session("ns".to_string(), "p".to_string(), 80).open();
    assert!(!own.cancel.is_cancelled());
    let single = client.session("ns".to_string(), "p".to_string(), 80).spdy_pool_size(1).open();
    assert_eq!(single.extra_connections(), 0);
}

#[test]
fn a_session_to_another_port_is_not_reused() {
    let (mut forwarder, _runtime) = waiting_forwarder();
    let target = ready("a", "uid-a");
    forwarder.sessions = filled(&[1]);
    assert_eq!(forwarder.sessions.snapshot, vec![SharedSession { session: 1, port: 8080 }]);
    assert_eq!(forwarder.sessions.find_reusable_session(9090, &vec![IDLE]), None);
    assert_eq!(forwarder.sessions.find_reusable_session(8080, &vec![IDLE]), Some(1));

    let mut search = forwarder.ensure_session(9090);
    forwarder.pod_resolved(&mut search, Some(target.clone()));
    let r = forwarder.sessions_checked(&mut search, &vec![IDLE]);
    assert!(matches!(at(&r), SearchStep::CheckSessions));
    let r = forwarder.sessions_rechecked(&mut search, &vec![IDLE]);
    assert!(matches!(at(&r), SearchStep::AcquirePermit));
    let r = forwarder.permit_settled(&mut search, PermitOutcome::Acquired);
    assert!(matches!(at(&r), SearchStep::OpenSession { port: 9090, .. }));
    let r = forwarder.session_opened(&mut search, Ok(2));
    assert!(matches!(at(&r), SearchStep::Done { session: 2, fresh: true, .. }));

    for (port, session) in [(8080, 1), (9090, 2)] {
        let mut search = forwarder.ensure_session(port);
        forwarder.pod_resolved(&mut search, Some(target.clone()));
        let r = forwarder.sessions_checked(&mut search, &vec![IDLE, IDLE]);
        match r.step {
            SearchStep::Done { session: found, pod, fresh } => {
                assert_eq!(found, session);
                assert_eq!(pod, target);
                assert!(!fresh);
            }
            _ => panic!("expected the session to {port}"),
        }
    }
    let entries: &Vec<PooledSession> = &forwarder.sessions.entries;
    assert_eq!(entries[1].port, 9090);
    assert_eq!(entries[1].opened_for, target);

    // a prefetched session goes to the port that it was opened for
    let end = forwarder.prefetch_opened(&target, 7070, Ok(3));
    assert!(matches!(end, PrefetchEnd::Installed));
    assert_eq!(forwarder.sessions.find_reusable_session(7070, &vec![IDLE; 3]), Some(3));
}

#[test]
fn a_search_starts_over_when_the_pool_has_moved() {
    let (mut forwarder, _runtime) = waiting_forwarder();
    let (old, new) = (ready("a", "uid-a"), ready("a", "uid-b"));
    let full = SessionStatus { full: true, ..IDLE };
    let move_on = |forwarder: &mut Forwarder| {
        forwarder.sessions.retarget(&new);
        assert!(forwarder.sessions.install_if_current(&new, 8080, 9).is_ok());
    };
    let restarted = |r: &SearchMove, search: &SessionSearch| {
        assert!(matches!(at(r), SearchStep::AwaitPod));
        assert!(r.cancel.is_empty());
        assert_eq!(search.stage, SearchStage::AwaitPod);
        assert!(search.retry_after_stale_open);
    };

    // between the pod and the first look
    forwarder.sessions = filled(&[1]);
    let mut search = forwarder.ensure_session(8080);
    forwarder.pod_resolved(&mut search, Some(old.clone()));
    move_on(&mut forwarder);
    let r = forwarder.sessions_checked(&mut search, &vec![IDLE]);
    restarted(&r, &search);

    // between the looks
    forwarder.sessions = filled(&[1]);
    forwarder.pod_resolved(&mut search, Some(old.clone()));
    forwarder.sessions_checked(&mut search, &vec![full]);
    move_on(&mut forwarder);
    let r = forwarder.sessions_rechecked(&mut search, &vec![IDLE]);
    restarted(&r, &search);

    // while somebody else opens a session
    forwarder.sessions = filled(&[1]);
    forwarder.sessions.prefetch_in_flight = true;
    forwarder.pod_resolved(&mut search, Some(old));
    forwarder.sessions_checked(&mut search, &vec![full]);
    let r = forwarder.sessions_rechecked(&mut search, &vec![full]);
    assert!(matches!(at(&r), SearchStep::AwaitOpen));
    move_on(&mut forwarder);
    let r = forwarder.open_awaited(&mut search, &vec![IDLE]);
    restarted(&r, &search);

    // with the new pod the new session is found and the new pod reported
    forwarder.pod_resolved(&mut search, Some(new.clone()));
    let r = forwarder.sessions_checked(&mut search, &vec![IDLE]);
    match r.step {
        SearchStep::Done { session: 9, pod, fresh: false } => assert_eq!(pod, new),
        _ => panic!("expected the session to the new pod"),
    }
}

#[test]
fn a_second_shutdown_changes_nothing() {
    let (mut forwarder, _runtime) = waiting_forwarder();
    let search = opening(&mut forwarder, &ready("a", "uid-a"));
    forwarder.sessions.prefetch_in_flight = true;
    assert!(forwarder
        .sessions
        .install_if_current(&ready("a", "uid-a"), 8080, 4)
        .is_ok());
    assert_eq!(forwarder.shutdown(), vec![4]);
    for _ in 0..2 {
        assert!(forwarder.sessions.entries.is_empty());
        assert!(forwarder.sessions.snapshot.is_empty());
        assert!(forwarder.sessions.target.is_none());
        assert!(forwarder.sessions.prefetch_in_flight);
        assert_eq!(forwarder.sessions.opening_count, 1);
        assert!(forwarder.shutdown().is_empty());
    }
    forwarder.search_dropped(search);
    assert_eq!(forwarder.sessions.opening_count, 0);
}

#[test]
fn overlapping_opens_stay_within_twice_the_limit() {
    let (mut forwarder, _runtime) = waiting_forwarder();
    forwarder.config.max_sessions = 2;
    let target = ready("a", "uid-a");
    forwarder.sessions = filled(&[1]);
    let mut search = opening(&mut forwarder, &target);
    assert!(matches!(
        forwarder.prefetch_opened(&target, 8080, Ok(2)),
        PrefetchEnd::Installed
    ));
    forwarder.session_opened(&mut search, Ok(3));
    assert_eq!(seen(&forwarder.sessions), vec![1, 2, 3]);
    assert!(matches!(
        forwarder.prefetch_opened(&target, 8080, Ok(4)),
        PrefetchEnd::Cancel { session: 4 }
    ));
    let mut search = forwarder.ensure_session(9090);
    forwarder.pod_resolved(&mut search, Some(target));
    forwarder.sessions_checked(&mut search, &vec![IDLE; 3]);
    let r = forwarder.sessions_rechecked(&mut search, &vec![IDLE; 3]);
    assert!(matches!(
        at(&r),
        SearchStep::Failed(Error::CapacityExhausted { in_use: 3, capacity: 2 })
    ));
}

#[test]
fn a_tripped_token_refuses_connects_too() {
    let (mut forwarder, _runtime) = waiting_forwarder();
    forwarder.cancellation_token().cancel();
    assert!(!forwarder.closed);
    let (_, step) = forwarder.connect_on_pod(8080);
    assert!(matches!(step, ForwardStep::Failed(Error::Cancelled)));
    assert!(matches!(forwarder.wait_for_ready_pod(&vec![pod("waiting")]), WaitStep::Done(None)));
}

#[test]
fn a_search_goes_on_with_its_pod_unless_another_would_be_handed_out() {
    let (mut forwarder, _runtime) = waiting_forwarder();
    let (old, new) = (ready("a", "uid-a"), ready("a", "uid-b"));
    let full = SessionStatus { full: true, ..IDLE };
    let cancelled = SessionStatus { cancelled: true, ..IDLE };
    let mut search = forwarder.ensure_session(8080);
    for (session, last) in [(1, false), (2, true)] {
        forwarder.pod_resolved(&mut search, Some(old.clone()));
        // the pool moves on, to sessions that cannot be used at once
        forwarder.sessions.retarget(&new);
        assert!(forwarder.sessions.install_if_current(&new, 8080, 10).is_ok());
        assert!(forwarder.sessions.install_if_current(&new, 8080, 11).is_ok());
        assert!(forwarder.sessions.install_if_current(&new, 9090, 12).is_ok());
        let r = forwarder.sessions_checked(&mut search, &vec![cancelled, full, IDLE]);
        assert!(matches!(at(&r), SearchStep::CheckSessions));
        assert_eq!(r.cancel, vec![10]);
        let r = forwarder.sessions_rechecked(&mut search, &vec![full, IDLE]);
        assert!(matches!(at(&r), SearchStep::AcquirePermit));
        let r = forwarder.permit_settled(&mut search, PermitOutcome::Acquired);
        match at(&r) {
            SearchStep::OpenSession { pod, port: 8080 } => assert_eq!(*pod, old),
            _ => panic!("expected a session to the search's own pod"),
        }
        let r = forwarder.session_opened(&mut search, Ok(session));
        assert_eq!(r.cancel, vec![session]);
        assert!(!search.retry_after_stale_open);
        if last {
            assert!(matches!(at(&r), SearchStep::Failed(Error::Configuration(text))
                if text == "target pod changed while opening a session"));
        } else {
            assert!(matches!(at(&r), SearchStep::AwaitPod));
        }
        assert_eq!(forwarder.sessions.opening_count, 0);
    }
}
