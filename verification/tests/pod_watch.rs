use kube_portforward::error::Error;
use kube_portforward::pod_watch::{
    handle_deleted_pod, is_pod_selected, matches_selector, update_latest, Pod, PodChange,
    PodCondition, PodReadiness, PodSelector, PodStatus, PodWatcher, ReadyPod, ReflectorEvent,
    SubscriberEvent, WaitEvent, WaitStep, WatchAction,
};

fn mk_pod(name: &str, ready: bool, running: bool) -> Pod {
    mk_pod_full(name, None, ready, running, false)
}

fn mk_pod_full(name: &str, uid: Option<&str>, ready: bool, running: bool, terminating: bool) -> Pod {
    Pod {
        name: Some(name.to_string()),
        generate_name: None,
        uid: uid.map(str::to_string),
        terminating,
        status: Some(PodStatus {
            phase: Some(if running { "Running" } else { "Pending" }.to_string()),
            conditions: Some(vec![PodCondition {
                type_: "Ready".into(),
                status: if ready { "True" } else { "False" }.into(),
            }]),
        }),
    }
}

fn labels(selector: &str) -> PodSelector {
    PodSelector::Labels { selector: selector.to_string() }
}

fn watcher(selector: PodSelector) -> PodWatcher {
    PodWatcher::new(true, selector, PodReadiness::Ready).expect("subscribed")
}

fn is_ready(change: &Option<PodChange>, expected: &str) -> bool {
    matches!(change, Some(PodChange::Ready(name)) if name == expected)
}

fn is_died(change: &Option<PodChange>, expected: &str) -> bool {
    matches!(change, Some(PodChange::Died(name)) if name == expected)
}

#[test]
fn ready_running_pod_is_ready_for_labels_selector() {
    let pod = mk_pod("p1", true, true);
    assert!(is_pod_selected(&pod, &labels("app=x"), PodReadiness::Ready));
}

#[test]
fn not_running_pod_is_not_ready() {
    let pod = mk_pod("p1", true, false);
    assert!(!is_pod_selected(&pod, &labels(""), PodReadiness::Ready));
}

#[test]
fn name_selector_filters_by_name() {
    let pod = mk_pod("p1", true, true);
    assert!(is_pod_selected(&pod, &PodSelector::Name("p1".into()), PodReadiness::Ready));
    assert!(!is_pod_selected(&pod, &PodSelector::Name("p2".into()), PodReadiness::Ready));
}

#[test]
fn ready_condition_must_be_true() {
    let pod = mk_pod("p1", false, true);
    assert!(!is_pod_selected(&pod, &labels(""), PodReadiness::Ready));
}

#[test]
fn running_policy_accepts_running_pod_without_ready_condition() {
    let pod = mk_pod("p1", false, true);
    assert!(is_pod_selected(&pod, &labels(""), PodReadiness::Running));
}

#[test]
fn running_policy_rejects_non_running_pod() {
    let pod = mk_pod("p1", true, false);
    assert!(!is_pod_selected(&pod, &labels(""), PodReadiness::Running));
}

#[test]
fn running_policy_rejects_terminating_pod() {
    let pod = mk_pod_full("p1", None, true, true, true);
    assert!(!is_pod_selected(&pod, &labels(""), PodReadiness::Running));
}

#[test]
fn update_latest_detects_uid_replacement_of_same_named_pod() {
    let mut latest: Option<ReadyPod> = None;
    let selector = labels("");

    let first = mk_pod_full("p1", Some("uid-a"), true, true, false);
    let change = update_latest(&mut latest, &first, &selector, PodReadiness::Ready);
    assert_eq!(latest.as_ref().expect("first pod cached").uid.as_deref(), Some("uid-a"));
    assert!(is_ready(&change, "p1"));

    let replaced = mk_pod_full("p1", Some("uid-b"), true, true, false);
    let change = update_latest(&mut latest, &replaced, &selector, PodReadiness::Ready);
    assert_eq!(latest.as_ref().expect("replacement pod cached").uid.as_deref(), Some("uid-b"));
    assert!(is_ready(&change, "p1"));
}

#[test]
fn update_latest_is_a_noop_for_unchanged_pod() {
    let mut latest: Option<ReadyPod> = None;
    let selector = labels("");
    let pod = mk_pod_full("p1", Some("uid-a"), true, true, false);
    assert!(update_latest(&mut latest, &pod, &selector, PodReadiness::Ready).is_some());
    assert!(
        update_latest(&mut latest, &pod, &selector, PodReadiness::Ready).is_none(),
        "no change event for an unchanged pod"
    );
}

#[test]
fn ready_policy_rejects_terminating_pod() {
    let pod = mk_pod_full("p1", None, true, true, true);
    assert!(!is_pod_selected(&pod, &labels(""), PodReadiness::Ready));
}

#[test]
fn update_latest_keeps_current_target_when_a_different_pod_becomes_ready() {
    let mut latest: Option<ReadyPod> = None;
    let selector = labels("");
    let p1 = mk_pod_full("p1", Some("uid-a"), true, true, false);
    let change = update_latest(&mut latest, &p1, &selector, PodReadiness::Ready);
    assert!(is_ready(&change, "p1"));

    let p2 = mk_pod_full("p2", Some("uid-b"), true, true, false);
    let change = update_latest(&mut latest, &p2, &selector, PodReadiness::Ready);
    assert_eq!(latest.as_ref().expect("cache still populated").name, "p1");
    assert!(change.is_none(), "no Ready broadcast for a pod that didn't take over the target");
}

#[test]
fn ready_pod_falls_back_once_the_cached_target_stops_being_selectable() {
    let mut w = watcher(labels(""));
    let p1 = mk_pod_full("p1", Some("uid-a"), true, true, false);
    let p2 = mk_pod_full("p2", Some("uid-b"), true, true, false);
    assert!(matches!(w.subscriber_event(SubscriberEvent::Seen(p1.clone())), WatchAction::Announce(_)));
    assert!(matches!(w.subscriber_event(SubscriberEvent::Seen(p2.clone())), WatchAction::Next));

    // the order of the pods does not matter for a cached target
    let pods = vec![p2.clone(), p1];
    assert_eq!(w.ready_pod(&pods).expect("a ready pod").name, "p1");
    assert_eq!(w.ready_pod(&pods).expect("a ready pod").name, "p1");

    let p1_terminating = mk_pod_full("p1", Some("uid-a"), true, true, true);
    assert!(matches!(
        w.subscriber_event(SubscriberEvent::Seen(p1_terminating.clone())),
        WatchAction::Next
    ));
    let pods = vec![p1_terminating, p2];
    assert_eq!(w.ready_pod(&pods).expect("a ready pod").name, "p2");
    assert_eq!(w.latest_ready.as_ref().expect("cached").name, "p2");
    assert!(w.ready_pod(&Vec::new()).is_none());
    assert!(w.latest_ready.is_none());
}

#[test]
fn died_only_fires_for_the_currently_cached_pod() {
    let mut latest = Some(ReadyPod::new("p1".into(), Some("uid-a".into())));
    let change = handle_deleted_pod(&mut latest, "old-pod", &Some("uid-x".to_string()));
    assert!(change.is_none());
    assert_eq!(latest.as_ref().expect("cache untouched").name, "p1");

    let change = handle_deleted_pod(&mut latest, "p1", &Some("uid-a".to_string()));
    assert!(latest.is_none());
    assert!(is_died(&change, "p1"));
}

#[test]
fn handle_deleted_pod_ignores_a_stale_delete_for_a_replaced_uid() {
    let mut latest = Some(ReadyPod::new("p1".into(), Some("uid-b".into())));
    let change = handle_deleted_pod(&mut latest, "p1", &Some("uid-a".to_string()));
    assert!(change.is_none());
    assert_eq!(latest.as_ref().expect("cache untouched").uid.as_deref(), Some("uid-b"));

    let change = handle_deleted_pod(&mut latest, "p1", &Some("uid-b".to_string()));
    assert!(latest.is_none());
    assert!(is_died(&change, "p1"));
}

#[test]
fn snapshot_keeps_name_and_uid() {
    let pod = ReadyPod::new("p".to_string(), Some("u".to_string()));
    assert_eq!(pod.name, "p");
    assert_eq!(pod.uid.as_deref(), Some("u"));
    assert_eq!(pod.clone(), pod);
}

#[test]
fn pods_without_a_status_or_phase_are_not_selected() {
    let mut pod = mk_pod("p1", true, true);
    pod.status = None;
    assert!(!is_pod_selected(&pod, &labels(""), PodReadiness::Running));
    let mut pod = mk_pod("p1", true, true);
    pod.status.as_mut().unwrap().phase = None;
    assert!(!is_pod_selected(&pod, &labels(""), PodReadiness::Running));
    let mut pod = mk_pod("p1", true, true);
    pod.status.as_mut().unwrap().conditions = None;
    assert!(!is_pod_selected(&pod, &labels(""), PodReadiness::Ready));
    assert!(is_pod_selected(&pod, &labels(""), PodReadiness::Running));
    assert_eq!(PodReadiness::default(), PodReadiness::Ready);
}

#[test]
fn unnamed_pods_go_by_their_generated_name() {
    let mut pod = mk_pod("p1", true, true);
    pod.name = None;
    pod.generate_name = Some("web-".to_string());
    assert_eq!(pod.name_any(), "web-");
    assert!(matches_selector(&pod, &PodSelector::Name("web-".into())));
    pod.generate_name = None;
    assert_eq!(pod.name_any(), "");
}

#[test]
fn running_pods_and_identities_are_found() {
    let w = watcher(labels("app=x"));
    let unready = mk_pod_full("p1", Some("uid-a"), false, true, false);
    assert!(w.has_running_pods(&vec![unready.clone()]));
    assert!(!w.has_running_pods(&vec![mk_pod("p1", true, false)]));
    assert!(w.contains_identity(
        &vec![unready.clone()],
        &ReadyPod::new("p1".into(), Some("uid-a".into()))
    ));
    assert!(!w.contains_identity(
        &vec![unready],
        &ReadyPod::new("p1".into(), Some("uid-b".into()))
    ));
}

#[test]
fn the_watch_is_restricted_by_labels_only() {
    assert_eq!(watcher(labels("app=x")).label_expression().as_deref(), Some("app=x"));
    assert!(watcher(labels("")).label_expression().is_none());
    assert!(watcher(PodSelector::Name("p".into())).label_expression().is_none());
    match PodWatcher::new(false, labels(""), PodReadiness::Ready) {
        Err(Error::Configuration(text)) => {
            assert_eq!(text, "failed to create pod reflector subscriber");
        }
        _ => panic!("expected a configuration error"),
    }
}

#[test]
fn waiting_ends_with_the_first_ready_pod() {
    let mut w = watcher(labels(""));
    let none: Vec<Pod> = Vec::new();
    let pods = vec![mk_pod("p1", true, true)];
    assert!(matches!(w.wait_for_ready_pod(&none), WaitStep::Wait));
    let died = WaitEvent::Change(PodChange::Died("p0".into()));
    assert!(matches!(w.wait_event(died, &pods), WaitStep::Wait));
    let early = WaitEvent::Change(PodChange::Ready("p1".into()));
    assert!(matches!(w.wait_event(early, &none), WaitStep::Wait));
    match w.wait_event(WaitEvent::Lagged, &pods) {
        WaitStep::Done(Some(pod)) => assert_eq!(pod.name, "p1"),
        _ => panic!("expected a pod"),
    }
    assert!(matches!(w.wait_event(WaitEvent::Deadline, &pods), WaitStep::Done(None)));
    assert!(matches!(w.wait_event(WaitEvent::Cancelled, &pods), WaitStep::Done(None)));
    assert!(matches!(w.wait_event(WaitEvent::Closed, &pods), WaitStep::Done(None)));
    assert!(matches!(w.wait_for_ready_pod(&pods), WaitStep::Done(Some(_))));
    w.shutdown();
    w.shutdown();
    assert!(w.cancel.is_cancelled());
    assert!(matches!(w.wait_for_ready_pod(&pods), WaitStep::Done(None)));
}

#[test]
fn the_watch_loops_follow_their_events() {
    let mut w = watcher(labels(""));
    let pod = mk_pod_full("p1", Some("uid-a"), true, true, false);
    match w.subscriber_event(SubscriberEvent::Seen(pod)) {
        WatchAction::Announce(change) => assert!(is_ready(&Some(change), "p1")),
        _ => panic!("expected an announcement"),
    }
    assert!(matches!(w.subscriber_event(SubscriberEvent::Ended), WatchAction::Stop));
    assert!(matches!(w.subscriber_event(SubscriberEvent::Cancelled), WatchAction::Stop));
    assert!(matches!(w.reflector_event(ReflectorEvent::Other), WatchAction::Next));
    assert!(matches!(w.reflector_event(ReflectorEvent::Failed), WatchAction::Pause));
    let stale = ReflectorEvent::Deleted { name: "p1".into(), uid: Some("uid-z".into()) };
    assert!(matches!(w.reflector_event(stale), WatchAction::Next));
    let deleted = ReflectorEvent::Deleted { name: "p1".into(), uid: Some("uid-a".into()) };
    match w.reflector_event(deleted) {
        WatchAction::Announce(change) => assert!(is_died(&Some(change), "p1")),
        _ => panic!("expected an announcement"),
    }
    assert!(w.latest_ready.is_none());
    assert!(matches!(w.reflector_event(ReflectorEvent::Ended), WatchAction::Stop));
    assert!(matches!(w.reflector_event(ReflectorEvent::Cancelled), WatchAction::Stop));
}
