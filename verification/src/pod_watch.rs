//! Pod watching: which pod a port-forward goes to.
//!
//! The watcher resolves a [`PodSelector`] to a currently ready pod. It keeps
//! to a target as long as that one can be used. Watching the cluster is left
//! to the caller: it hands in the pods it sees and passes on the changes.
use crate::error::Error;
use crate::text::clone_opt;
use crate::text::opt_str_eq;
use crate::text::opt_text;
use crate::text::str_eq;
use tokio_util::sync::CancellationToken;
use vstd::prelude::*;

verus! {

/// Seconds to wait after the watch reported an error.
pub const REFLECTOR_PAUSE_SECS: u64 = 1;

/// Pod selection strategy.
#[derive(Debug, Clone)]
#[non_exhaustive]
pub enum PodSelector {
    /// Match a single pod by exact name.
    Name(String),
    /// Match pods by a Kubernetes label selector expression
    /// (e.g. `app=nginx,tier=frontend`).
    Labels { selector: String },
}

/// Policy selecting which pods are considered targetable.
#[derive(Clone, Copy, Debug, PartialEq, Eq, Structural)]
#[non_exhaustive]
pub enum PodReadiness {
    /// Pod phase is `Running`, its `Ready` condition is `True`, and it is not
    /// terminating.
    Ready,
    /// Pod phase is `Running` and the pod is not terminating, regardless of
    /// its `Ready` condition. Useful to detect a pod mid-rollout before its
    /// readiness probe passes.
    Running,
}

impl Default for PodReadiness {
    fn default() -> (r: PodReadiness)
        ensures
            r == PodReadiness::Ready,
    {
        PodReadiness::Ready
    }
}

/// Pod lifecycle change sent to subscribers.
#[derive(Debug, Clone)]
#[non_exhaustive]
pub enum PodChange {
    /// A pod matching the selector became ready (or replaced a previously
    /// ready pod). Has the new pod name.
    Ready(String),
    /// The previously ready pod was deleted. Has the dead pod name.
    Died(String),
}

/// Snapshot of the currently ready pod.
#[derive(Debug, PartialEq, Eq)]
#[non_exhaustive]
pub struct ReadyPod {
    pub name: String,
    pub uid: Option<String>,
}

/// What tells pods apart.
#[verifier::ext_equal]
pub struct PodIdentity {
    pub name: Seq<char>,
    pub uid: Option<Seq<char>>,
}

impl View for ReadyPod {
    type V = PodIdentity;

    open spec fn view(&self) -> PodIdentity {
        PodIdentity { name: self.name@, uid: opt_text(self.uid) }
    }
}

impl ReadyPod {
    /// Creates a snapshot.
    pub fn new(name: String, uid: Option<String>) -> (r: ReadyPod)
        ensures
            r.name == name,
            r.uid == uid,
    {
        ReadyPod { name, uid }
    }
}

impl Clone for ReadyPod {
    fn clone(&self) -> (r: ReadyPod)
        ensures
            r@ == self@,
    {
        ReadyPod { name: self.name.clone(), uid: clone_opt(&self.uid) }
    }
}

/// The identity of an optional snapshot.
pub open spec fn identity(pod: Option<ReadyPod>) -> Option<PodIdentity> {
    match pod {
        Some(p) => Some(p@),
        None => None,
    }
}

/// A condition of a pod.
#[derive(Debug, Clone)]
pub struct PodCondition {
    pub type_: String,
    pub status: String,
}

/// The status of a pod.
#[derive(Debug, Clone)]
pub struct PodStatus {
    pub phase: Option<String>,
    pub conditions: Option<Vec<PodCondition>>,
}

/// What is looked at in a pod.
#[derive(Debug, Clone)]
pub struct Pod {
    pub name: Option<String>,
    pub generate_name: Option<String>,
    pub uid: Option<String>,
    /// The pod has a deletion timestamp.
    pub terminating: bool,
    pub status: Option<PodStatus>,
}

/// Whether a condition says that the pod is ready.
pub open spec fn says_ready(condition: PodCondition) -> bool {
    condition.type_@ == "Ready"@ && condition.status@ == "True"@
}

impl Pod {
    /// The name, or what it is generated from, or nothing.
    pub open spec fn any_name(self) -> Seq<char> {
        match (self.name, self.generate_name) {
            (Some(name), _) => name@,
            (None, Some(prefix)) => prefix@,
            (None, None) => Seq::empty(),
        }
    }

    /// What tells this pod from others.
    pub open spec fn identity(self) -> PodIdentity {
        PodIdentity { name: self.any_name(), uid: opt_text(self.uid) }
    }

    /// The pod's phase is `Running`.
    pub open spec fn is_running(self) -> bool {
        self.status matches Some(status) && opt_text(status.phase) == Some("Running"@)
    }

    /// One of the pod's conditions says that it is ready.
    pub open spec fn has_ready_condition(self) -> bool {
        self.status matches Some(status) && status.conditions matches Some(conditions)
            && exists|i: int| 0 <= i < conditions@.len() && says_ready(#[trigger] conditions@[i])
    }

    /// The selector picks this pod and the policy admits it.
    pub open spec fn selected(self, selector: PodSelector, readiness: PodReadiness) -> bool {
        &&& selector matches PodSelector::Name(name) ==> self.any_name() == name@
        &&& self.is_running()
        &&& !self.terminating
        &&& readiness is Ready ==> self.has_ready_condition()
    }

    /// The name, or what it is generated from, or nothing.
    pub fn name_any(&self) -> (r: String)
        ensures
            r@ == self.any_name(),
    {
        match (&self.name, &self.generate_name) {
            (Some(name), _) => name.clone(),
            (None, Some(prefix)) => prefix.clone(),
            (None, None) => {
                proof {
                    reveal_strlit("");
                }
                "".to_owned()
            },
        }
    }

    /// A snapshot of this pod's identity.
    fn snapshot(&self) -> (r: ReadyPod)
        ensures
            r@ == self.identity(),
    {
        ReadyPod { name: self.name_any(), uid: clone_opt(&self.uid) }
    }

    /// Whether this pod has the name and uid.
    fn is_identified(&self, name: &str, uid: &Option<String>) -> (r: bool)
        ensures
            r == (self.identity() == PodIdentity { name: name@, uid: opt_text(*uid) }),
    {
        str_eq(self.name_any().as_str(), name) && opt_str_eq(&self.uid, uid)
    }
}

/// Whether the selector picks the pod. A label selector is applied by the
/// watch itself.
pub fn matches_selector(pod: &Pod, selector: &PodSelector) -> (r: bool)
    ensures
        r == (*selector matches PodSelector::Name(name) ==> pod.any_name() == name@),
{
    match selector {
        PodSelector::Name(name) => str_eq(pod.name_any().as_str(), name.as_str()),
        PodSelector::Labels { .. } => true,
    }
}

fn any_ready(conditions: &Vec<PodCondition>) -> (r: bool)
    ensures
        r == exists|i: int| 0 <= i < conditions@.len() && says_ready(#[trigger] conditions@[i]),
{
    let mut i: usize = 0;
    while i < conditions.len()
        invariant
            i <= conditions@.len(),
            forall|j: int| 0 <= j < i ==> !says_ready(#[trigger] conditions@[j]),
        decreases conditions@.len() - i,
    {
        if str_eq(conditions[i].type_.as_str(), "Ready") && str_eq(
            conditions[i].status.as_str(),
            "True",
        ) {
            assert(says_ready(conditions@[i as int]));
            return true;
        }
        i = i + 1;
    }
    false
}

/// Whether `pod` matches `selector` and satisfies `readiness`.
pub fn is_pod_selected(pod: &Pod, selector: &PodSelector, readiness: PodReadiness) -> (r: bool)
    ensures
        r == pod.selected(*selector, readiness),
{
    if !matches_selector(pod, selector) {
        return false;
    }
    let status = match &pod.status {
        Some(status) => status,
        None => {
            return false;
        },
    };
    let running = match &status.phase {
        Some(phase) => str_eq(phase.as_str(), "Running"),
        None => false,
    };
    if !running {
        return false;
    }
    match readiness {
        PodReadiness::Running => !pod.terminating,
        PodReadiness::Ready => !pod.terminating && match &status.conditions {
            Some(conditions) => any_ready(conditions),
            None => false,
        },
    }
}

/// The target after a pod was seen: an empty cache takes a selected pod, and
/// a pod that was recreated under the target's name replaces it.
pub open spec fn target_after_seen(
    latest: Option<PodIdentity>,
    pod: Pod,
    selector: PodSelector,
    readiness: PodReadiness,
) -> Option<PodIdentity> {
    if !pod.selected(selector, readiness) {
        latest
    } else {
        match latest {
            Some(current) => if current.name == pod.any_name() {
                Some(pod.identity())
            } else {
                latest
            },
            None => Some(pod.identity()),
        }
    }
}

/// The change to announce when the target moves from `before` to `after`: a
/// new target is announced by name.
pub open spec fn announces_target(
    before: Option<PodIdentity>,
    after: Option<PodIdentity>,
    change: Option<PodChange>,
) -> bool {
    if after == before {
        change is None
    } else {
        change matches Some(PodChange::Ready(name)) && after matches Some(pod) && name@ == pod.name
    }
}

/// Takes notice of a pod. The result is the change to announce.
pub fn update_latest(
    latest: &mut Option<ReadyPod>,
    pod: &Pod,
    selector: &PodSelector,
    readiness: PodReadiness,
) -> (change: Option<PodChange>)
    ensures
        identity(*final(latest)) == target_after_seen(
            identity(*old(latest)),
            *pod,
            *selector,
            readiness,
        ),
        announces_target(identity(*old(latest)), identity(*final(latest)), change),
{
    if !is_pod_selected(pod, selector, readiness) {
        return None;
    }
    let name = pod.name_any();
    let changed = match &*latest {
        Some(current) => if str_eq(current.name.as_str(), name.as_str()) {
            !opt_str_eq(&current.uid, &pod.uid)
        } else {
            false
        },
        None => true,
    };
    if changed {
        *latest = Some(pod.snapshot());
        Some(PodChange::Ready(name))
    } else {
        None
    }
}

/// Takes notice of a deleted pod. Only the death of the current target counts:
/// it empties the cache and is announced.
pub fn handle_deleted_pod(
    latest: &mut Option<ReadyPod>,
    name: &str,
    uid: &Option<String>,
) -> (change: Option<PodChange>)
    ensures
        if identity(*old(latest)) == Some(PodIdentity { name: name@, uid: opt_text(*uid) }) {
            &&& *final(latest) is None
            &&& change matches Some(PodChange::Died(dead)) && dead@ == name@
        } else {
            &&& *final(latest) == *old(latest)
            &&& change is None
        },
{
    let died = match &*latest {
        Some(current) => str_eq(current.name.as_str(), name) && opt_str_eq(&current.uid, uid),
        None => false,
    };
    if died {
        *latest = None;
        Some(PodChange::Died(name.to_owned()))
    } else {
        None
    }
}

/// Tracks the currently ready pod that matches a [`PodSelector`].
pub struct PodWatcher {
    /// The current target.
    pub latest_ready: Option<ReadyPod>,
    pub selector: PodSelector,
    pub readiness: PodReadiness,
    pub cancel: CancellationToken,
    /// The watch was ended by [`shutdown`](PodWatcher::shutdown).
    pub closed: bool,
}

/// Whether one of the pods is selected and has the identity.
pub open spec fn has_selected(
    pods: Seq<Pod>,
    selector: PodSelector,
    readiness: PodReadiness,
    id: PodIdentity,
) -> bool {
    exists|i: int|
        0 <= i < pods.len() && (#[trigger] pods[i]).selected(selector, readiness)
            && pods[i].identity() == id
}

/// The first selected pod.
pub open spec fn first_selected(
    pods: Seq<Pod>,
    selector: PodSelector,
    readiness: PodReadiness,
) -> Option<PodIdentity>
    decreases pods.len(),
{
    if pods.len() == 0 {
        None
    } else {
        match first_selected(pods.drop_last(), selector, readiness) {
            Some(id) => Some(id),
            None => if pods.last().selected(selector, readiness) {
                Some(pods.last().identity())
            } else {
                None
            },
        }
    }
}

/// The pod to use: the current target where it is still selected, else the
/// first selected pod.
pub open spec fn choose_target(
    current: Option<PodIdentity>,
    pods: Seq<Pod>,
    selector: PodSelector,
    readiness: PodReadiness,
) -> Option<PodIdentity> {
    match current {
        Some(id) => if has_selected(pods, selector, readiness, id) {
            current
        } else {
            first_selected(pods, selector, readiness)
        },
        None => first_selected(pods, selector, readiness),
    }
}

/// How waiting for a ready pod goes on.
pub enum WaitStep {
    /// Wait for the next event.
    Wait,
    /// The wait is over.
    Done(Option<ReadyPod>),
}

/// What can happen while waiting for a ready pod.
pub enum WaitEvent {
    Cancelled,
    Deadline,
    Change(PodChange),
    /// Some changes were missed.
    Lagged,
    /// No further changes will come.
    Closed,
}

/// What can happen in the watch.
pub enum ReflectorEvent {
    Cancelled,
    Deleted { name: String, uid: Option<String> },
    Other,
    Failed,
    Ended,
}

/// What the subscription to the watch can bring.
pub enum SubscriberEvent {
    Cancelled,
    Seen(Pod),
    Ended,
}

/// How a watch loop goes on.
pub enum WatchAction {
    /// Leave the loop.
    Stop,
    /// Wait for the next event.
    Next,
    /// Announce the change, then wait for the next event.
    Announce(PodChange),
    /// Wait [`REFLECTOR_PAUSE_SECS`], or until cancelled, then go on.
    Pause,
}

impl PodWatcher {
    /// A watcher without a target. `subscribed` tells whether the watch can
    /// be subscribed to.
    pub fn new(subscribed: bool, selector: PodSelector, readiness: PodReadiness) -> (r: Result<
        PodWatcher,
        Error,
    >)
        ensures
            match r {
                Ok(w) => {
                    &&& subscribed
                    &&& w.latest_ready is None
                    &&& w.selector == selector
                    &&& w.readiness == readiness
                    &&& !w.closed
                },
                Err(e) => !subscribed && e.is_configuration(
                    "failed to create pod reflector subscriber"@,
                ),
            },
    {
        if !subscribed {
            return Err(
                Error::Configuration("failed to create pod reflector subscriber".to_owned()),
            );
        }
        Ok(
            PodWatcher {
                latest_ready: None,
                selector,
                readiness,
                cancel: CancellationToken::new(),
                closed: false,
            },
        )
    }

    /// The label expression that the watch is restricted to. A pod name is
    /// looked for among all pods.
    pub fn label_expression(&self) -> (r: Option<String>)
        ensures
            match self.selector {
                PodSelector::Labels { selector } => if selector@.len() == 0 {
                    r is None
                } else {
                    opt_text(r) == Some(selector@)
                },
                _ => r is None,
            },
    {
        match &self.selector {
            PodSelector::Labels { selector } => if selector.as_str().unicode_len() == 0 {
                None
            } else {
                Some(selector.clone())
            },
            PodSelector::Name(_) => None,
        }
    }

    /// Whether everything but the target is as in `other`.
    pub open spec fn same_watch(self, other: PodWatcher) -> bool {
        &&& self.selector == other.selector
        &&& self.readiness == other.readiness
        &&& self.cancel == other.cancel
        &&& self.closed == other.closed
    }

    /// What the end of the watch does: only that it ended.
    pub open spec fn ended(self, after: PodWatcher) -> bool {
        after == (PodWatcher { closed: true, ..self })
    }

    /// The target that the pods give.
    pub open spec fn target(self, pods: Seq<Pod>) -> Option<PodIdentity> {
        choose_target(identity(self.latest_ready), pods, self.selector, self.readiness)
    }

    /// Returns the currently ready pod, if any. Single scan of the pods.
    pub fn ready_pod(&mut self, pods: &Vec<Pod>) -> (r: Option<ReadyPod>)
        ensures
            identity(r) == old(self).target(pods@),
            identity(final(self).latest_ready) == old(self).target(pods@),
            final(self).same_watch(*old(self)),
    {
        let mut first_ready: Option<ReadyPod> = None;
        let mut i: usize = 0;
        assert(pods@.take(0) =~= Seq::empty());
        while i < pods.len()
            invariant
                *self == *old(self),
                i <= pods@.len(),
                identity(first_ready) == first_selected(
                    pods@.take(i as int),
                    self.selector,
                    self.readiness,
                ),
                self.latest_ready matches Some(c) ==> forall|j: int|
                    0 <= j < i ==> !((#[trigger] pods@[j]).selected(self.selector, self.readiness)
                        && pods@[j].identity() == c@),
            decreases pods@.len() - i,
        {
            assert(pods@.take(i + 1).drop_last() =~= pods@.take(i as int));
            let pod = &pods[i];
            if is_pod_selected(pod, &self.selector, self.readiness) {
                if let Some(c) = &self.latest_ready {
                    if pod.is_identified(c.name.as_str(), &c.uid) {
                        assert(pods@[i as int].identity() == c@);
                        assert(has_selected(pods@, self.selector, self.readiness, c@));
                        return Some(c.clone());
                    }
                }
                if first_ready.is_none() {
                    first_ready = Some(pod.snapshot());
                }
            }
            i = i + 1;
        }
        assert(pods@.take(i as int) =~= pods@);
        match first_ready {
            Some(ready) => {
                self.latest_ready = Some(ready.clone());
                Some(ready)
            },
            None => {
                self.latest_ready = None;
                None
            },
        }
    }

    /// Whether a selected pod is running and not terminating, regardless of
    /// the watcher's own policy. Useful to detect a pending rollout.
    pub fn has_running_pods(&self, pods: &Vec<Pod>) -> (r: bool)
        ensures
            r == exists|i: int|
                0 <= i < pods@.len() && (#[trigger] pods@[i]).selected(
                    self.selector,
                    PodReadiness::Running,
                ),
    {
        let mut i: usize = 0;
        while i < pods.len()
            invariant
                i <= pods@.len(),
                forall|j: int|
                    0 <= j < i ==> !(#[trigger] pods@[j]).selected(
                        self.selector,
                        PodReadiness::Running,
                    ),
            decreases pods@.len() - i,
        {
            if is_pod_selected(&pods[i], &self.selector, PodReadiness::Running) {
                assert(pods@[i as int].selected(self.selector, PodReadiness::Running));
                return true;
            }
            i = i + 1;
        }
        false
    }

    /// Whether a pod with this identity is still there, ready or not.
    pub fn contains_identity(&self, pods: &Vec<Pod>, pod: &ReadyPod) -> (r: bool)
        ensures
            r == exists|i: int| 0 <= i < pods@.len() && (#[trigger] pods@[i]).identity() == pod@,
    {
        let mut i: usize = 0;
        while i < pods.len()
            invariant
                i <= pods@.len(),
                forall|j: int| 0 <= j < i ==> (#[trigger] pods@[j]).identity() != pod@,
            decreases pods@.len() - i,
        {
            if pods[i].is_identified(pod.name.as_str(), &pod.uid) {
                assert(pods@[i as int].identity() == pod@);
                return true;
            }
            i = i + 1;
        }
        false
    }

    /// What the start of a wait does.
    pub open spec fn wait_began(
        self,
        cancelled: bool,
        pods: Seq<Pod>,
        after: PodWatcher,
        step: WaitStep,
    ) -> bool {
        if cancelled {
            step == WaitStep::Done(None) && after == self
        } else {
            self.looked(pods, after, step)
        }
    }

    /// What a look at the pods does to a wait: it ends with a target, and
    /// goes on without one.
    pub open spec fn looked(self, pods: Seq<Pod>, after: PodWatcher, step: WaitStep) -> bool {
        &&& after.same_watch(self)
        &&& identity(after.latest_ready) == self.target(pods)
        &&& match self.target(pods) {
            Some(id) => step matches WaitStep::Done(Some(pod)) && pod@ == id,
            None => step is Wait,
        }
    }

    /// What an event does to a wait.
    pub open spec fn waited(
        self,
        event: WaitEvent,
        pods: Seq<Pod>,
        after: PodWatcher,
        step: WaitStep,
    ) -> bool {
        match event {
            WaitEvent::Change(PodChange::Ready(_)) => self.looked(pods, after, step),
            WaitEvent::Lagged => self.looked(pods, after, step),
            WaitEvent::Change(PodChange::Died(_)) => step is Wait && after == self,
            _ => step == WaitStep::Done(None) && after == self,
        }
    }

    fn look(&mut self, pods: &Vec<Pod>) -> (step: WaitStep)
        ensures
            old(self).looked(pods@, *final(self), step),
    {
        match self.ready_pod(pods) {
            Some(pod) => WaitStep::Done(Some(pod)),
            None => WaitStep::Wait,
        }
    }

    /// Begins to wait until a ready pod shows up, where `cancelled` tells
    /// whether the watcher was shut down.
    pub fn begin_wait(&mut self, cancelled: bool, pods: &Vec<Pod>) -> (step: WaitStep)
        ensures
            old(self).wait_began(cancelled, pods@, *final(self), step),
    {
        if cancelled {
            return WaitStep::Done(None);
        }
        self.look(pods)
    }

    /// Begins to wait until a ready pod shows up. After a
    /// [`shutdown`](PodWatcher::shutdown) none will; whether the token was
    /// cancelled otherwise, it tells. See
    /// [`begin_wait`](PodWatcher::begin_wait).
    pub fn wait_for_ready_pod(&mut self, pods: &Vec<Pod>) -> (step: WaitStep)
        ensures
            exists|cancelled: bool| #[trigger]
                old(self).wait_began(cancelled, pods@, *final(self), step),
            old(self).closed ==> step == WaitStep::Done(None) && *final(self) == *old(self),
    {
        let tripped = self.cancel.is_cancelled();
        let cancelled = self.closed || tripped;
        self.begin_wait(cancelled, pods)
    }

    /// Goes on waiting. A pod that became ready is looked for, also after
    /// missed changes; a shutdown, the deadline and the end of the changes
    /// end the wait without a pod.
    pub fn wait_event(&mut self, event: WaitEvent, pods: &Vec<Pod>) -> (step: WaitStep)
        ensures
            old(self).waited(event, pods@, *final(self), step),
    {
        match event {
            WaitEvent::Change(PodChange::Ready(_)) => self.look(pods),
            WaitEvent::Lagged => self.look(pods),
            WaitEvent::Change(PodChange::Died(_)) => WaitStep::Wait,
            WaitEvent::Cancelled => WaitStep::Done(None),
            WaitEvent::Deadline => WaitStep::Done(None),
            WaitEvent::Closed => WaitStep::Done(None),
        }
    }

    /// Takes an event of the watch.
    pub fn reflector_event(&mut self, event: ReflectorEvent) -> (action: WatchAction)
        ensures
            final(self).same_watch(*old(self)),
            match event {
                ReflectorEvent::Cancelled => action is Stop,
                ReflectorEvent::Ended => action is Stop,
                ReflectorEvent::Failed => action is Pause,
                ReflectorEvent::Other => action is Next,
                ReflectorEvent::Deleted { name, uid } => if identity(old(self).latest_ready)
                    == Some(PodIdentity { name: name@, uid: opt_text(uid) }) {
                    &&& final(self).latest_ready is None
                    &&& action matches WatchAction::Announce(PodChange::Died(dead)) && dead@
                        == name@
                } else {
                    &&& final(self).latest_ready == old(self).latest_ready
                    &&& action is Next
                },
            },
            !(event is Deleted) ==> final(self).latest_ready == old(self).latest_ready,
    {
        match event {
            ReflectorEvent::Cancelled => WatchAction::Stop,
            ReflectorEvent::Ended => WatchAction::Stop,
            ReflectorEvent::Failed => WatchAction::Pause,
            ReflectorEvent::Other => WatchAction::Next,
            ReflectorEvent::Deleted { name, uid } => match handle_deleted_pod(
                &mut self.latest_ready,
                name.as_str(),
                &uid,
            ) {
                Some(change) => WatchAction::Announce(change),
                None => WatchAction::Next,
            },
        }
    }

    /// Takes an event of the subscription to the watch.
    pub fn subscriber_event(&mut self, event: SubscriberEvent) -> (action: WatchAction)
        ensures
            final(self).same_watch(*old(self)),
            match event {
                SubscriberEvent::Seen(pod) => {
                    let before = identity(old(self).latest_ready);
                    let after = identity(final(self).latest_ready);
                    &&& after == target_after_seen(
                        before,
                        pod,
                        old(self).selector,
                        old(self).readiness,
                    )
                    &&& match action {
                        WatchAction::Next => announces_target(before, after, None),
                        WatchAction::Announce(change) => announces_target(
                            before,
                            after,
                            Some(change),
                        ),
                        _ => false,
                    }
                },
                _ => action is Stop && final(self).latest_ready == old(self).latest_ready,
            },
    {
        match event {
            SubscriberEvent::Cancelled => WatchAction::Stop,
            SubscriberEvent::Ended => WatchAction::Stop,
            SubscriberEvent::Seen(pod) => match update_latest(
                &mut self.latest_ready,
                &pod,
                &self.selector,
                self.readiness,
            ) {
                Some(change) => WatchAction::Announce(change),
                None => WatchAction::Next,
            },
        }
    }

    /// Ends the watch. Idempotent.
    pub fn shutdown(&mut self)
        ensures
            old(self).ended(*final(self)),
    {
        self.cancel.cancel();
        self.closed = true;
    }
}

/// The first selected pod is a selected pod, and there is one whenever any
/// pod is selected.
proof fn lemma_first_selected(pods: Seq<Pod>, selector: PodSelector, readiness: PodReadiness)
    ensures
        match first_selected(pods, selector, readiness) {
            Some(id) => has_selected(pods, selector, readiness, id),
            None => forall|i: int|
                0 <= i < pods.len() ==> !(#[trigger] pods[i]).selected(selector, readiness),
        },
    decreases pods.len(),
{
    if pods.len() > 0 {
        lemma_first_selected(pods.drop_last(), selector, readiness);
        match first_selected(pods.drop_last(), selector, readiness) {
            Some(id) => {
                let i = choose|i: int|
                    0 <= i < pods.drop_last().len() && (#[trigger] pods.drop_last()[i]).selected(
                        selector,
                        readiness,
                    ) && pods.drop_last()[i].identity() == id;
                assert(pods[i].selected(selector, readiness) && pods[i].identity() == id);
            },
            None => {
                assert forall|i: int| 0 <= i < pods.len() - 1 implies !(
                #[trigger] pods[i]).selected(selector, readiness) by {
                    assert(pods.drop_last()[i] == pods[i]);
                }
                if pods.last().selected(selector, readiness) {
                    assert(pods[pods.len() - 1].selected(selector, readiness));
                }
            },
        }
    }
}

/// The target is always a selected pod that is there, and there is one
/// whenever any pod is selected.
pub proof fn law_target_is_selected(
    current: Option<PodIdentity>,
    pods: Seq<Pod>,
    selector: PodSelector,
    readiness: PodReadiness,
)
    ensures
        match choose_target(current, pods, selector, readiness) {
            Some(id) => has_selected(pods, selector, readiness, id),
            None => forall|i: int|
                0 <= i < pods.len() ==> !(#[trigger] pods[i]).selected(selector, readiness),
        },
{
    lemma_first_selected(pods, selector, readiness);
}

/// A target is kept as long as it can be used: looking again gives the same
/// pod, and so does looking after any change of the other pods.
pub proof fn law_target_is_kept(
    current: Option<PodIdentity>,
    pods: Seq<Pod>,
    later: Seq<Pod>,
    selector: PodSelector,
    readiness: PodReadiness,
)
    ensures
        ({
            let target = choose_target(current, pods, selector, readiness);
            &&& choose_target(target, pods, selector, readiness) == target
            &&& (target matches Some(id) && has_selected(later, selector, readiness, id))
                ==> choose_target(target, later, selector, readiness) == target
        }),
{
    lemma_first_selected(pods, selector, readiness);
}

/// Seeing the same pod twice announces nothing the second time, and a pod
/// other than the target never takes over.
pub proof fn law_seeing_a_pod_again_changes_nothing(
    latest: Option<PodIdentity>,
    pod: Pod,
    selector: PodSelector,
    readiness: PodReadiness,
)
    ensures
        ({
            let after = target_after_seen(latest, pod, selector, readiness);
            &&& target_after_seen(after, pod, selector, readiness) == after
            &&& (latest matches Some(current) && current.name != pod.any_name()) ==> after == latest
            &&& !pod.selected(selector, readiness) ==> after == latest
            &&& latest is Some ==> after is Some && after->Some_0.name == latest->Some_0.name
        }),
{
}

/// Every pod that the strict policy admits, the lax policy admits too.
pub proof fn law_ready_implies_running(pod: Pod, selector: PodSelector)
    requires
        pod.selected(selector, PodReadiness::Ready),
    ensures
        pod.selected(selector, PodReadiness::Running),
{
}

/// Under the strict policy a selected pod has a condition of type `Ready`
/// whose status is `True`, in these very fields. Where no condition of that
/// type has that status the pod is not selected, whatever its other
/// conditions say; conditions of other types never matter.
pub proof fn law_readiness_comes_from_the_ready_condition(
    pod: Pod,
    status: PodStatus,
    conditions: Vec<PodCondition>,
    selector: PodSelector,
)
    requires
        pod.status == Some(status),
        status.conditions == Some(conditions),
    ensures
        pod.selected(selector, PodReadiness::Ready) ==> exists|i: int|
            0 <= i < conditions@.len() && (#[trigger] conditions@[i]).type_@ == "Ready"@
                && conditions@[i].status@ == "True"@,
        pod.selected(selector, PodReadiness::Running) && !pod.selected(selector, PodReadiness::Ready)
            ==> forall|i: int|
            0 <= i < conditions@.len() && (#[trigger] conditions@[i]).type_@ == "Ready"@
                ==> conditions@[i].status@ != "True"@,
{
    if pod.selected(selector, PodReadiness::Ready) {
        let i = choose|i: int|
            0 <= i < conditions@.len() && says_ready(#[trigger] conditions@[i]);
        assert(conditions@[i].type_@ == "Ready"@ && conditions@[i].status@ == "True"@);
    }
    if pod.selected(selector, PodReadiness::Running) && !pod.selected(selector, PodReadiness::Ready) {
        assert forall|i: int|
            0 <= i < conditions@.len() && (#[trigger] conditions@[i]).type_@
                == "Ready"@ implies conditions@[i].status@ != "True"@ by {
            if conditions@[i].status@ == "True"@ {
                let own = pod.status->Some_0.conditions->Some_0;
                assert(own == conditions);
                assert(says_ready(own@[i]));
                assert(pod.has_ready_condition());
            }
        }
    }
}

/// Under either policy a selected pod is in the phase `Running`, has no
/// deletion timestamp and, where a name is asked for, bears that name. A pod
/// for which all this holds is selected under the lax policy. A pod without a
/// status, a phase or, under the strict policy, conditions is not selected.
pub proof fn law_selected_pods_run_and_stay(pod: Pod, selector: PodSelector, readiness: PodReadiness)
    ensures
        pod.selected(selector, readiness) ==> {
            &&& !pod.terminating
            &&& pod.status matches Some(status) && status.phase matches Some(phase) && phase@
                == "Running"@
        },
        selector matches PodSelector::Name(name) ==> (pod.selected(selector, readiness) ==> {
            &&& pod.name matches Some(own) ==> own@ == name@
            &&& pod.name is None ==> (pod.generate_name matches Some(prefix) ==> prefix@ == name@)
            &&& pod.name is None && pod.generate_name is None ==> name@.len() == 0
        }),
        readiness is Ready && pod.selected(selector, readiness) ==> {
            pod.status matches Some(status) && status.conditions is Some
        },
        ({
            &&& !pod.terminating
            &&& pod.status matches Some(status) && status.phase matches Some(phase) && phase@
                == "Running"@
            &&& selector is Labels || (selector matches PodSelector::Name(name)
                && pod.name matches Some(own) && own@ == name@)
        }) ==> pod.selected(selector, PodReadiness::Running),
{
}

/// Which pod is which goes by the name and the uid together: a pod that was
/// recreated under the same name is another one.
pub proof fn law_identity_is_name_and_uid(pod: Pod, other: Pod, name: String, other_name: String)
    requires
        pod.name == Some(name),
        other.name == Some(other_name),
    ensures
        pod.identity() == other.identity() <==> name@ == other_name@ && opt_text(pod.uid)
            == opt_text(other.uid),
        pod.uid matches Some(uid) ==> (other.uid matches Some(other_uid) ==> (uid@ != other_uid@
            ==> pod.identity() != other.identity())),
        pod.uid is Some && other.uid is None ==> pod.identity() != other.identity(),
{
}

/// Without a target that can be kept, the first selected pod becomes the
/// target: every pod before it is not selected.
pub proof fn law_first_selected_pod_wins(
    pods: Seq<Pod>,
    selector: PodSelector,
    readiness: PodReadiness,
    i: int,
)
    requires
        0 <= i < pods.len(),
        pods[i].selected(selector, readiness),
        forall|j: int| 0 <= j < i ==> !(#[trigger] pods[j]).selected(selector, readiness),
    ensures
        choose_target(None, pods, selector, readiness) == Some(pods[i].identity()),
        forall|current: PodIdentity|
            (forall|j: int|
                0 <= j < pods.len() && (#[trigger] pods[j]).selected(selector, readiness)
                    ==> pods[j].identity() != current) ==> #[trigger] choose_target(
                Some(current),
                pods,
                selector,
                readiness,
            ) == Some(pods[i].identity()),
{
    lemma_first_selected_at(pods, selector, readiness, i);
}

proof fn lemma_first_selected_at(
    pods: Seq<Pod>,
    selector: PodSelector,
    readiness: PodReadiness,
    i: int,
)
    requires
        0 <= i < pods.len(),
        pods[i].selected(selector, readiness),
        forall|j: int| 0 <= j < i ==> !(#[trigger] pods[j]).selected(selector, readiness),
    ensures
        first_selected(pods, selector, readiness) == Some(pods[i].identity()),
    decreases pods.len(),
{
    let front = pods.drop_last();
    if i < pods.len() - 1 {
        assert(front[i] == pods[i]);
        assert forall|j: int| 0 <= j < i implies !(#[trigger] front[j]).selected(
            selector,
            readiness,
        ) by {
            assert(front[j] == pods[j]);
        }
        lemma_first_selected_at(front, selector, readiness, i);
    } else {
        lemma_first_selected(front, selector, readiness);
        if let Some(id) = first_selected(front, selector, readiness) {
            let k = choose|k: int|
                0 <= k < front.len() && (#[trigger] front[k]).selected(selector, readiness)
                    && front[k].identity() == id;
            assert(pods[k].selected(selector, readiness));
        }
    }
}

/// A pod that is not there, or not selected any more, is never the target, and
/// a target that is there and selected is kept though others come first.
pub proof fn law_target_moves_only_when_it_must(
    current: PodIdentity,
    pods: Seq<Pod>,
    selector: PodSelector,
    readiness: PodReadiness,
)
    ensures
        (exists|i: int|
            0 <= i < pods.len() && (#[trigger] pods[i]).selected(selector, readiness)
                && pods[i].identity() == current) <==> choose_target(
            Some(current),
            pods,
            selector,
            readiness,
        ) == Some(current),
{
    lemma_first_selected(pods, selector, readiness);
    if choose_target(Some(current), pods, selector, readiness) == Some(current) {
        assert(has_selected(pods, selector, readiness, current));
    }
}

/// Seeing a pod fills an empty target with it where it is selected, renews
/// the target under the same name with the pod's uid, and is announced
/// exactly where the target changed, under the name of the pod.
pub proof fn law_seen_pod_fills_or_renews_the_target(
    latest: Option<PodIdentity>,
    pod: Pod,
    selector: PodSelector,
    readiness: PodReadiness,
    change: Option<PodChange>,
)
    requires
        announces_target(
            latest,
            target_after_seen(latest, pod, selector, readiness),
            change,
        ),
    ensures
        pod.selected(selector, readiness) && latest is None ==> target_after_seen(
            latest,
            pod,
            selector,
            readiness,
        ) == Some(pod.identity()),
        pod.selected(selector, readiness) ==> (latest matches Some(current) ==> (current.name
            == pod.any_name() ==> target_after_seen(latest, pod, selector, readiness) == Some(
            pod.identity(),
        ))),
        change is Some <==> pod.selected(selector, readiness) && (latest is None || (
        latest->Some_0.name == pod.any_name() && latest->Some_0.uid != opt_text(pod.uid))),
        change matches Some(c) ==> (c matches PodChange::Ready(name) && name@ == pod.any_name()),
{
    if let Some(current) = latest {
        if current.name == pod.any_name() && current.uid == opt_text(pod.uid) {
            assert(current =~= pod.identity());
        }
    }
}

/// A wait ends with a pod only if that pod is there and selected, and does so
/// at once where one is. It ends without a pod when it is cancelled, when the
/// time is up, and when no more changes can come. The death of a pod, and a
/// look that finds nothing, keep it waiting.
pub proof fn law_wait_ends_with_a_selected_pod(
    watcher: PodWatcher,
    cancelled: bool,
    event: WaitEvent,
    pods: Seq<Pod>,
    began: PodWatcher,
    first: WaitStep,
    after: PodWatcher,
    step: WaitStep,
)
    requires
        watcher.wait_began(cancelled, pods, began, first),
        watcher.waited(event, pods, after, step),
    ensures
        cancelled ==> first == WaitStep::Done(None) && began == watcher,
        first is Wait ==> began.latest_ready is None,
        event is Lagged || (event matches WaitEvent::Change(PodChange::Ready(_))) || after
            == watcher,
        step is Wait && !(event matches WaitEvent::Change(PodChange::Died(_)))
            ==> after.latest_ready is None,
        step matches WaitStep::Done(Some(pod)) ==> (after.latest_ready matches Some(kept) && kept@
            == pod@),
        after.selector == watcher.selector && after.readiness == watcher.readiness && after.closed
            == watcher.closed,
        first matches WaitStep::Done(Some(pod)) ==> !cancelled && has_selected(
            pods,
            watcher.selector,
            watcher.readiness,
            pod@,
        ),
        first matches WaitStep::Done(Some(pod)) ==> (began.latest_ready matches Some(kept) && kept@
            == pod@),
        !cancelled && (exists|i: int|
            0 <= i < pods.len() && (#[trigger] pods[i]).selected(
                watcher.selector,
                watcher.readiness,
            )) ==> (first matches WaitStep::Done(found) && found is Some),
        !cancelled && !(exists|i: int|
            0 <= i < pods.len() && (#[trigger] pods[i]).selected(
                watcher.selector,
                watcher.readiness,
            )) ==> first is Wait,
        event is Cancelled || event is Deadline || event is Closed ==> step == WaitStep::Done(None),
        event matches WaitEvent::Change(PodChange::Died(_)) ==> step is Wait,
        step matches WaitStep::Done(Some(pod)) ==> has_selected(
            pods,
            watcher.selector,
            watcher.readiness,
            pod@,
        ),
        (event is Lagged || (event matches WaitEvent::Change(PodChange::Ready(_)))) ==> (step is Wait
            <==> forall|i: int|
            0 <= i < pods.len() ==> !(#[trigger] pods[i]).selected(
                watcher.selector,
                watcher.readiness,
            )),
{
    let current = identity(watcher.latest_ready);
    law_target_is_selected(current, pods, watcher.selector, watcher.readiness);
}

/// A watcher keeps to its target while that pod is there and selected, and
/// otherwise goes by the pods alone: what it had before then does not matter.
pub proof fn law_watcher_keeps_its_target(watcher: PodWatcher, pods: Seq<Pod>, ready: ReadyPod)
    requires
        watcher.latest_ready == Some(ready),
    ensures
        (exists|i: int|
            0 <= i < pods.len() && (#[trigger] pods[i]).selected(
                watcher.selector,
                watcher.readiness,
            ) && pods[i].identity() == ready@) ==> watcher.target(pods) == Some(ready@),
        !(exists|i: int|
            0 <= i < pods.len() && (#[trigger] pods[i]).selected(
                watcher.selector,
                watcher.readiness,
            ) && pods[i].identity() == ready@) ==> watcher.target(pods) == choose_target(
            None,
            pods,
            watcher.selector,
            watcher.readiness,
        ) && watcher.target(pods) != Some(ready@),
{
    law_target_moves_only_when_it_must(ready@, pods, watcher.selector, watcher.readiness);
}

/// A pod goes by its name; only one without a name goes by what its name is
/// generated from, and one without either by nothing.
pub proof fn law_pods_go_by_their_name(pod: Pod)
    ensures
        pod.identity().name == pod.any_name(),
        pod.name matches Some(name) ==> pod.any_name() == name@,
        pod.name is None ==> (pod.generate_name matches Some(prefix) ==> pod.any_name() == prefix@),
        pod.name is None && pod.generate_name is None ==> pod.any_name().len() == 0,
        pod.uid matches Some(uid) ==> pod.identity().uid == Some(uid@),
        pod.uid is None ==> pod.identity().uid is None,
{
}

} // verus!
