//! Long-lived port-forward orchestrator.
//!
//! A [`Forwarder`] owns a pod watcher that tracks the currently ready pod, and
//! a bounded pool of sessions to it that is drained when the pod changes.
//! Callers get a stream without thinking about pod identity, capacity, or
//! recreation after a rollover. Waiting, opening and cancelling are left to
//! the caller, which is told what to do step by step.

pub mod lifecycle;
pub mod pool;
pub mod prefetch;

use crate::client::Client;
use crate::client::SessionOpen;
use crate::client::DEFAULT_SPDY_POOL_SIZE;
use crate::error::Error;
use crate::error::MuxError;
use crate::outside::clock::duration_nanos;
use crate::pod_watch::identity;
use crate::pod_watch::Pod;
use crate::pod_watch::PodReadiness;
use crate::pod_watch::PodWatcher;
use crate::pod_watch::ReadyPod;
use crate::pod_watch::WaitEvent;
use crate::pod_watch::WaitStep;
use crate::session::header_texts;
use crate::session::Session;
use crate::spdy::open::Headers;
use crate::spdy::session::MuxHandle;
use crate::subprotocol::Subprotocol;
use crate::text::decimal;
use crate::text::opt_text;
use lifecycle::SearchMove;
use lifecycle::SearchStep;
use lifecycle::SessionSearch;
use pool::ids;
use pool::SessionPool;
use std::time::Duration;
use tokio_util::sync::CancellationToken;
use vstd::prelude::*;

verus! {

/// Sessions in the pool at most, by default.
pub const DEFAULT_MAX_SESSIONS: usize = 128;

/// Seconds between prunings, by default.
pub const DEFAULT_PRUNE_INTERVAL_SECS: u64 = 30;

/// Age in seconds from which an unused session is pruned, by default.
pub const DEFAULT_PRUNE_IDLE_AGE_SECS: u64 = 60;

/// Seconds to wait for a ready pod.
pub const READY_POD_WAIT_SECS: u64 = 5;

/// Seconds to wait for a session that somebody else is opening.
pub const IN_FLIGHT_WAIT_SECS: u64 = 5;

/// Seconds to wait for the permission to open a session.
pub const CONNECTION_SLOT_TIMEOUT_SECS: u64 = 10;

/// Sessions that may be opened at the same time.
pub const CONNECTION_SLOT_PERMITS: usize = 50;

/// Limits of a forwarder.
pub struct ForwarderConfig {
    pub max_sessions: usize,
    pub prune_interval: Duration,
    pub prune_idle_age: Duration,
}

impl Default for ForwarderConfig {
    fn default() -> (r: ForwarderConfig)
        ensures
            r.max_sessions == 128,
            duration_nanos(r.prune_interval) == 30_000_000_000,
            duration_nanos(r.prune_idle_age) == 60_000_000_000,
    {
        ForwarderConfig {
            max_sessions: DEFAULT_MAX_SESSIONS,
            prune_interval: Duration::from_secs(DEFAULT_PRUNE_INTERVAL_SECS),
            prune_idle_age: Duration::from_secs(DEFAULT_PRUNE_IDLE_AGE_SECS),
        }
    }
}

/// Long-lived port-forward orchestrator.
pub struct Forwarder {
    pub pf_client: Client,
    pub namespace: String,
    pub pod_watcher: PodWatcher,
    pub sessions: SessionPool,
    pub config: ForwarderConfig,
    /// Tripped by a shutdown.
    pub cancel: CancellationToken,
    /// Ends all sessions.
    pub session_cancel: CancellationToken,
    pub call_counter: u64,
    /// The forwarder was ended by [`shutdown`](Forwarder::shutdown).
    pub closed: bool,
}

/// A connect that is under way.
#[derive(Clone, Copy, Debug, PartialEq, Eq, Structural)]
pub struct ForwardConnect {
    pub target_port: u16,
    /// Sessions that may still be tried.
    pub attempts_left: usize,
}

/// How one attempt of a connect ended.
pub enum Attempt {
    /// There was no session to connect on.
    NoSession(Error),
    /// The pod that a session was opened to, and the outcome of connecting on
    /// that session.
    Session { pod: ReadyPod, outcome: Result<u64, Error> },
}

/// How a connect goes on.
pub enum ForwardStep {
    /// Get a session, connect on it and hand in the outcome.
    EnsureSession,
    /// The stream is there, and reaches this pod.
    Connected { stream: u64, pod: ReadyPod },
    /// There will be no stream.
    Failed(Error),
}

impl Forwarder {
    /// Whether the parts that no operation changes are as in `other`.
    pub open spec fn same_parts(self, other: Forwarder) -> bool {
        &&& self.pf_client == other.pf_client
        &&& self.namespace == other.namespace
        &&& self.config == other.config
        &&& self.cancel == other.cancel
        &&& self.session_cancel == other.session_cancel
    }

    /// Whether everything but the pool, the target and the call counter is as
    /// in `other`.
    pub open spec fn same_setup(self, other: Forwarder) -> bool {
        &&& self.same_parts(other)
        &&& self.pod_watcher.same_watch(other.pod_watcher)
        &&& self.closed == other.closed
    }

    /// Whether everything but the pool is as in `other`.
    pub open spec fn same_but_pool(self, other: Forwarder) -> bool {
        &&& self.same_setup(other)
        &&& self.pod_watcher == other.pod_watcher
        &&& self.call_counter == other.call_counter
    }

    /// A forwarder with an empty pool.
    pub fn new(
        pf_client: Client,
        namespace: String,
        pod_watcher: PodWatcher,
        config: ForwarderConfig,
    ) -> (r: Forwarder)
        ensures
            r.pf_client == pf_client,
            r.namespace == namespace,
            r.pod_watcher == pod_watcher,
            r.config == config,
            r.sessions.wf(),
            r.sessions.entries@.len() == 0,
            r.sessions.target is None,
            !r.sessions.prefetch_in_flight,
            r.sessions.opening_count == 0,
            r.call_counter == 0,
            !r.closed,
    {
        Forwarder {
            pf_client,
            namespace,
            pod_watcher,
            sessions: SessionPool::new(),
            config,
            cancel: CancellationToken::new(),
            session_cancel: CancellationToken::new(),
            call_counter: 0,
            closed: false,
        }
    }

    /// What follows when `attempts_left` sessions may be tried.
    pub open spec fn attempted(self, attempts_left: usize, step: ForwardStep) -> bool {
        if attempts_left > 0 {
            step is EnsureSession
        } else {
            step == ForwardStep::Failed(
                Error::CapacityExhausted { in_use: 0, capacity: self.config.max_sessions },
            )
        }
    }

    /// What the start of a connect does.
    pub open spec fn connect_began(
        self,
        target_port: u16,
        cancelled: bool,
        connect: ForwardConnect,
        step: ForwardStep,
    ) -> bool {
        &&& connect == (ForwardConnect { target_port, attempts_left: self.config.max_sessions })
        &&& if cancelled {
            step == ForwardStep::Failed(Error::Cancelled)
        } else if target_port == 0 {
            step matches ForwardStep::Failed(e) && e.is_configuration(
                "target port must be greater than zero"@,
            )
        } else {
            self.attempted(connect.attempts_left, step)
        }
    }

    fn attempt(&self, attempts_left: usize) -> (step: ForwardStep)
        ensures
            self.attempted(attempts_left, step),
    {
        if attempts_left > 0 {
            ForwardStep::EnsureSession
        } else {
            ForwardStep::Failed(
                Error::CapacityExhausted { in_use: 0, capacity: self.config.max_sessions },
            )
        }
    }

    /// Begins a connect to the target pod's `target_port`, where `cancelled`
    /// tells whether the forwarder was shut down.
    pub fn begin_connect(&self, target_port: u16, cancelled: bool) -> (r: (
        ForwardConnect,
        ForwardStep,
    ))
        ensures
            self.connect_began(target_port, cancelled, r.0, r.1),
    {
        let connect = ForwardConnect { target_port, attempts_left: self.config.max_sessions };
        let step = if cancelled {
            ForwardStep::Failed(Error::Cancelled)
        } else if target_port == 0 {
            ForwardStep::Failed(
                Error::Configuration("target port must be greater than zero".to_owned()),
            )
        } else {
            self.attempt(connect.attempts_left)
        };
        (connect, step)
    }

    /// What [`connect_on_pod`](Forwarder::connect_on_pod) does: after a
    /// shutdown the connect is cancelled, and otherwise where somebody tripped
    /// the token.
    pub open spec fn connect_asked(
        self,
        target_port: u16,
        connect: ForwardConnect,
        step: ForwardStep,
    ) -> bool {
        exists|cancelled: bool|
            (self.closed ==> cancelled) && #[trigger] self.connect_began(
                target_port,
                cancelled,
                connect,
                step,
            )
    }

    /// Begins a connect that reports the pod that the stream reaches: it comes
    /// with [`ForwardStep::Connected`]. After a
    /// [`shutdown`](Forwarder::shutdown) it is refused; whether the token was
    /// cancelled otherwise, it tells. See
    /// [`begin_connect`](Forwarder::begin_connect).
    pub fn connect_on_pod(&self, target_port: u16) -> (r: (ForwardConnect, ForwardStep))
        ensures
            self.connect_asked(target_port, r.0, r.1),
            self.closed ==> r.1 == ForwardStep::Failed(Error::Cancelled),
    {
        let tripped = self.cancel.is_cancelled();
        let cancelled = self.closed || tripped;
        self.begin_connect(target_port, cancelled)
    }

    /// Same as [`connect_on_pod`](Forwarder::connect_on_pod), for a caller
    /// that does not ask for the pod.
    pub fn connect(&self, target_port: u16) -> (r: (ForwardConnect, ForwardStep))
        ensures
            self.connect_asked(target_port, r.0, r.1),
            self.closed ==> r.1 == ForwardStep::Failed(Error::Cancelled),
    {
        self.connect_on_pod(target_port)
    }

    /// What the outcome of one attempt does to a connect. After a shutdown
    /// the connect is cancelled, whatever came of the attempt.
    pub open spec fn connect_moved(
        self,
        before: ForwardConnect,
        outcome: Attempt,
        after: ForwardConnect,
        step: ForwardStep,
    ) -> bool {
        if self.closed {
            step == ForwardStep::Failed(Error::Cancelled) && after == before
        } else {
            match outcome {
                Attempt::Session { pod, outcome: Ok(stream) } => step == (ForwardStep::Connected {
                    stream,
                    pod,
                }) && after == before,
                Attempt::Session { outcome: Err(Error::CapacityExhausted { .. }), .. } => {
                    &&& after.target_port == before.target_port
                    &&& after.attempts_left == before.attempts_left - 1
                    &&& self.attempted(after.attempts_left, step)
                },
                Attempt::Session { outcome: Err(e), .. } => step == ForwardStep::Failed(e)
                    && after == before,
                Attempt::NoSession(e) => step == ForwardStep::Failed(e) && after == before,
            }
        }
    }

    /// Goes on after an attempt. A session that turned out full leads to
    /// another one; any other failure is final. With the stream goes the pod
    /// that the session was opened to. A shutdown cancels the connect.
    pub fn session_connected(&self, connect: &mut ForwardConnect, outcome: Attempt) -> (step:
        ForwardStep)
        requires
            old(connect).attempts_left > 0,
        ensures
            self.connect_moved(*old(connect), outcome, *final(connect), step),
    {
        if self.closed {
            return ForwardStep::Failed(Error::Cancelled);
        }
        match outcome {
            Attempt::Session { pod, outcome: Ok(stream) } => ForwardStep::Connected { stream, pod },
            Attempt::Session { outcome: Err(Error::CapacityExhausted { .. }), .. } => {
                connect.attempts_left = connect.attempts_left - 1;
                self.attempt(connect.attempts_left)
            },
            Attempt::Session { outcome: Err(e), .. } => ForwardStep::Failed(e),
            Attempt::NoSession(e) => ForwardStep::Failed(e),
        }
    }

    /// The token tripped by [`shutdown`](Forwarder::shutdown).
    pub fn cancellation_token(&self) -> (r: CancellationToken)
        ensures
            r == self.cancel,
    {
        self.cancel.clone()
    }

    /// Name of the ready pod.
    pub fn ready_pod(&mut self, pods: &Vec<Pod>) -> (r: Option<String>)
        ensures
            opt_text(r) == (match old(self).pod_watcher.target(pods@) {
                Some(id) => Some(id.name),
                None => None,
            }),
            identity(final(self).pod_watcher.latest_ready) == old(self).pod_watcher.target(pods@),
            final(self).same_setup(*old(self)),
            final(self).sessions == old(self).sessions,
            final(self).call_counter == old(self).call_counter,
    {
        match self.pod_watcher.ready_pod(pods) {
            Some(pod) => Some(pod.name),
            None => None,
        }
    }

    /// Ready pod with its UID, which a name alone cannot distinguish after a
    /// pod was replaced under the same name.
    pub fn ready_pod_identity(&mut self, pods: &Vec<Pod>) -> (r: Option<ReadyPod>)
        ensures
            identity(r) == old(self).pod_watcher.target(pods@),
            identity(final(self).pod_watcher.latest_ready) == old(self).pod_watcher.target(pods@),
            final(self).same_setup(*old(self)),
            final(self).sessions == old(self).sessions,
            final(self).call_counter == old(self).call_counter,
    {
        self.pod_watcher.ready_pod(pods)
    }

    /// What waiting for a ready pod ends with: its name.
    pub fn waited_name(pod: Option<ReadyPod>) -> (r: Option<String>)
        ensures
            opt_text(r) == (match pod {
                Some(p) => Some(p.name@),
                None => None,
            }),
    {
        match pod {
            Some(p) => Some(p.name),
            None => None,
        }
    }

    /// Begins to wait for a ready pod, unless the forwarder was shut down.
    pub fn begin_wait(&mut self, cancelled: bool, pods: &Vec<Pod>) -> (step: WaitStep)
        ensures
            old(self).pod_watcher.wait_began(cancelled, pods@, final(self).pod_watcher, step),
            final(self).same_setup(*old(self)),
            final(self).sessions == old(self).sessions,
            final(self).call_counter == old(self).call_counter,
    {
        self.pod_watcher.begin_wait(cancelled, pods)
    }

    /// Begins to wait for a ready pod. After a
    /// [`shutdown`](Forwarder::shutdown) none will come; whether the token was
    /// cancelled otherwise, it tells. See
    /// [`begin_wait`](Forwarder::begin_wait).
    pub fn wait_for_ready_pod(&mut self, pods: &Vec<Pod>) -> (step: WaitStep)
        ensures
            exists|cancelled: bool| #[trigger]
                old(self).pod_watcher.wait_began(cancelled, pods@, final(self).pod_watcher, step),
            old(self).closed ==> step == WaitStep::Done(None) && final(self).pod_watcher == old(
                self,
            ).pod_watcher,
            final(self).same_setup(*old(self)),
            final(self).sessions == old(self).sessions,
            final(self).call_counter == old(self).call_counter,
    {
        let tripped = self.cancel.is_cancelled();
        let cancelled = self.closed || tripped;
        self.begin_wait(cancelled, pods)
    }

    /// Goes on waiting for a ready pod.
    pub fn wait_event(&mut self, event: WaitEvent, pods: &Vec<Pod>) -> (step: WaitStep)
        ensures
            old(self).pod_watcher.waited(event, pods@, final(self).pod_watcher, step),
            final(self).same_setup(*old(self)),
            final(self).sessions == old(self).sessions,
            final(self).call_counter == old(self).call_counter,
    {
        self.pod_watcher.wait_event(event, pods)
    }

    /// Whether a selected pod is running and not terminating.
    pub fn has_running_pods(&self, pods: &Vec<Pod>) -> (r: bool)
        ensures
            r == exists|i: int|
                0 <= i < pods@.len() && (#[trigger] pods@[i]).selected(
                    self.pod_watcher.selector,
                    PodReadiness::Running,
                ),
    {
        self.pod_watcher.has_running_pods(pods)
    }

    /// What a shutdown does: the forwarder and its watch have ended, the pool
    /// is empty and without a target, and all else is as before. Searches and
    /// prefetches that are under way keep their place in the counts until they
    /// end.
    pub open spec fn shut_down(self, after: Forwarder, drained: Seq<u64>) -> bool {
        &&& after.closed
        &&& self.pod_watcher.ended(after.pod_watcher)
        &&& after.sessions.wf()
        &&& after.sessions.entries@.len() == 0
        &&& after.sessions.target is None
        &&& after.sessions.opening_count == self.sessions.opening_count
        &&& after.sessions.prefetch_in_flight == self.sessions.prefetch_in_flight
        &&& drained == ids(self.sessions.entries@)
        &&& after.same_parts(self)
        &&& after.call_counter == self.call_counter
    }

    /// Stops the watch, trips both tokens and drains the pool. The result are
    /// the sessions to cancel. Idempotent.
    pub fn shutdown(&mut self) -> (drained: Vec<u64>)
        ensures
            old(self).shut_down(*final(self), drained@),
    {
        self.pod_watcher.shutdown();
        self.cancel.cancel();
        self.session_cancel.cancel();
        self.closed = true;
        self.sessions.drain_and_cancel_all()
    }

    /// A number for one call.
    pub fn next_call_id(&mut self) -> (r: u64)
        ensures
            r == old(self).call_counter,
            final(self).call_counter == old(self).call_counter.wrapping_add(1),
            final(self).sessions == old(self).sessions,
            final(self).pod_watcher == old(self).pod_watcher,
            final(self).same_setup(*old(self)),
    {
        let id = self.call_counter;
        self.call_counter = id.wrapping_add(1);
        id
    }

    /// Whether `open` is the opening of a session to a pod's port.
    pub open spec fn opening_began(
        self,
        pod_name: Seq<char>,
        port: u16,
        open: SessionOpen<'_>,
    ) -> bool {
        &&& *open.client == self.pf_client
        &&& open.namespace@ == self.namespace@
        &&& open.pod@ == pod_name
        &&& open.port == port
        &&& open.pool_size == DEFAULT_SPDY_POOL_SIZE
    }

    /// Begins to open a session to a pod's port. It ends with the
    /// forwarder's sessions: its token is a child of theirs. That link is no
    /// part of the token's value, so nothing is said of it.
    pub fn open_session(&self, pod_name: &str, port: u16) -> (r: SessionOpen<'_>)
        ensures
            self.opening_began(pod_name@, port, r),
    {
        self.pf_client.session(
            self.namespace.clone(),
            pod_name.to_owned(),
            port,
        ).cancellation_token(self.session_cancel.child_token()).open()
    }
}

/// A connect tries at most as many sessions as the pool may hold: each
/// attempt that goes on leaves one fewer, and without any left it fails. It
/// goes on after a full session only.
pub proof fn law_connect_gives_up(
    forwarder: Forwarder,
    before: ForwardConnect,
    outcome: Attempt,
    after: ForwardConnect,
    step: ForwardStep,
)
    requires
        before.attempts_left > 0,
        forwarder.connect_moved(before, outcome, after, step),
    ensures
        step is EnsureSession ==> after.attempts_left < before.attempts_left,
        step is EnsureSession ==> (outcome matches Attempt::Session { outcome: Err(e), .. }
            && e is CapacityExhausted),
        step is Connected <==> !forwarder.closed && (outcome matches Attempt::Session {
            outcome: Ok(_),
            ..
        }),
        before.attempts_left == 1 && !(step is Connected) ==> step is Failed,
{
}

/// A shutdown refuses every later connect, whatever the port, and cancels
/// every connect that is under way, whatever comes of its attempt. It does so
/// for good: `later` is any state that operations other than a shutdown lead
/// to, which all keep the setup, or that a further shutdown leads to.
pub proof fn law_shutdown_refuses_connects(
    forwarder: Forwarder,
    after: Forwarder,
    drained: Seq<u64>,
    later: Forwarder,
    again: Seq<u64>,
    target_port: u16,
    connect: ForwardConnect,
    step: ForwardStep,
    pending: ForwardConnect,
    outcome: Attempt,
    ended: ForwardConnect,
    end: ForwardStep,
)
    requires
        forwarder.shut_down(after, drained),
        later == after || later.same_setup(after) || after.shut_down(later, again),
        later.connect_asked(target_port, connect, step),
        later.connect_moved(pending, outcome, ended, end),
    ensures
        later.closed,
        later.pod_watcher.closed,
        step == ForwardStep::Failed(Error::Cancelled),
        end == ForwardStep::Failed(Error::Cancelled),
{
}

/// A second shutdown changes nothing and has no session to cancel.
pub proof fn law_shutdown_is_idempotent(
    forwarder: Forwarder,
    first: Forwarder,
    drained: Seq<u64>,
    second: Forwarder,
    again: Seq<u64>,
)
    requires
        forwarder.shut_down(first, drained),
        first.shut_down(second, again),
    ensures
        again.len() == 0,
        second.sessions.entries@ == first.sessions.entries@,
        second.sessions.snapshot@ == first.sessions.snapshot@,
        second.sessions.same_counts(first.sessions),
        second.same_but_pool(first),
{
}

/// The pod that a connect reports is the one that the stream reaches: it is
/// the pod that the session was opened to on which the stream was made, and
/// that session goes to the port asked for.
pub proof fn law_connect_reports_the_pod_reached(
    forwarder: Forwarder,
    search: SessionSearch,
    found: SearchMove,
    session: u64,
    pod: ReadyPod,
    fresh: bool,
    before: ForwardConnect,
    stream: u64,
    after: ForwardConnect,
    step: ForwardStep,
)
    requires
        forwarder.hands_out(search, found),
        found.step == (SearchStep::Done { session, pod, fresh }),
        search.target_port == before.target_port,
        forwarder.connect_moved(
            before,
            Attempt::Session { pod, outcome: Ok(stream) },
            after,
            step,
        ),
    ensures
        !forwarder.closed ==> step == (ForwardStep::Connected { stream, pod }),
        forwarder.closed ==> !(step is Connected),
        forwarder.sessions.reaches(session, before.target_port, pod@),
        forwarder.sessions.target_id() == Some(pod@),
{
}

/// A stream that is opened on a session for a search, at once or as a spare,
/// goes to the port that was asked for: the `port` header of both streams of
/// the pair names it.
pub proof fn law_stream_carries_the_target_port(
    forwarder: Forwarder,
    search: SessionSearch,
    pod: ReadyPod,
    port: u16,
    step: SearchStep,
    open: SessionOpen<'_>,
    protocol: Subprotocol,
    outcomes: Seq<Result<MuxHandle, MuxError>>,
    opened: Session,
    session: Session,
    after: Session,
    error_headers: Headers,
    data_headers: Headers,
)
    requires
        forwarder.told_to_open(search, step),
        step == (SearchStep::OpenSession { pod, port }),
        forwarder.opening_began(pod.name@, port, open),
        open.opening_ended(protocol, outcomes, Ok(opened)),
        session.port == opened.port,
        session.opens_new(after, error_headers, data_headers),
    ensures
        header_texts(error_headers)[1] == ("port"@, decimal(search.target_port as nat)),
        header_texts(data_headers)[1] == ("port"@, decimal(search.target_port as nat)),
        identity(search.ready) matches Some(id) && open.pod@ == id.name,
{
}

/// A connect that is cancelled from the start is refused whatever the port,
/// and a zero port is refused before anything else is tried.
pub proof fn law_connect_refusals(
    forwarder: Forwarder,
    target_port: u16,
    cancelled: bool,
    connect: ForwardConnect,
    step: ForwardStep,
)
    requires
        forwarder.connect_began(target_port, cancelled, connect, step),
    ensures
        cancelled ==> step == ForwardStep::Failed(Error::Cancelled),
        !cancelled && target_port == 0 ==> step is Failed && step->Failed_0 is Configuration,
        step is EnsureSession ==> !cancelled && target_port != 0,
{
}

/// A connect may try as many sessions as the pool may hold: it begins with
/// that many attempts, every session that turns out full takes exactly one
/// away, and when none is left it fails for want of capacity, naming the
/// limit. Any other failure ends it at once with that failure.
pub proof fn law_connect_counts_its_attempts(
    forwarder: Forwarder,
    target_port: u16,
    connect: ForwardConnect,
    first: ForwardStep,
    before: ForwardConnect,
    outcome: Attempt,
    after: ForwardConnect,
    step: ForwardStep,
)
    requires
        !forwarder.closed,
        target_port > 0,
        forwarder.connect_began(target_port, false, connect, first),
        before.attempts_left > 0,
        forwarder.connect_moved(before, outcome, after, step),
    ensures
        connect.attempts_left == forwarder.config.max_sessions,
        connect.target_port == target_port,
        first is EnsureSession <==> forwarder.config.max_sessions > 0,
        after.target_port == before.target_port,
        match outcome {
            Attempt::Session { pod, outcome: Ok(stream) } => step == (ForwardStep::Connected {
                stream,
                pod,
            }),
            Attempt::Session { pod, outcome: Err(e) } => if e is CapacityExhausted {
                &&& after.attempts_left + 1 == before.attempts_left
                &&& step is EnsureSession <==> before.attempts_left > 1
                &&& !(step is EnsureSession) ==> (step matches ForwardStep::Failed(
                    Error::CapacityExhausted { in_use, capacity },
                ) && in_use == 0 && capacity == forwarder.config.max_sessions)
            } else {
                step == ForwardStep::Failed(e)
            },
            Attempt::NoSession(e) => step == ForwardStep::Failed(e),
        },
{
}

/// A session is opened in the forwarder's namespace, to the pod and the port
/// asked for.
pub proof fn law_session_opens_where_asked(
    forwarder: Forwarder,
    pod_name: Seq<char>,
    port: u16,
    open: SessionOpen<'_>,
)
    requires
        forwarder.opening_began(pod_name, port, open),
    ensures
        open.pod@ == pod_name,
        open.port == port,
        open.namespace@ == forwarder.namespace@,
        *open.client == forwarder.pf_client,
        open.pool_size == 6,
{
}

/// A shutdown cancels every session of the pool, one by one, and leaves none.
pub proof fn law_shutdown_leaves_no_session(
    forwarder: Forwarder,
    after: Forwarder,
    drained: Seq<u64>,
    i: int,
)
    requires
        forwarder.shut_down(after, drained),
        0 <= i < forwarder.sessions.entries@.len(),
    ensures
        drained.len() == forwarder.sessions.entries@.len(),
        drained[i] == forwarder.sessions.entries@[i].session,
        after.sessions.entries@.len() == 0,
        after.sessions.snapshot@.len() == 0,
        after.sessions.target is None,
        after.closed,
        after.pod_watcher.closed,
        after.sessions.opening_count == forwarder.sessions.opening_count,
        after.sessions.prefetch_in_flight == forwarder.sessions.prefetch_in_flight,
        after.config == forwarder.config,
        after.call_counter == forwarder.call_counter,
{
}

} // verus!
