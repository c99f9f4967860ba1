//! Finding or opening a session for a connect, and reacting to pod changes.
use super::pool::first_reusable;
use super::pool::ids;
use super::pool::OpeningSlot;
use super::pool::SessionPool;
use super::pool::SessionStatus;
use super::pool::dead;
use super::pool::same_target;
use super::pool::shown;
use super::pool::split_entries;
use super::Forwarder;
use crate::error::Error;
use crate::pod_watch::identity;
use crate::pod_watch::PodChange;
use crate::pod_watch::ReadyPod;
use crate::recovery::RecoverySignal;
use crate::text::str_eq;
use quanta::Instant;
use vstd::prelude::*;

verus! {

/// Where the search for a session is.
#[derive(Clone, Copy, Debug, PartialEq, Eq, Structural)]
pub enum SearchStage {
    /// Waiting for a ready pod.
    AwaitPod,
    /// About to look for a session with room.
    Check,
    /// About to look again, after dead sessions were taken out.
    Recheck,
    /// Waiting for a session that somebody else is opening.
    AwaitOpen,
    /// Waiting for the permission to open a session.
    Permit,
    /// Opening a session.
    Opening,
    /// Over.
    Ended,
}

/// The search for a session.
pub struct SessionSearch {
    pub call_id: u64,
    pub target_port: u16,
    /// A session that turned out stale may be replaced once.
    pub retry_after_stale_open: bool,
    /// The pod that the session is to go to.
    pub ready: Option<ReadyPod>,
    /// The reservation, while a session is being opened.
    pub slot: Option<OpeningSlot>,
    pub stage: SearchStage,
}

/// What to do next in a search.
pub enum SearchStep {
    /// Wait for a ready pod, at most `READY_POD_WAIT_SECS`.
    AwaitPod,
    /// Look at the sessions of the pool.
    CheckSessions,
    /// Wait until a session was opened, at most `IN_FLIGHT_WAIT_SECS`, then
    /// look at the sessions of the pool.
    AwaitOpen,
    /// Wait for the permission to open a session, at most
    /// `CONNECTION_SLOT_TIMEOUT_SECS`.
    AcquirePermit,
    /// Open a session to this port of this pod.
    OpenSession { pod: ReadyPod, port: u16 },
    /// Here is a session, and the pod that it was opened to. One that is
    /// `fresh` was just put into the pool: wake those who wait for a session.
    Done { session: u64, pod: ReadyPod, fresh: bool },
    /// There is no session.
    Failed(Error),
}

/// A step of a search, and sessions to cancel.
pub struct SearchMove {
    pub step: SearchStep,
    pub cancel: Vec<u64>,
}

/// How the wait for a permission ended.
#[derive(Clone, Copy, Debug, PartialEq, Eq, Structural)]
pub enum PermitOutcome {
    Acquired,
    Closed,
    TimedOut,
}

/// What the subscription to pod changes can bring.
pub enum ReactorEvent {
    Cancelled,
    Change(PodChange),
    /// Some changes were missed.
    Lagged,
    /// No further changes will come.
    Closed,
}

/// How the reactor to pod changes goes on.
pub enum ReactorAction {
    /// Leave the loop.
    Stop,
    /// Wait for the next event.
    Next,
    /// Cancel these sessions, pass the signal on, then wait for the next
    /// event.
    Drained { cancel: Vec<u64>, signal: RecoverySignal },
}

/// Number of reservations that a search holds.
pub open spec fn held(search: SessionSearch) -> int {
    if search.slot is Some {
        1
    } else {
        0
    }
}

/// Number of reservations that are not those of this search.
pub open spec fn others(pool: SessionPool, search: SessionSearch) -> int {
    pool.opening_count - held(search)
}

/// Whether the pool and the openings keep within `max_sessions`.
pub open spec fn bounded(pool: SessionPool, max_sessions: usize) -> bool {
    pool.entries@.len() + pool.opening_count <= max_sessions
}

/// Whether the openings keep within `max_sessions`, and the pool and the
/// openings together within twice that. Unlike [`bounded`] this holds however
/// openings on demand and ahead of need overlap.
pub open spec fn capped(pool: SessionPool, max_sessions: usize) -> bool {
    &&& pool.opening_count <= max_sessions
    &&& pool.entries@.len() + pool.opening_count <= 2 * max_sessions
}

impl SessionSearch {
    /// A reservation is held exactly while a session is being opened, and a
    /// pod is known once it was waited for.
    pub open spec fn wf(self, pool: SessionPool) -> bool {
        &&& self.slot is Some <==> (self.stage is Permit || self.stage is Opening)
        &&& self.slot is Some ==> pool.opening_count > 0
        &&& !(self.stage is AwaitPod || self.stage is Ended) ==> self.ready is Some
    }

    /// Whether everything but the stage and the reservation is as in `other`.
    pub open spec fn same_goal(self, other: SessionSearch) -> bool {
        &&& self.call_id == other.call_id
        &&& self.target_port == other.target_port
        &&& self.retry_after_stale_open == other.retry_after_stale_open
        &&& self.ready == other.ready
    }
}

impl SearchMove {
    fn to(step: SearchStep) -> (r: SearchMove)
        ensures
            r.step == step,
            r.cancel@.len() == 0,
    {
        SearchMove { step, cancel: Vec::new() }
    }
}

impl Forwarder {
    /// Whether the search can go on in this state.
    pub open spec fn searching(self, search: SessionSearch) -> bool {
        &&& self.sessions.wf()
        &&& search.wf(self.sessions)
    }

    /// What every step of a search keeps: the setup, the reservations of
    /// others, and the bound of the pool.
    pub open spec fn search_kept(
        self,
        before: SessionSearch,
        after: Forwarder,
        search: SessionSearch,
    ) -> bool {
        &&& after.searching(search)
        &&& after.same_but_pool(self)
        &&& after.sessions.prefetch_in_flight == self.sessions.prefetch_in_flight
        &&& others(after.sessions, search) == others(self.sessions, before)
        &&& bounded(self.sessions, self.config.max_sessions) ==> bounded(
            after.sessions,
            self.config.max_sessions,
        )
        &&& capped(self.sessions, self.config.max_sessions) ==> capped(
            after.sessions,
            self.config.max_sessions,
        )
    }

    /// Whether a session that the step hands out is one of the pool, opened
    /// to the port and the pod of the search while that pod was the target.
    pub open spec fn hands_out(self, search: SessionSearch, r: SearchMove) -> bool {
        r.step matches SearchStep::Done { session, pod, .. } ==> {
            &&& identity(search.ready) == Some(pod@)
            &&& self.sessions.target_id() == Some(pod@)
            &&& self.sessions.reaches(session, search.target_port, pod@)
        }
    }

    /// Whether a session that the step asks for is one to the port and the pod
    /// of the search.
    pub open spec fn told_to_open(self, search: SessionSearch, step: SearchStep) -> bool {
        step matches SearchStep::OpenSession { pod, port } ==> {
            &&& identity(search.ready) == Some(pod@)
            &&& port == search.target_port
        }
    }

    /// Begins the search for a session to the target pod's `target_port`.
    pub fn ensure_session(&mut self, target_port: u16) -> (search: SessionSearch)
        requires
            old(self).sessions.wf(),
        ensures
            search.stage is AwaitPod,
            search.target_port == target_port,
            search.call_id == old(self).call_counter,
            search.retry_after_stale_open,
            final(self).searching(search),
            final(self).sessions == old(self).sessions,
            final(self).call_counter == old(self).call_counter.wrapping_add(1),
            final(self).pod_watcher == old(self).pod_watcher,
            final(self).same_setup(*old(self)),
    {
        let call_id = self.next_call_id();
        SessionSearch {
            call_id,
            target_port,
            retry_after_stale_open: true,
            ready: None,
            slot: None,
            stage: SearchStage::AwaitPod,
        }
    }

    /// Goes on once a ready pod was waited for. The pool moves to it, and
    /// sessions to another pod are to be cancelled.
    pub fn pod_resolved(&mut self, search: &mut SessionSearch, pod: Option<ReadyPod>) -> (r:
        SearchMove)
        requires
            old(self).searching(*old(search)),
            old(search).stage is AwaitPod,
        ensures
            old(self).search_kept(*old(search), *final(self), *final(search)),
            final(search).call_id == old(search).call_id,
            final(search).target_port == old(search).target_port,
            final(search).retry_after_stale_open == old(search).retry_after_stale_open,
            match pod {
                None => {
                    &&& final(search).stage is Ended
                    &&& r.step matches SearchStep::Failed(e) && e.is_configuration(
                        "no ready pod available"@,
                    )
                    &&& r.cancel@.len() == 0
                    &&& final(self).sessions == old(self).sessions
                },
                Some(ready) => {
                    &&& final(search).stage is Check
                    &&& final(search).ready == Some(ready)
                    &&& r.step is CheckSessions
                    &&& final(self).sessions.target_id() == Some(ready@)
                    &&& if old(self).sessions.target_id() == Some(ready@) {
                        final(self).sessions == old(self).sessions && r.cancel@.len() == 0
                    } else {
                        &&& final(self).sessions.entries@.len() == 0
                        &&& r.cancel@ == ids(old(self).sessions.entries@)
                    }
                },
            },
    {
        match pod {
            None => {
                search.stage = SearchStage::Ended;
                SearchMove::to(
                    SearchStep::Failed(Error::Configuration("no ready pod available".to_owned())),
                )
            },
            Some(ready) => {
                let cancel = self.sessions.retarget(&ready);
                search.ready = Some(ready);
                search.stage = SearchStage::Check;
                SearchMove { step: SearchStep::CheckSessions, cancel }
            },
        }
    }

    /// Whether the search ended with `session`, leaving the pool as it is.
    pub open spec fn search_reused(
        self,
        before: SessionSearch,
        session: u64,
        after: Forwarder,
        search: SessionSearch,
        r: SearchMove,
    ) -> bool {
        &&& r.step matches SearchStep::Done { session: found, pod, fresh } && found == session
            && identity(before.ready) == Some(pod@) && !fresh
        &&& r.cancel@.len() == 0
        &&& search.stage is Ended
        &&& search.same_goal(before)
        &&& after.sessions == self.sessions
    }

    /// Whether the search starts over, leaving the pool as it is.
    pub open spec fn search_restarted(
        self,
        before: SessionSearch,
        after: Forwarder,
        search: SessionSearch,
        r: SearchMove,
    ) -> bool {
        &&& r.step is AwaitPod
        &&& r.cancel@.len() == 0
        &&& search.stage is AwaitPod
        &&& search.same_goal(before)
        &&& after.sessions == self.sessions
    }

    /// Whether a look at the sessions settles the search: there is a session
    /// with room to the search's port.
    pub open spec fn look_settles(
        self,
        search: SessionSearch,
        statuses: Seq<SessionStatus>,
    ) -> bool {
        first_reusable(shown(self.sessions.entries@), statuses, search.target_port) is Some
    }

    /// What a look at the sessions does that settles the search: it ends with
    /// the first session that fits. Where the pool has moved to another pod
    /// that session is not handed out, and the search starts over.
    pub open spec fn search_settled(
        self,
        before: SessionSearch,
        statuses: Seq<SessionStatus>,
        after: Forwarder,
        search: SessionSearch,
        r: SearchMove,
    ) -> bool {
        let fits = first_reusable(shown(self.sessions.entries@), statuses, before.target_port);
        fits matches Some(session) && if self.sessions.target_id() == identity(before.ready) {
            self.search_reused(before, session, after, search, r)
        } else {
            self.search_restarted(before, after, search, r)
        }
    }

    /// Looks for a session that can be used at once.
    fn try_reuse_session(&self, search: &mut SessionSearch, statuses: &Vec<SessionStatus>) -> (r:
        Option<SearchMove>)
        requires
            self.searching(*old(search)),
            old(search).slot is None,
            old(search).ready is Some,
            statuses@.len() == self.sessions.entries@.len(),
        ensures
            match r {
                Some(m) => {
                    &&& self.look_settles(*old(search), statuses@)
                    &&& self.search_settled(*old(search), statuses@, *self, *final(search), m)
                    &&& self.searching(*final(search))
                    &&& final(search).slot is None
                    &&& self.hands_out(*final(search), m)
                },
                None => {
                    &&& !self.look_settles(*old(search), statuses@)
                    &&& *final(search) == *old(search)
                },
            },
    {
        let session = match self.sessions.find_reusable_session(search.target_port, statuses) {
            Some(session) => session,
            None => return None,
        };
        let pod = search.ready.as_ref().unwrap().clone();
        if !same_target(&self.sessions.target, &pod) {
            search.stage = SearchStage::AwaitPod;
            return Some(SearchMove::to(SearchStep::AwaitPod));
        }
        proof {
            super::pool::law_reused_session_reaches_the_target(
                self.sessions,
                statuses@,
                search.target_port,
            );
        }
        search.stage = SearchStage::Ended;
        Some(SearchMove::to(SearchStep::Done { session, pod, fresh: false }))
    }

    /// Goes on with a look at the sessions. One with room is used; otherwise
    /// dead sessions are taken out and the pool is looked at again. Where the
    /// one with room goes to another pod, the search starts over.
    pub fn sessions_checked(
        &mut self,
        search: &mut SessionSearch,
        statuses: &Vec<SessionStatus>,
    ) -> (r: SearchMove)
        requires
            old(self).searching(*old(search)),
            old(search).stage is Check,
            statuses@.len() == old(self).sessions.entries@.len(),
        ensures
            old(self).search_kept(*old(search), *final(self), *final(search)),
            final(self).hands_out(*final(search), r),
            if old(self).look_settles(*old(search), statuses@) {
                old(self).search_settled(
                    *old(search),
                    statuses@,
                    *final(self),
                    *final(search),
                    r,
                )
            } else {
                let (kept, retired) = split_entries(
                    old(self).sessions.entries@,
                    |i: int| dead(statuses@[i]),
                    old(self).sessions.entries@.len(),
                );
                &&& r.step is CheckSessions
                &&& r.cancel@ == retired
                &&& final(search).stage is Recheck
                &&& final(search).same_goal(*old(search))
                &&& final(self).sessions.entries@ == kept
                &&& final(self).sessions.target == old(self).sessions.target
            },
    {
        if let Some(settled) = self.try_reuse_session(search, statuses) {
            return settled;
        }
        proof {
            super::pool::law_split_keeps_every_session(
                self.sessions.entries@,
                |i: int| dead(statuses@[i]),
                self.sessions.entries@.len(),
            );
        }
        let cancel = self.sessions.retire_dead_sessions(statuses);
        search.stage = SearchStage::Recheck;
        SearchMove { step: SearchStep::CheckSessions, cancel }
    }

    /// What an attempt to reserve a slot does to a search.
    pub open spec fn search_reserved(
        self,
        before: SessionSearch,
        after: Forwarder,
        search: SessionSearch,
        r: SearchMove,
    ) -> bool {
        let projected = self.sessions.entries@.len() + self.sessions.opening_count;
        &&& search.same_goal(before)
        &&& r.cancel@.len() == 0
        &&& after.sessions.entries == self.sessions.entries
        &&& after.sessions.target == self.sessions.target
        &&& if projected >= self.config.max_sessions {
            &&& search.stage is Ended
            &&& r.step == SearchStep::Failed(
                Error::CapacityExhausted {
                    in_use: projected as usize,
                    capacity: self.config.max_sessions,
                },
            )
        } else {
            &&& search.stage is Permit
            &&& r.step is AcquirePermit
        }
    }

    fn reserve(&mut self, search: &mut SessionSearch) -> (r: SearchMove)
        requires
            old(self).searching(*old(search)),
            old(search).slot is None,
            old(search).ready is Some,
            old(self).sessions.entries@.len() + old(self).sessions.opening_count <= usize::MAX,
        ensures
            old(self).search_kept(*old(search), *final(self), *final(search)),
            old(self).search_reserved(*old(search), *final(self), *final(search), r),
    {
        match self.sessions.reserve_new_slot(self.config.max_sessions) {
            Ok(slot) => {
                search.slot = Some(slot);
                search.stage = SearchStage::Permit;
                SearchMove::to(SearchStep::AcquirePermit)
            },
            Err(e) => {
                search.stage = SearchStage::Ended;
                SearchMove::to(SearchStep::Failed(e))
            },
        }
    }

    /// Goes on with the second look at the sessions. While somebody else is
    /// opening a session, that one is waited for; otherwise one is opened.
    /// Where a session with room goes to another pod, the search starts over.
    pub fn sessions_rechecked(
        &mut self,
        search: &mut SessionSearch,
        statuses: &Vec<SessionStatus>,
    ) -> (r: SearchMove)
        requires
            old(self).searching(*old(search)),
            old(search).stage is Recheck,
            statuses@.len() == old(self).sessions.entries@.len(),
            old(self).sessions.entries@.len() + old(self).sessions.opening_count <= usize::MAX,
        ensures
            old(self).search_kept(*old(search), *final(self), *final(search)),
            final(self).hands_out(*final(search), r),
            if old(self).look_settles(*old(search), statuses@) {
                old(self).search_settled(
                    *old(search),
                    statuses@,
                    *final(self),
                    *final(search),
                    r,
                )
            } else if old(self).sessions.opening_count > 0 || old(
                self,
            ).sessions.prefetch_in_flight {
                &&& r.step is AwaitOpen
                &&& r.cancel@.len() == 0
                &&& final(search).stage is AwaitOpen
                &&& final(search).same_goal(*old(search))
                &&& final(self).sessions == old(self).sessions
            } else {
                old(self).search_reserved(*old(search), *final(self), *final(search), r)
            },
    {
        if let Some(settled) = self.try_reuse_session(search, statuses) {
            return settled;
        }
        if self.sessions.has_in_flight_open() {
            search.stage = SearchStage::AwaitOpen;
            return SearchMove::to(SearchStep::AwaitOpen);
        }
        self.reserve(search)
    }

    /// Goes on after waiting for a session that somebody else was opening. If
    /// none with room came of it, one is opened. Where the one with room goes
    /// to another pod, the search starts over.
    pub fn open_awaited(&mut self, search: &mut SessionSearch, statuses: &Vec<SessionStatus>) -> (r:
        SearchMove)
        requires
            old(self).searching(*old(search)),
            old(search).stage is AwaitOpen,
            statuses@.len() == old(self).sessions.entries@.len(),
            old(self).sessions.entries@.len() + old(self).sessions.opening_count <= usize::MAX,
        ensures
            old(self).search_kept(*old(search), *final(self), *final(search)),
            final(self).hands_out(*final(search), r),
            if old(self).look_settles(*old(search), statuses@) {
                old(self).search_settled(
                    *old(search),
                    statuses@,
                    *final(self),
                    *final(search),
                    r,
                )
            } else {
                old(self).search_reserved(*old(search), *final(self), *final(search), r)
            },
    {
        if let Some(settled) = self.try_reuse_session(search, statuses) {
            return settled;
        }
        self.reserve(search)
    }

    /// Gives the reservation of a search back.
    fn release(&mut self, search: &mut SessionSearch)
        requires
            old(search).slot is Some ==> old(self).sessions.opening_count > 0,
        ensures
            final(search).slot is None,
            final(search).stage == old(search).stage,
            final(search).same_goal(*old(search)),
            final(self).sessions.opening_count == others(old(self).sessions, *old(search)),
            final(self).sessions.entries == old(self).sessions.entries,
            final(self).sessions.snapshot == old(self).sessions.snapshot,
            final(self).sessions.target == old(self).sessions.target,
            final(self).sessions.prefetch_in_flight == old(self).sessions.prefetch_in_flight,
            final(self).same_but_pool(*old(self)),
    {
        if let Some(slot) = search.slot.take() {
            slot.release(&mut self.sessions.opening_count);
        }
    }

    /// Goes on once the permission to open a session was given, or not.
    pub fn permit_settled(&mut self, search: &mut SessionSearch, outcome: PermitOutcome) -> (r:
        SearchMove)
        requires
            old(self).searching(*old(search)),
            old(search).stage is Permit,
        ensures
            old(self).search_kept(*old(search), *final(self), *final(search)),
            final(search).same_goal(*old(search)),
            r.cancel@.len() == 0,
            final(self).sessions.entries == old(self).sessions.entries,
            final(self).sessions.target == old(self).sessions.target,
            match outcome {
                PermitOutcome::Acquired => {
                    &&& r.step is OpenSession
                    &&& final(self).told_to_open(*final(search), r.step)
                    &&& final(search).stage is Opening
                },
                PermitOutcome::Closed => r.step matches SearchStep::Failed(e) && e.is_network(
                    "connection slot semaphore closed"@,
                ) && final(search).stage is Ended,
                PermitOutcome::TimedOut => r.step matches SearchStep::Failed(e) && e.is_network(
                    "timed out waiting for connection slot"@,
                ) && final(search).stage is Ended,
            },
    {
        match outcome {
            PermitOutcome::Acquired => {
                search.stage = SearchStage::Opening;
                let pod = search.ready.as_ref().unwrap().clone();
                SearchMove::to(SearchStep::OpenSession { pod, port: search.target_port })
            },
            PermitOutcome::Closed => {
                self.release(search);
                search.stage = SearchStage::Ended;
                SearchMove::to(
                    SearchStep::Failed(
                        Error::Network("connection slot semaphore closed".to_owned()),
                    ),
                )
            },
            PermitOutcome::TimedOut => {
                self.release(search);
                search.stage = SearchStage::Ended;
                SearchMove::to(
                    SearchStep::Failed(
                        Error::Network("timed out waiting for connection slot".to_owned()),
                    ),
                )
            },
        }
    }

    /// What the outcome of opening a session at `now` does to a search.
    pub open spec fn search_opened(
        self,
        before: SessionSearch,
        outcome: Result<u64, Error>,
        now: Instant,
        after: Forwarder,
        search: SessionSearch,
        r: SearchMove,
    ) -> bool {
        &&& search.call_id == before.call_id
        &&& search.target_port == before.target_port
        &&& search.ready == before.ready
        &&& after.sessions.target == self.sessions.target
        &&& match outcome {
            Err(e) => {
                &&& r.step == SearchStep::Failed(e)
                &&& r.cancel@.len() == 0
                &&& search.stage is Ended
                &&& after.sessions.entries == self.sessions.entries
            },
            Ok(session) => if self.sessions.target_id() == identity(before.ready) {
                &&& r.step matches SearchStep::Done { session: opened, pod, fresh } && opened
                    == session && identity(before.ready) == Some(pod@) && fresh
                &&& r.cancel@.len() == 0
                &&& search.stage is Ended
                &&& after.sessions.entries@.len() == self.sessions.entries@.len() + 1
                &&& after.sessions.entries@.drop_last() =~= self.sessions.entries@
                &&& before.ready matches Some(ready) && after.sessions.entries@.last().describes(
                    session,
                    before.target_port,
                    ready@,
                    now,
                )
            } else {
                &&& r.cancel@ =~= seq![session]
                &&& after.sessions.entries == self.sessions.entries
                &&& if before.retry_after_stale_open {
                    &&& r.step is AwaitPod
                    &&& search.stage is AwaitPod
                    &&& !search.retry_after_stale_open
                } else {
                    &&& r.step matches SearchStep::Failed(e) && e.is_configuration(
                        "target pod changed while opening a session"@,
                    )
                    &&& search.stage is Ended
                }
            },
        }
    }

    /// Goes on once a session was opened at `now`, or could not be. It goes
    /// into the pool unless the target changed meanwhile; a stale one is
    /// cancelled, and the search starts over once.
    pub fn session_opened_at(
        &mut self,
        search: &mut SessionSearch,
        outcome: Result<u64, Error>,
        now: Instant,
    ) -> (r: SearchMove)
        requires
            old(self).searching(*old(search)),
            old(search).stage is Opening,
        ensures
            old(self).search_kept(*old(search), *final(self), *final(search)),
            final(self).hands_out(*final(search), r),
            old(self).search_opened(
                *old(search),
                outcome,
                now,
                *final(self),
                *final(search),
                r,
            ),
    {
        let session = match outcome {
            Ok(session) => session,
            Err(e) => {
                self.release(search);
                search.stage = SearchStage::Ended;
                return SearchMove::to(SearchStep::Failed(e));
            },
        };
        let pod = search.ready.as_ref().unwrap().clone();
        let installed = self.sessions.install_at(&pod, search.target_port, session, now);
        self.release(search);
        match installed {
            Ok(session) => {
                proof {
                    let n = self.sessions.entries@.len() - 1;
                    assert(self.sessions.entries@[n] == self.sessions.entries@.last());
                }
                search.stage = SearchStage::Ended;
                SearchMove::to(SearchStep::Done { session, pod, fresh: true })
            },
            Err(stale) => {
                let mut cancel: Vec<u64> = Vec::new();
                cancel.push(stale);
                if search.retry_after_stale_open {
                    search.retry_after_stale_open = false;
                    search.stage = SearchStage::AwaitPod;
                    return SearchMove { step: SearchStep::AwaitPod, cancel };
                }
                search.stage = SearchStage::Ended;
                SearchMove {
                    step: SearchStep::Failed(
                        Error::Configuration(
                            "target pod changed while opening a session".to_owned(),
                        ),
                    ),
                    cancel,
                }
            },
        }
    }

    /// Goes on once a session was opened now; see
    /// [`session_opened_at`](Forwarder::session_opened_at).
    pub fn session_opened(&mut self, search: &mut SessionSearch, outcome: Result<u64, Error>) -> (r:
        SearchMove)
        requires
            old(self).searching(*old(search)),
            old(search).stage is Opening,
        ensures
            old(self).search_kept(*old(search), *final(self), *final(search)),
            final(self).hands_out(*final(search), r),
            exists|now: Instant| #[trigger]
                old(self).search_opened(
                    *old(search),
                    outcome,
                    now,
                    *final(self),
                    *final(search),
                    r,
                ),
    {
        let now = Instant::now();
        self.session_opened_at(search, outcome, now)
    }

    /// Gives up a search that nobody waits for any more, wherever it is.
    pub fn search_dropped(&mut self, search: SessionSearch)
        requires
            old(self).searching(search),
        ensures
            final(self).sessions.wf(),
            final(self).sessions.opening_count == others(old(self).sessions, search),
            final(self).sessions.entries == old(self).sessions.entries,
            final(self).sessions.target == old(self).sessions.target,
            final(self).sessions.prefetch_in_flight == old(self).sessions.prefetch_in_flight,
            final(self).same_but_pool(*old(self)),
    {
        let mut dropped = search;
        self.release(&mut dropped);
    }

    /// Takes an event of the subscription to pod changes. Only the death of
    /// the target counts.
    pub fn reactor_event(&mut self, event: ReactorEvent) -> (action: ReactorAction)
        requires
            old(self).sessions.wf(),
        ensures
            final(self).sessions.wf(),
            final(self).same_but_pool(*old(self)),
            match event {
                ReactorEvent::Cancelled => action is Stop,
                ReactorEvent::Closed => action is Stop,
                ReactorEvent::Change(PodChange::Died(name)) => match action {
                    ReactorAction::Drained { cancel, signal } => {
                        &&& signal is ServerClose
                        &&& old(self).sessions.pod_died(name@, final(self).sessions, Some(cancel@))
                    },
                    ReactorAction::Next => old(self).sessions.pod_died(
                        name@,
                        final(self).sessions,
                        None,
                    ),
                    ReactorAction::Stop => false,
                },
                _ => action is Next,
            },
            !(event matches ReactorEvent::Change(PodChange::Died(_))) ==> final(self).sessions
                == old(self).sessions,
    {
        match event {
            ReactorEvent::Cancelled => ReactorAction::Stop,
            ReactorEvent::Closed => ReactorAction::Stop,
            ReactorEvent::Lagged => ReactorAction::Next,
            ReactorEvent::Change(PodChange::Ready(_)) => ReactorAction::Next,
            ReactorEvent::Change(PodChange::Died(name)) => match self.sessions.handle_pod_died(
                name.as_str(),
            ) {
                Some(cancel) => ReactorAction::Drained {
                    cancel,
                    signal: RecoverySignal::ServerClose,
                },
                None => ReactorAction::Next,
            },
        }
    }
}

impl SessionPool {
    /// What the death of a pod does: that of the target empties the pool, any
    /// other leaves it as it is.
    pub open spec fn pod_died(
        self,
        name: Seq<char>,
        after: SessionPool,
        drained: Option<Seq<u64>>,
    ) -> bool {
        if self.target matches Some(target) && target.name@ == name {
            &&& after.target is None
            &&& after.entries@.len() == 0
            &&& after.prefetch_in_flight == self.prefetch_in_flight
            &&& after.opening_count == self.opening_count
            &&& drained == Some(ids(self.entries@))
        } else {
            after == self && drained is None
        }
    }

    /// Takes notice of the death of a pod. The result, if the pod was the
    /// target, are the sessions to cancel.
    pub fn handle_pod_died(&mut self, dead_pod_name: &str) -> (r: Option<Vec<u64>>)
        requires
            old(self).wf(),
        ensures
            final(self).wf(),
            old(self).pod_died(
                dead_pod_name@,
                *final(self),
                match r {
                    Some(drained) => Some(drained@),
                    None => None,
                },
            ),
    {
        let died = match &self.target {
            Some(target) => str_eq(target.name.as_str(), dead_pod_name),
            None => false,
        };
        if !died {
            return None;
        }
        Some(self.drain_and_cancel_all())
    }
}

/// A search holds no reservation once it is over, or starts over: those of
/// others are all that is left.
pub proof fn law_search_returns_its_slot(
    forwarder: Forwarder,
    before: SessionSearch,
    after: Forwarder,
    search: SessionSearch,
)
    requires
        forwarder.search_kept(before, after, search),
        search.stage is Ended || search.stage is AwaitPod,
    ensures
        after.sessions.opening_count == others(forwarder.sessions, before),
{
}

/// A session that was opened for a pod which is no longer the target never
/// gets into the pool and is always cancelled; one for the target is never
/// cancelled.
pub proof fn law_stale_session_is_cancelled(
    forwarder: Forwarder,
    before: SessionSearch,
    session: u64,
    now: Instant,
    after: Forwarder,
    search: SessionSearch,
    r: SearchMove,
)
    requires
        forwarder.search_opened(before, Ok(session), now, after, search, r),
    ensures
        forwarder.sessions.target_id() != identity(before.ready) ==> r.cancel@ == seq![session]
            && after.sessions.entries == forwarder.sessions.entries && !(r.step is Done),
        forwarder.sessions.target_id() == identity(before.ready) ==> r.cancel@.len() == 0
            && ids(after.sessions.entries@).contains(session) && (
        r.step matches SearchStep::Done { session: opened, fresh, .. } && opened == session
            && fresh),
{
    if forwarder.sessions.target_id() == identity(before.ready) {
        let n = forwarder.sessions.entries@.len() as int;
        assert(ids(after.sessions.entries@)[n] == session);
    }
}

/// A session that a search hands out, by reuse or fresh, was opened to the
/// port that was asked for, and to the pod that the step names, uid included:
/// that of the search, which is the target.
pub proof fn law_session_reaches_pod_and_port(
    forwarder: Forwarder,
    before: SessionSearch,
    statuses: Seq<SessionStatus>,
    after: Forwarder,
    search: SessionSearch,
    r: SearchMove,
    outcome: Result<u64, Error>,
    now: Instant,
)
    requires
        forwarder.sessions.wf(),
        statuses.len() == forwarder.sessions.entries@.len(),
        forwarder.search_settled(before, statuses, after, search, r) || forwarder.search_opened(
            before,
            outcome,
            now,
            after,
            search,
            r,
        ),
    ensures
        after.hands_out(search, r),
        search.target_port == before.target_port,
        search.ready == before.ready,
{
    if forwarder.search_settled(before, statuses, after, search, r) {
        super::pool::law_reused_session_reaches_the_target(
            forwarder.sessions,
            statuses,
            before.target_port,
        );
    } else if r.step is Done {
        let n = after.sessions.entries@.len() - 1;
        assert(after.sessions.entries@[n] == after.sessions.entries@.last());
    }
}

/// A search starts over for a stale opening at most once: an opening that
/// follows a stale one ends it.
pub proof fn law_search_retries_once(
    first: Forwarder,
    before: SessionSearch,
    outcome: Result<u64, Error>,
    now: Instant,
    between: Forwarder,
    search: SessionSearch,
    r: SearchMove,
    second: Forwarder,
    again: SessionSearch,
    second_outcome: Result<u64, Error>,
    later: Instant,
    after: Forwarder,
    last: SessionSearch,
    last_move: SearchMove,
)
    requires
        first.search_opened(before, outcome, now, between, search, r),
        r.step is AwaitPod,
        again.retry_after_stale_open == search.retry_after_stale_open,
        second.search_opened(again, second_outcome, later, after, last, last_move),
    ensures
        last.stage is Ended,
        last_move.step is Done || last_move.step is Failed,
{
}

/// A search looks no further exactly if the pool has a session to its port
/// that is neither cancelled nor full. With its pod as the target it then ends
/// with that session.
pub proof fn law_search_shares_an_open_session(
    forwarder: Forwarder,
    search: SessionSearch,
    statuses: Seq<SessionStatus>,
    after: Forwarder,
    ended: SessionSearch,
    r: SearchMove,
)
    requires
        statuses.len() == forwarder.sessions.entries@.len(),
    ensures
        forwarder.look_settles(search, statuses) <==> exists|i: int|
            {
                &&& 0 <= i < forwarder.sessions.entries@.len()
                &&& (#[trigger] forwarder.sessions.entries@[i]).port == search.target_port
                &&& !statuses[i].cancelled
                &&& !statuses[i].full
            },
        forwarder.search_settled(search, statuses, after, ended, r)
            && forwarder.sessions.target_id() == identity(search.ready) ==> (
        r.step matches SearchStep::Done { session, pod, fresh } && {
            &&& !fresh
            &&& identity(search.ready) == Some(pod@)
            &&& r.cancel@.len() == 0
            &&& ended.stage is Ended
            &&& exists|i: int|
                {
                    &&& 0 <= i < forwarder.sessions.entries@.len()
                    &&& (#[trigger] forwarder.sessions.entries@[i]).session == session
                    &&& forwarder.sessions.entries@[i].port == search.target_port
                    &&& !statuses[i].cancelled
                    &&& !statuses[i].full
                    &&& forall|j: int|
                        0 <= j < i && (#[trigger] forwarder.sessions.entries@[j]).port
                            == search.target_port ==> statuses[j].cancelled || statuses[j].full
                }
        }),
        forwarder.search_settled(search, statuses, after, ended, r)
            && forwarder.sessions.target_id() != identity(search.ready) ==> r.step is AwaitPod
            && r.cancel@.len() == 0 && ended.stage is AwaitPod,
        forwarder.search_settled(search, statuses, after, ended, r) ==> {
            &&& after.sessions == forwarder.sessions
            &&& ended.target_port == search.target_port
            &&& ended.ready == search.ready
            &&& ended.retry_after_stale_open == search.retry_after_stale_open
        },
{
    let entries = forwarder.sessions.entries@;
    let seen = shown(entries);
    super::pool::law_open_sessions_are_shared(seen, statuses, search.target_port);
    if let Some(session) = first_reusable(seen, statuses, search.target_port) {
        let i = choose|i: int|
            {
                &&& 0 <= i < seen.len()
                &&& (#[trigger] seen[i]).session == session
                &&& seen[i].port == search.target_port
                &&& !statuses[i].cancelled
                &&& !statuses[i].full
                &&& forall|j: int|
                    0 <= j < i && (#[trigger] seen[j]).port == search.target_port
                        ==> statuses[j].cancelled || statuses[j].full
            };
        assert(entries[i].port == search.target_port);
        assert(entries[i].session == session);
        assert forall|j: int| 0 <= j < i && (#[trigger] entries[j]).port
            == search.target_port implies statuses[j].cancelled || statuses[j].full by {
            assert(seen[j].port == entries[j].port);
        }
    } else {
        assert forall|i: int| 0 <= i < entries.len() && (#[trigger] entries[i]).port
            == search.target_port implies statuses[i].cancelled || statuses[i].full by {
            assert(seen[i].port == entries[i].port);
        }
    }
}

/// A session is opened on demand only while the pool and the openings together
/// are below the limit, and then always; at the limit the search fails and
/// says how many there are. Either way the pool stays as it is.
pub proof fn law_openings_stop_at_the_limit(
    forwarder: Forwarder,
    before: SessionSearch,
    after: Forwarder,
    search: SessionSearch,
    r: SearchMove,
)
    requires
        forwarder.search_reserved(before, after, search, r),
        forwarder.sessions.entries@.len() + forwarder.sessions.opening_count <= usize::MAX,
    ensures
        r.step is AcquirePermit <==> forwarder.sessions.entries@.len()
            + forwarder.sessions.opening_count < forwarder.config.max_sessions,
        r.step is AcquirePermit <==> search.stage is Permit,
        !(r.step is AcquirePermit) ==> (r.step matches SearchStep::Failed(
            Error::CapacityExhausted { in_use, capacity },
        ) && in_use == forwarder.sessions.entries@.len() + forwarder.sessions.opening_count
            && capacity == forwarder.config.max_sessions && search.stage is Ended),
        after.sessions.entries@ == forwarder.sessions.entries@,
        after.sessions.target == forwarder.sessions.target,
        r.cancel@.len() == 0,
{
}

/// A reservation is counted while it is held: a step that takes one adds one
/// opening, a step that gives it back takes one off, and any other leaves the
/// count.
pub proof fn law_reservations_are_counted(
    forwarder: Forwarder,
    before: SessionSearch,
    after: Forwarder,
    search: SessionSearch,
)
    requires
        forwarder.search_kept(before, after, search),
    ensures
        before.slot is None && search.slot is Some ==> after.sessions.opening_count
            == forwarder.sessions.opening_count + 1,
        before.slot is Some && search.slot is None ==> after.sessions.opening_count
            == forwarder.sessions.opening_count - 1,
        before.slot is Some == search.slot is Some ==> after.sessions.opening_count
            == forwarder.sessions.opening_count,
        search.slot is Some <==> search.stage is Permit || search.stage is Opening,
        after.sessions.prefetch_in_flight == forwarder.sessions.prefetch_in_flight,
        forwarder.sessions.entries@.len() + forwarder.sessions.opening_count
            <= forwarder.config.max_sessions ==> after.sessions.entries@.len()
            + after.sessions.opening_count <= forwarder.config.max_sessions,
        forwarder.sessions.opening_count <= forwarder.config.max_sessions
            && forwarder.sessions.entries@.len() + forwarder.sessions.opening_count <= 2
            * forwarder.config.max_sessions ==> after.sessions.opening_count
            <= forwarder.config.max_sessions && after.sessions.entries@.len()
            + after.sessions.opening_count <= 2 * forwarder.config.max_sessions,
        after.config == forwarder.config,
        after.namespace == forwarder.namespace,
        after.pf_client == forwarder.pf_client,
        after.pod_watcher == forwarder.pod_watcher,
        after.call_counter == forwarder.call_counter,
        after.closed == forwarder.closed,
{
}

/// Opening a session ends the search with that session, or starts it over, or
/// fails it: with the session where the search's pod is still the target, the
/// session then being the last of the pool; otherwise it is cancelled. A
/// session that could not be opened fails the search with that very error.
pub proof fn law_opened_session_is_used_or_cancelled(
    forwarder: Forwarder,
    before: SessionSearch,
    ready: ReadyPod,
    outcome: Result<u64, Error>,
    now: Instant,
    after: Forwarder,
    search: SessionSearch,
    r: SearchMove,
)
    requires
        before.ready == Some(ready),
        forwarder.search_opened(before, outcome, now, after, search, r),
    ensures
        r.step is Done <==> outcome is Ok && (forwarder.sessions.target matches Some(target)
            && target@ == ready@),
        r.step matches SearchStep::Done { session, pod, fresh } ==> {
            let n = forwarder.sessions.entries@.len() as int;
            &&& outcome == Ok::<u64, Error>(session)
            &&& pod@ == ready@
            &&& fresh
            &&& after.sessions.entries@.len() == n + 1
            &&& after.sessions.entries@.take(n) == forwarder.sessions.entries@
            &&& after.sessions.entries@[n].session == session
            &&& after.sessions.entries@[n].port == before.target_port
            &&& after.sessions.entries@[n].opened_for@ == ready@
            &&& after.sessions.entries@[n].created_at == now
        },
        outcome matches Ok(session) ==> (!(r.step is Done) ==> r.cancel@ == seq![session]
            && after.sessions.entries@ == forwarder.sessions.entries@),
        outcome matches Err(e) ==> r.step == SearchStep::Failed(e) && r.cancel@.len() == 0
            && after.sessions.entries@ == forwarder.sessions.entries@,
        r.step is AwaitPod <==> outcome is Ok && !(r.step is Done) && before.retry_after_stale_open,
        r.step is AwaitPod ==> !search.retry_after_stale_open && search.stage is AwaitPod,
        r.step is Failed ==> search.stage is Ended,
        r.step is Done || r.step is AwaitPod || r.step is Failed,
        search.target_port == before.target_port,
{
    if r.step is Done {
        let n = forwarder.sessions.entries@.len() as int;
        assert(after.sessions.entries@.take(n) =~= after.sessions.entries@.drop_last());
        assert(after.sessions.entries@[n] == after.sessions.entries@.last());
    }
}

/// The death of a pod empties the pool exactly if that pod is the target, by
/// name; every session of the pool is then cancelled, and the target is
/// forgotten. The death of any other pod changes nothing.
pub proof fn law_only_the_targets_death_drains(
    pool: SessionPool,
    name: Seq<char>,
    after: SessionPool,
    drained: Option<Seq<u64>>,
)
    requires
        pool.pod_died(name, after, drained),
    ensures
        drained is Some <==> (pool.target matches Some(target) && target.name@ == name),
        drained is None ==> after == pool,
        drained matches Some(sessions) ==> {
            &&& sessions.len() == pool.entries@.len()
            &&& forall|i: int|
                0 <= i < sessions.len() ==> #[trigger] sessions[i] == pool.entries@[i].session
            &&& after.entries@.len() == 0
            &&& after.target is None
            &&& after.opening_count == pool.opening_count
            &&& after.prefetch_in_flight == pool.prefetch_in_flight
        },
{
}

} // verus!
