//! Opening sessions ahead of need, and closing idle ones.
use super::lifecycle::bounded;
use super::lifecycle::capped;
use super::pool::split_entries;
use super::pool::same_target;
use super::pool::SessionPool;
use super::pool::SessionStatus;
use super::Forwarder;
use crate::error::Error;
use crate::outside::clock::duration_nanos;
use crate::pod_watch::PodIdentity;
use crate::pod_watch::ReadyPod;
use quanta::Instant;
use std::time::Duration;
use vstd::prelude::*;

verus! {

/// What was seen of a session that was just handed out.
#[derive(Clone, Copy, Debug, PartialEq, Eq, Structural)]
pub struct SessionLoad {
    /// The spare streams have run low.
    pub needs_replenish: bool,
    /// No connection can take another stream.
    pub full: bool,
    /// Streams that the session is scheduled for.
    pub operating_capacity: usize,
    /// The share of streams in use has reached the threshold.
    pub over_threshold: bool,
}

/// What to start for a session that was just handed out.
#[derive(Clone, Copy, Debug, PartialEq, Eq, Structural)]
pub struct PrefetchActions {
    /// Replenish the session's spare streams.
    pub replenish: bool,
    /// Open another session to the same pod.
    pub open: bool,
}

/// What becomes of a session that was opened ahead of need.
pub enum PrefetchEnd {
    /// It is in the pool: wake those who wait for a session.
    Installed,
    /// It came too late: cancel it.
    Cancel { session: u64 },
    /// It could not be opened.
    Failed(Error),
}

/// Whether another session is to be opened ahead of need.
pub open spec fn wants_prefetch(
    pool: SessionPool,
    max_sessions: usize,
    load: SessionLoad,
    ready: PodIdentity,
) -> bool {
    &&& load.operating_capacity > 0
    &&& load.over_threshold
    &&& !pool.prefetch_in_flight
    &&& pool.entries@.len() < max_sessions
    &&& pool.target_id() == Some(ready)
}

/// Whether an entry of this age, in nanoseconds, is to be pruned: it is
/// cancelled, or unused and older than `idle_age`.
pub open spec fn prunable(status: SessionStatus, age: u128, idle_age: nat) -> bool {
    status.cancelled || (status.in_use == 0 && age > idle_age)
}

/// How many entries a pruning may take: all but one.
pub open spec fn prune_limit(n: nat) -> nat {
    if n > 0 {
        (n - 1) as nat
    } else {
        0
    }
}

impl SessionPool {
    /// What the end of a prefetch at `now` does.
    pub open spec fn prefetch_ended(
        self,
        max_sessions: usize,
        target: PodIdentity,
        port: u16,
        outcome: Result<u64, Error>,
        now: Instant,
        after: SessionPool,
        end: PrefetchEnd,
    ) -> bool {
        &&& !after.prefetch_in_flight
        &&& after.opening_count == self.opening_count
        &&& after.target == self.target
        &&& match outcome {
            Ok(session) => if self.entries@.len() < max_sessions && self.target_id() == Some(
                target,
            ) {
                &&& end is Installed
                &&& after.entries@.len() == self.entries@.len() + 1
                &&& after.entries@.drop_last() =~= self.entries@
                &&& after.entries@.last().describes(session, port, target, now)
            } else {
                &&& end == (PrefetchEnd::Cancel { session })
                &&& after.entries == self.entries
            },
            Err(e) => {
                &&& end == PrefetchEnd::Failed(e)
                &&& after.entries == self.entries
            },
        }
    }

    /// Ends a prefetch for `port` of `target` at `now`.
    pub fn prefetch_opened_at(
        &mut self,
        max_sessions: usize,
        target: &ReadyPod,
        port: u16,
        outcome: Result<u64, Error>,
        now: Instant,
    ) -> (end: PrefetchEnd)
        requires
            old(self).wf(),
        ensures
            final(self).wf(),
            old(self).prefetch_ended(max_sessions, target@, port, outcome, now, *final(self), end),
    {
        self.prefetch_in_flight = false;
        match outcome {
            Ok(session) => {
                if self.entries.len() >= max_sessions {
                    return PrefetchEnd::Cancel { session };
                }
                match self.install_at(target, port, session, now) {
                    Ok(_) => PrefetchEnd::Installed,
                    Err(stale) => PrefetchEnd::Cancel { session: stale },
                }
            },
            Err(e) => PrefetchEnd::Failed(e),
        }
    }

    /// What a pruning does to entries of these ages.
    pub open spec fn pruned(
        self,
        statuses: Seq<SessionStatus>,
        ages: Seq<u128>,
        idle_age: nat,
        after: SessionPool,
        dropped: Seq<u64>,
    ) -> bool {
        let marked = |i: int| prunable(statuses[i], ages[i], idle_age);
        let limit = prune_limit(self.entries@.len());
        &&& after.same_counts(self)
        &&& after.entries@ == split_entries(self.entries@, marked, limit).0
        &&& dropped == split_entries(self.entries@, marked, limit).1
    }

    /// Takes out sessions that are cancelled, or unused and older than
    /// `idle_age`, where `ages` are those of the entries in nanoseconds. One
    /// entry always stays. The result are the sessions to cancel.
    pub fn prune_aged(
        &mut self,
        statuses: &Vec<SessionStatus>,
        ages: &Vec<u128>,
        idle_age: Duration,
    ) -> (dropped: Vec<u64>)
        requires
            old(self).wf(),
            statuses@.len() == old(self).entries@.len(),
            ages@.len() == old(self).entries@.len(),
        ensures
            final(self).wf(),
            old(self).pruned(
                statuses@,
                ages@,
                duration_nanos(idle_age),
                *final(self),
                dropped@,
            ),
    {
        let idle_nanos: u128 = idle_age.as_nanos();
        let n = self.entries.len();
        let limit = n.saturating_sub(1);
        let mut marked: Vec<bool> = Vec::new();
        let mut i: usize = 0;
        while i < n
            invariant
                i <= n,
                n == statuses@.len(),
                n == ages@.len(),
                idle_nanos == duration_nanos(idle_age),
                marked@.len() == i,
                forall|j: int|
                    0 <= j < i ==> #[trigger] marked@[j] == prunable(
                        statuses@[j],
                        ages@[j],
                        duration_nanos(idle_age),
                    ),
            decreases n - i,
        {
            marked.push(statuses[i].cancelled || (statuses[i].in_use == 0 && ages[i] > idle_nanos));
            i = i + 1;
        }
        proof {
            super::pool::lemma_split_congruent(
                self.entries@,
                |k: int| marked@[k],
                |k: int| prunable(statuses@[k], ages@[k], duration_nanos(idle_age)),
                limit as nat,
            );
        }
        self.extract(&marked, limit)
    }
}

impl Forwarder {
    /// Decides what to start for a session that was just handed out for
    /// `ready`.
    pub fn maybe_prefetch(&mut self, load: SessionLoad, ready: &ReadyPod) -> (r: PrefetchActions)
        ensures
            r.replenish == (load.needs_replenish && !load.full),
            r.open == wants_prefetch(
                old(self).sessions,
                old(self).config.max_sessions,
                load,
                ready@,
            ),
            final(self).sessions.prefetch_in_flight == (old(self).sessions.prefetch_in_flight
                || r.open),
            final(self).sessions.entries == old(self).sessions.entries,
            final(self).sessions.target == old(self).sessions.target,
            final(self).sessions.opening_count == old(self).sessions.opening_count,
            final(self).sessions.snapshot == old(self).sessions.snapshot,
            final(self).same_but_pool(*old(self)),
    {
        let replenish = load.needs_replenish && !load.full;
        if load.operating_capacity == 0 || !load.over_threshold {
            return PrefetchActions { replenish, open: false };
        }
        if self.sessions.prefetch_in_flight || self.sessions.entries.len()
            >= self.config.max_sessions || !same_target(&self.sessions.target, ready) {
            return PrefetchActions { replenish, open: false };
        }
        self.sessions.prefetch_in_flight = true;
        PrefetchActions { replenish, open: true }
    }

    /// Ends a prefetch for `port` of `target` now; see
    /// [`prefetch_opened_at`](SessionPool::prefetch_opened_at).
    pub fn prefetch_opened(
        &mut self,
        target: &ReadyPod,
        port: u16,
        outcome: Result<u64, Error>,
    ) -> (end: PrefetchEnd)
        requires
            old(self).sessions.wf(),
        ensures
            final(self).sessions.wf(),
            exists|now: Instant| #[trigger]
                old(self).sessions.prefetch_ended(
                    old(self).config.max_sessions,
                    target@,
                    port,
                    outcome,
                    now,
                    final(self).sessions,
                    end,
                ),
            final(self).same_but_pool(*old(self)),
    {
        let now = Instant::now();
        self.sessions.prefetch_opened_at(self.config.max_sessions, target, port, outcome, now)
    }

    /// Prunes the pool once. How old the entries are, the clock decides; see
    /// [`prune_aged`](SessionPool::prune_aged).
    pub fn prune_once(&mut self, statuses: &Vec<SessionStatus>) -> (dropped: Vec<u64>)
        requires
            old(self).sessions.wf(),
            statuses@.len() == old(self).sessions.entries@.len(),
        ensures
            final(self).sessions.wf(),
            exists|ages: Seq<u128>|
                ages.len() == statuses@.len() && #[trigger] old(self).sessions.pruned(
                    statuses@,
                    ages,
                    duration_nanos(old(self).config.prune_idle_age),
                    final(self).sessions,
                    dropped@,
                ),
            final(self).same_but_pool(*old(self)),
    {
        let n = self.sessions.entries.len();
        let mut ages: Vec<u128> = Vec::new();
        let mut i: usize = 0;
        while i < n
            invariant
                i <= n,
                n == self.sessions.entries@.len(),
                ages@.len() == i,
            decreases n - i,
        {
            ages.push(self.sessions.entries[i].created_at.elapsed().as_nanos());
            i = i + 1;
        }
        self.sessions.prune_aged(statuses, &ages, self.config.prune_idle_age)
    }
}

/// A pruning never empties a pool, and never takes a session that is in use
/// unless it is cancelled.
pub proof fn law_pruning_is_safe(
    pool: SessionPool,
    statuses: Seq<SessionStatus>,
    ages: Seq<u128>,
    idle_age: nat,
    after: SessionPool,
    dropped: Seq<u64>,
)
    requires
        pool.pruned(statuses, ages, idle_age, after, dropped),
        statuses.len() == pool.entries@.len(),
        ages.len() == pool.entries@.len(),
    ensures
        pool.entries@.len() > 0 ==> after.entries@.len() > 0,
        after.entries@.len() + dropped.len() == pool.entries@.len(),
        forall|j: int|
            0 <= j < dropped.len() ==> super::pool::has_entry(
                pool.entries@,
                |i: int| prunable(statuses[i], ages[i], idle_age),
                true,
                #[trigger] dropped[j],
            ),
{
    super::pool::law_split_keeps_every_session(
        pool.entries@,
        |i: int| prunable(statuses[i], ages[i], idle_age),
        prune_limit(pool.entries@.len()),
    );
}

/// At most one session at a time is opened ahead of need, and never for a pod
/// that is not the target.
pub proof fn law_one_prefetch_at_a_time(
    pool: SessionPool,
    max_sessions: usize,
    load: SessionLoad,
    ready: PodIdentity,
)
    ensures
        pool.prefetch_in_flight ==> !wants_prefetch(pool, max_sessions, load, ready),
        pool.target_id() != Some(ready) ==> !wants_prefetch(pool, max_sessions, load, ready),
        pool.entries@.len() >= max_sessions ==> !wants_prefetch(pool, max_sessions, load, ready),
{
}

/// The end of a prefetch does not ask how many sessions are being opened on
/// demand, so it may exceed the limit of both together, by one session. It
/// never lets the pool itself grow beyond `max_sessions`, and pool and
/// openings stay within twice that.
pub proof fn law_prefetch_keeps_the_pool_capped(
    pool: SessionPool,
    max_sessions: usize,
    target: PodIdentity,
    port: u16,
    outcome: Result<u64, Error>,
    now: Instant,
    after: SessionPool,
    end: PrefetchEnd,
)
    requires
        pool.prefetch_ended(max_sessions, target, port, outcome, now, after, end),
    ensures
        end is Installed ==> after.entries@.len() <= max_sessions,
        bounded(pool, max_sessions) ==> after.entries@.len() + after.opening_count <= max_sessions
            + 1,
        capped(pool, max_sessions) ==> capped(after, max_sessions),
{
}

/// What takes sessions out of the pool keeps it capped: a pruning, the death
/// of a pod, and a change of the target.
pub proof fn law_removals_keep_the_pool_capped(
    pool: SessionPool,
    max_sessions: usize,
    statuses: Seq<SessionStatus>,
    ages: Seq<u128>,
    idle_age: nat,
    pruned: SessionPool,
    dropped: Seq<u64>,
    name: Seq<char>,
    died: SessionPool,
    drained: Option<Seq<u64>>,
    emptied: SessionPool,
)
    requires
        capped(pool, max_sessions),
        statuses.len() == pool.entries@.len(),
        ages.len() == pool.entries@.len(),
        pool.pruned(statuses, ages, idle_age, pruned, dropped),
        pool.pod_died(name, died, drained),
        emptied.entries@.len() == 0,
        emptied.opening_count == pool.opening_count,
    ensures
        capped(pruned, max_sessions),
        capped(died, max_sessions),
        capped(emptied, max_sessions),
{
    law_pruning_is_safe(pool, statuses, ages, idle_age, pruned, dropped);
}

/// A pruning never takes out a session that carries a stream, or that is not
/// older than the limit, unless it is cancelled. Of the others it takes the
/// first ones, as long as one session stays: whatever stays though it could
/// go, stays because all the others went.
pub proof fn law_pruning_spares_sessions_in_use(
    pool: SessionPool,
    statuses: Seq<SessionStatus>,
    ages: Seq<u128>,
    idle_age: nat,
    after: SessionPool,
    dropped: Seq<u64>,
    i: int,
)
    requires
        pool.pruned(statuses, ages, idle_age, after, dropped),
        statuses.len() == pool.entries@.len(),
        ages.len() == pool.entries@.len(),
        0 <= i < pool.entries@.len(),
    ensures
        !statuses[i].cancelled && statuses[i].in_use > 0 ==> after.entries@.contains(
            pool.entries@[i],
        ),
        !statuses[i].cancelled && ages[i] <= idle_age ==> after.entries@.contains(pool.entries@[i]),
        (statuses[i].cancelled || (statuses[i].in_use == 0 && ages[i] > idle_age)) && dropped.len()
            + 1 < pool.entries@.len() ==> dropped.contains(pool.entries@[i].session),
        forall|j: int|
            0 <= j < dropped.len() ==> exists|e: int|
                {
                    &&& 0 <= e < pool.entries@.len()
                    &&& pool.entries@[e].session == #[trigger] dropped[j]
                    &&& (#[trigger] statuses[e]).cancelled || (statuses[e].in_use == 0 && ages[e]
                        > idle_age)
                },
        after.entries@.len() >= 1,
        after.entries@.len() + dropped.len() == pool.entries@.len(),
        after.target == pool.target,
        after.opening_count == pool.opening_count,
        after.prefetch_in_flight == pool.prefetch_in_flight,
{
    let marked = |j: int| prunable(statuses[j], ages[j], idle_age);
    let limit = prune_limit(pool.entries@.len());
    let before = split_entries(pool.entries@.take(i), marked, limit);
    super::pool::law_split_goes_in_order(pool.entries@, marked, limit, i);
    super::pool::law_split_keeps_every_session(pool.entries@, marked, limit);
    super::pool::law_split_keeps_every_session(pool.entries@.take(i), marked, limit);
    if !marked(i) {
        assert(after.entries@[before.0.len() as int] == pool.entries@[i]);
    } else if before.1.len() < limit {
        assert(dropped[before.1.len() as int] == pool.entries@[i].session);
    }
    assert forall|j: int| 0 <= j < dropped.len() implies exists|e: int|
        {
            &&& 0 <= e < pool.entries@.len()
            &&& pool.entries@[e].session == #[trigger] dropped[j]
            &&& (#[trigger] statuses[e]).cancelled || (statuses[e].in_use == 0 && ages[e]
                > idle_age)
        } by {
        assert(super::pool::has_entry(pool.entries@, marked, true, dropped[j]));
        let e = choose|e: int|
            0 <= e < pool.entries@.len() && marked(e) == true && (
            #[trigger] pool.entries@[e]).session == dropped[j];
        assert(prunable(statuses[e], ages[e], idle_age));
        assert(statuses[e].cancelled || statuses[e].in_use == 0);
    }
}

/// A session is opened ahead of need exactly under load, with room in the pool
/// and for the target, while no other is: where one is wanted, a busier
/// session would want one too; and without load, without room, for another
/// pod, or while one is being opened, none is.
pub proof fn law_prefetch_needs_load_and_room(
    pool: SessionPool,
    target: ReadyPod,
    max_sessions: usize,
    load: SessionLoad,
    ready: ReadyPod,
)
    requires
        pool.target == Some(target),
    ensures
        load.operating_capacity == 0 ==> !wants_prefetch(pool, max_sessions, load, ready@),
        !load.over_threshold ==> !wants_prefetch(pool, max_sessions, load, ready@),
        pool.prefetch_in_flight ==> !wants_prefetch(pool, max_sessions, load, ready@),
        max_sessions <= pool.entries@.len() ==> !wants_prefetch(pool, max_sessions, load, ready@),
        target.name@ != ready.name@ ==> !wants_prefetch(pool, max_sessions, load, ready@),
        target@ != ready@ ==> !wants_prefetch(pool, max_sessions, load, ready@),
        ({
            &&& load.operating_capacity > 0
            &&& load.over_threshold
            &&& !pool.prefetch_in_flight
            &&& pool.entries@.len() < max_sessions
            &&& target@ == ready@
        }) ==> wants_prefetch(pool, max_sessions, load, ready@),
{
}

/// The end of a prefetch leaves none under way, whatever came of it. A session
/// that was opened joins the pool exactly if there is room and its pod is the
/// target; it is then the last entry, with its port. Otherwise it is cancelled,
/// and a failure leaves the pool as it was.
pub proof fn law_prefetch_ends_cleanly(
    pool: SessionPool,
    max_sessions: usize,
    target: PodIdentity,
    port: u16,
    outcome: Result<u64, Error>,
    now: Instant,
    after: SessionPool,
    end: PrefetchEnd,
)
    requires
        pool.prefetch_ended(max_sessions, target, port, outcome, now, after, end),
    ensures
        !after.prefetch_in_flight,
        after.opening_count == pool.opening_count,
        after.target == pool.target,
        end is Installed <==> outcome is Ok && pool.entries@.len() < max_sessions && (
        pool.target matches Some(own) && own@ == target),
        end is Failed <==> outcome is Err,
        end matches PrefetchEnd::Cancel { session } ==> outcome == Ok::<u64, Error>(session),
        end matches PrefetchEnd::Failed(e) ==> outcome == Err::<u64, Error>(e),
        end is Installed ==> {
            let n = pool.entries@.len() as int;
            &&& after.entries@.len() == n + 1
            &&& after.entries@.take(n) == pool.entries@
            &&& after.entries@[n].session == outcome->Ok_0
            &&& after.entries@[n].port == port
            &&& after.entries@[n].opened_for@ == target
            &&& after.entries@[n].created_at == now
        },
        !(end is Installed) ==> after.entries@ == pool.entries@,
{
    if end is Installed {
        let n = pool.entries@.len() as int;
        assert(after.entries@.take(n) =~= after.entries@.drop_last());
        assert(after.entries@[n] == after.entries@.last());
    }
}

} // verus!
