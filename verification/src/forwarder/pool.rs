//! The pool of sessions to the current target pod.
//!
//! Sessions are kept by the caller under numbers of its choice. What happens
//! to them by themselves is handed in as a [`SessionStatus`] for each.
use crate::error::Error;
use crate::pod_watch::identity;
use crate::pod_watch::PodIdentity;
use crate::pod_watch::ReadyPod;
use crate::text::opt_str_eq;
use crate::text::opt_text;
use crate::text::str_eq;
use quanta::Instant;
use vstd::prelude::*;

verus! {

/// A session of the pool.
pub struct PooledSession {
    pub session: u64,
    /// The port that its streams go to.
    pub port: u16,
    /// The pod that it was opened to.
    pub opened_for: ReadyPod,
    pub created_at: Instant,
}

/// What readers of the pool see of a session.
#[derive(Clone, Copy, Debug, PartialEq, Eq, Structural)]
pub struct SharedSession {
    pub session: u64,
    /// The port that its streams go to.
    pub port: u16,
}

/// What was seen of a session.
#[derive(Clone, Copy, Debug, PartialEq, Eq, Structural)]
pub struct SessionStatus {
    /// The session's token was cancelled.
    pub cancelled: bool,
    /// All connections of the session are gone.
    pub drained: bool,
    /// No connection of the session can take another stream.
    pub full: bool,
    /// Streams reserved or open.
    pub in_use: usize,
}

/// Sessions to the current target.
pub struct SessionPool {
    pub entries: Vec<PooledSession>,
    /// The pod that the sessions go to.
    pub target: Option<ReadyPod>,
    /// A session is being opened ahead of need.
    pub prefetch_in_flight: bool,
    /// Number of sessions being opened on demand.
    pub opening_count: usize,
    /// The sessions of the entries, for readers.
    pub snapshot: Vec<SharedSession>,
}

/// Reservation for a session that is being opened. The count of openings goes
/// up with the reservation and down when it ends, however it ends.
#[must_use]
pub struct OpeningSlot {
    pub reserved: bool,
}

impl OpeningSlot {
    /// Reserves a slot.
    pub fn new(counter: &mut usize) -> (r: OpeningSlot)
        ensures
            r.reserved,
            *final(counter) == old(counter).wrapping_add(1),
    {
        *counter = counter.wrapping_add(1);
        OpeningSlot { reserved: true }
    }

    /// Ends the reservation.
    pub fn release(self, counter: &mut usize)
        ensures
            *final(counter) == old(counter).wrapping_sub(1),
    {
        *counter = counter.wrapping_sub(1);
    }
}

/// The sessions of some entries.
pub open spec fn ids(entries: Seq<PooledSession>) -> Seq<u64> {
    Seq::new(entries.len(), |i: int| entries[i].session)
}

/// What readers see of some entries.
pub open spec fn shown(entries: Seq<PooledSession>) -> Seq<SharedSession> {
    Seq::new(
        entries.len(),
        |i: int| SharedSession { session: entries[i].session, port: entries[i].port },
    )
}

/// Whether a session can take another stream.
pub open spec fn reusable(status: SessionStatus) -> bool {
    !status.cancelled && !status.full
}

/// Whether a session is of no more use.
pub open spec fn dead(status: SessionStatus) -> bool {
    status.cancelled || status.drained
}

/// The first of the sessions to `port` that can take another stream.
pub open spec fn first_reusable(
    sessions: Seq<SharedSession>,
    statuses: Seq<SessionStatus>,
    port: u16,
) -> Option<u64>
    decreases sessions.len(),
{
    if sessions.len() == 0 {
        None
    } else {
        match first_reusable(sessions.drop_last(), statuses, port) {
            Some(session) => Some(session),
            None => if sessions.last().port == port && reusable(statuses[sessions.len() - 1]) {
                Some(sessions.last().session)
            } else {
                None
            },
        }
    }
}

/// Splits entries into those that stay and the sessions that go: in order,
/// every marked entry goes until `limit` have gone.
pub open spec fn split_entries(
    entries: Seq<PooledSession>,
    marked: spec_fn(int) -> bool,
    limit: nat,
) -> (Seq<PooledSession>, Seq<u64>)
    decreases entries.len(),
{
    if entries.len() == 0 {
        (Seq::empty(), Seq::empty())
    } else {
        let (kept, gone) = split_entries(entries.drop_last(), marked, limit);
        if marked(entries.len() - 1) && gone.len() < limit {
            (kept, gone.push(entries.last().session))
        } else {
            (kept.push(entries.last()), gone)
        }
    }
}

/// Whether there is a pod `a` and it has the identity of `b`.
pub fn same_target(a: &Option<ReadyPod>, b: &ReadyPod) -> (r: bool)
    ensures
        r == (identity(*a) == Some(b@)),
{
    match a {
        Some(p) => str_eq(p.name.as_str(), b.name.as_str()) && opt_str_eq(&p.uid, &b.uid),
        None => false,
    }
}

impl PooledSession {
    /// Whether this is `session`, opened to `port` of `pod` and added at
    /// `now`.
    pub open spec fn describes(
        self,
        session: u64,
        port: u16,
        pod: PodIdentity,
        now: Instant,
    ) -> bool {
        &&& self.session == session
        &&& self.port == port
        &&& self.opened_for@ == pod
        &&& self.created_at == now
    }
}

impl SessionPool {
    /// The snapshot shows the entries, and every session was opened to the
    /// target.
    pub open spec fn wf(self) -> bool {
        &&& self.snapshot@ =~= shown(self.entries@)
        &&& self.on_target()
    }

    /// Every session was opened to the target.
    pub open spec fn on_target(self) -> bool {
        forall|i: int|
            0 <= i < self.entries@.len() ==> self.target_id() == Some(
                (#[trigger] self.entries@[i]).opened_for@,
            )
    }

    /// Whether the pool holds `session`, opened to `port` of `pod`.
    pub open spec fn reaches(self, session: u64, port: u16, pod: PodIdentity) -> bool {
        exists|i: int|
            {
                &&& 0 <= i < self.entries@.len()
                &&& (#[trigger] self.entries@[i]).session == session
                &&& self.entries@[i].port == port
                &&& self.entries@[i].opened_for@ == pod
            }
    }

    /// The identity of the target.
    pub open spec fn target_id(self) -> Option<PodIdentity> {
        identity(self.target)
    }

    /// Whether the counts and the target are as in `other`.
    pub open spec fn same_counts(self, other: SessionPool) -> bool {
        &&& self.target == other.target
        &&& self.prefetch_in_flight == other.prefetch_in_flight
        &&& self.opening_count == other.opening_count
    }

    /// An empty pool without a target.
    pub fn new() -> (r: SessionPool)
        ensures
            r.wf(),
            r.entries@.len() == 0,
            r.target is None,
            !r.prefetch_in_flight,
            r.opening_count == 0,
    {
        SessionPool {
            entries: Vec::new(),
            target: None,
            prefetch_in_flight: false,
            opening_count: 0,
            snapshot: Vec::new(),
        }
    }

    /// Rebuilds the snapshot from the entries.
    pub fn refresh_snapshot(&mut self)
        ensures
            final(self).snapshot@ =~= shown(old(self).entries@),
            final(self).entries == old(self).entries,
            final(self).same_counts(*old(self)),
            old(self).on_target() ==> final(self).wf(),
    {
        let mut sessions: Vec<SharedSession> = Vec::new();
        let mut i: usize = 0;
        while i < self.entries.len()
            invariant
                i <= self.entries@.len(),
                sessions@ =~= shown(self.entries@.take(i as int)),
            decreases self.entries@.len() - i,
        {
            sessions.push(
                SharedSession { session: self.entries[i].session, port: self.entries[i].port },
            );
            i = i + 1;
        }
        assert(self.entries@.take(i as int) =~= self.entries@);
        self.snapshot = sessions;
    }

    /// Whether a session is being opened.
    pub fn has_in_flight_open(&self) -> (r: bool)
        ensures
            r == (self.opening_count > 0 || self.prefetch_in_flight),
    {
        self.opening_count > 0 || self.prefetch_in_flight
    }

    /// Takes all sessions out, leaving the target as it is.
    fn take_all(&mut self) -> (drained: Vec<u64>)
        ensures
            final(self).wf(),
            final(self).entries@.len() == 0,
            final(self).same_counts(*old(self)),
            drained@ =~= ids(old(self).entries@),
    {
        let mut drained: Vec<u64> = Vec::new();
        let mut i: usize = 0;
        while i < self.entries.len()
            invariant
                i <= self.entries@.len(),
                drained@ =~= ids(self.entries@.take(i as int)),
            decreases self.entries@.len() - i,
        {
            drained.push(self.entries[i].session);
            i = i + 1;
        }
        assert(self.entries@.take(i as int) =~= self.entries@);
        self.entries = Vec::new();
        self.refresh_snapshot();
        drained
    }

    /// Empties the pool and forgets the target. The result are the sessions
    /// to cancel.
    pub fn drain_and_cancel_all(&mut self) -> (drained: Vec<u64>)
        ensures
            final(self).wf(),
            final(self).entries@.len() == 0,
            final(self).target is None,
            final(self).prefetch_in_flight == old(self).prefetch_in_flight,
            final(self).opening_count == old(self).opening_count,
            drained@ == ids(old(self).entries@),
    {
        self.target = None;
        self.take_all()
    }

    /// Makes `ready` the target. Sessions to another target are taken out;
    /// the result are the sessions to cancel.
    pub fn retarget(&mut self, ready: &ReadyPod) -> (drained: Vec<u64>)
        requires
            old(self).wf(),
        ensures
            final(self).wf(),
            final(self).target_id() == Some(ready@),
            final(self).prefetch_in_flight == old(self).prefetch_in_flight,
            final(self).opening_count == old(self).opening_count,
            if old(self).target_id() == Some(ready@) {
                *final(self) == *old(self) && drained@.len() == 0
            } else {
                final(self).entries@.len() == 0 && drained@ == ids(old(self).entries@)
            },
    {
        if same_target(&self.target, ready) {
            return Vec::new();
        }
        self.target = Some(ready.clone());
        self.take_all()
    }

    /// Whether `after` is this pool with `session` added, which was opened to
    /// `port` of `pod`.
    pub open spec fn with_session(
        self,
        after: SessionPool,
        session: u64,
        port: u16,
        pod: PodIdentity,
        now: Instant,
    ) -> bool {
        &&& after.wf()
        &&& after.entries@.len() == self.entries@.len() + 1
        &&& after.entries@.drop_last() =~= self.entries@
        &&& after.entries@.last().describes(session, port, pod, now)
        &&& after.same_counts(self)
    }

    /// Adds a session that was opened to `port` of `opened_for`, unless the
    /// pool has moved to another target in the meantime.
    pub fn install_at(
        &mut self,
        opened_for: &ReadyPod,
        port: u16,
        session: u64,
        now: Instant,
    ) -> (r: Result<u64, u64>)
        requires
            old(self).wf(),
        ensures
            final(self).wf(),
            old(self).installed(opened_for@, port, session, now, *final(self), r),
    {
        if same_target(&self.target, opened_for) {
            self.entries.push(
                PooledSession { session, port, opened_for: opened_for.clone(), created_at: now },
            );
            self.refresh_snapshot();
            Ok(session)
        } else {
            Err(session)
        }
    }

    /// What an installation at `now` does.
    pub open spec fn installed(
        self,
        opened_for: PodIdentity,
        port: u16,
        session: u64,
        now: Instant,
        after: SessionPool,
        r: Result<u64, u64>,
    ) -> bool {
        if self.target_id() == Some(opened_for) {
            &&& r == Ok::<u64, u64>(session)
            &&& self.with_session(after, session, port, opened_for, now)
        } else {
            r == Err::<u64, u64>(session) && after == self
        }
    }

    /// Adds a session now; see [`install_at`](SessionPool::install_at).
    pub fn install_if_current(&mut self, opened_for: &ReadyPod, port: u16, session: u64) -> (r:
        Result<u64, u64>)
        requires
            old(self).wf(),
        ensures
            final(self).wf(),
            exists|now: Instant| #[trigger]
                old(self).installed(opened_for@, port, session, now, *final(self), r),
    {
        let now = Instant::now();
        self.install_at(opened_for, port, session, now)
    }

    /// Takes marked entries out, `limit` at most.
    pub(crate) fn extract(&mut self, marked: &Vec<bool>, limit: usize) -> (gone: Vec<u64>)
        requires
            old(self).wf(),
            marked@.len() == old(self).entries@.len(),
        ensures
            final(self).wf(),
            final(self).same_counts(*old(self)),
            final(self).entries@ == split_entries(
                old(self).entries@,
                |i: int| marked@[i],
                limit as nat,
            ).0,
            gone@ == split_entries(old(self).entries@, |i: int| marked@[i], limit as nat).1,
    {
        let n = marked.len();
        let ghost all = self.entries@;
        let ghost mark = |i: int| marked@[i];
        let mut rest: Vec<PooledSession> = Vec::new();
        std::mem::swap(&mut rest, &mut self.entries);
        let mut gone: Vec<u64> = Vec::new();
        let mut i: usize = 0;
        assert(all.take(0) =~= Seq::empty());
        assert(all.skip(0) =~= all);
        while rest.len() > 0
            invariant
                i <= all.len(),
                n == marked@.len(),
                n == all.len(),
                rest@ == all.skip(i as int),
                mark == (|k: int| marked@[k]),
                self.entries@ == split_entries(all.take(i as int), mark, limit as nat).0,
                gone@ == split_entries(all.take(i as int), mark, limit as nat).1,
                self.same_counts(*old(self)),
                self.snapshot == old(self).snapshot,
                forall|j: int|
                    0 <= j < all.len() ==> self.target_id() == Some(
                        (#[trigger] all[j]).opened_for@,
                    ),
                self.on_target(),
            decreases rest@.len(),
        {
            let entry = rest.remove(0);
            proof {
                assert(entry == all[i as int]);
                assert(all.take(i + 1).drop_last() =~= all.take(i as int));
                assert(all.skip(i as int).remove(0) =~= all.skip(i + 1));
            }
            if marked[i] && gone.len() < limit {
                gone.push(entry.session);
            } else {
                self.entries.push(entry);
            }
            i = i + 1;
        }
        proof {
            assert(all.take(i as int) =~= all);
        }
        self.refresh_snapshot();
        gone
    }

    /// Takes out the sessions that are of no more use. The result are the
    /// sessions to cancel.
    pub fn retire_dead_sessions(&mut self, statuses: &Vec<SessionStatus>) -> (retired: Vec<u64>)
        requires
            old(self).wf(),
            statuses@.len() == old(self).entries@.len(),
        ensures
            final(self).wf(),
            final(self).same_counts(*old(self)),
            final(self).entries@ == split_entries(
                old(self).entries@,
                |i: int| dead(statuses@[i]),
                old(self).entries@.len(),
            ).0,
            retired@ == split_entries(
                old(self).entries@,
                |i: int| dead(statuses@[i]),
                old(self).entries@.len(),
            ).1,
    {
        let n = self.entries.len();
        let mut marked: Vec<bool> = Vec::new();
        let mut i: usize = 0;
        while i < n
            invariant
                i <= n,
                n == statuses@.len(),
                marked@.len() == i,
                forall|j: int| 0 <= j < i ==> #[trigger] marked@[j] == dead(statuses@[j]),
            decreases n - i,
        {
            marked.push(statuses[i].cancelled || statuses[i].drained);
            i = i + 1;
        }
        proof {
            lemma_split_congruent(
                self.entries@,
                |k: int| marked@[k],
                |k: int| dead(statuses@[k]),
                n as nat,
            );
        }
        self.extract(&marked, n)
    }

    /// The first session to `target_port` that can take another stream.
    pub fn find_reusable_session(&self, target_port: u16, statuses: &Vec<SessionStatus>) -> (r:
        Option<u64>)
        requires
            statuses@.len() == self.snapshot@.len(),
        ensures
            r == first_reusable(self.snapshot@, statuses@, target_port),
            r is None <==> forall|i: int|
                0 <= i < self.snapshot@.len() && (#[trigger] self.snapshot@[i]).port == target_port
                    ==> statuses@[i].cancelled || statuses@[i].full,
    {
        proof {
            law_open_sessions_are_shared(self.snapshot@, statuses@, target_port);
        }
        let mut i: usize = 0;
        assert(self.snapshot@.take(0) =~= Seq::empty());
        while i < self.snapshot.len()
            invariant
                i <= self.snapshot@.len(),
                statuses@.len() == self.snapshot@.len(),
                first_reusable(self.snapshot@.take(i as int), statuses@, target_port) is None,
            decreases self.snapshot@.len() - i,
        {
            assert(self.snapshot@.take(i + 1).drop_last() =~= self.snapshot@.take(i as int));
            if self.snapshot[i].port == target_port && !statuses[i].cancelled && !statuses[i].full {
                proof {
                    lemma_first_reusable_stays(self.snapshot@, statuses@, target_port, i + 1);
                }
                return Some(self.snapshot[i].session);
            }
            i = i + 1;
        }
        assert(self.snapshot@.take(i as int) =~= self.snapshot@);
        None
    }

    /// Reserves a slot for a new session, unless the pool and the openings
    /// together have reached `max_sessions`.
    pub fn reserve_new_slot(&mut self, max_sessions: usize) -> (r: Result<OpeningSlot, Error>)
        requires
            old(self).entries@.len() + old(self).opening_count <= usize::MAX,
        ensures
            final(self).entries == old(self).entries,
            final(self).snapshot == old(self).snapshot,
            final(self).target == old(self).target,
            final(self).prefetch_in_flight == old(self).prefetch_in_flight,
            ({
                let projected = old(self).entries@.len() + old(self).opening_count;
                match r {
                    Ok(slot) => {
                        &&& projected < max_sessions
                        &&& slot.reserved
                        &&& final(self).opening_count == old(self).opening_count + 1
                    },
                    Err(e) => {
                        &&& projected >= max_sessions
                        &&& e == (Error::CapacityExhausted {
                            in_use: projected as usize,
                            capacity: max_sessions,
                        })
                        &&& final(self).opening_count == old(self).opening_count
                    },
                }
            }),
    {
        let projected: usize = self.entries.len() + self.opening_count;
        if projected >= max_sessions {
            return Err(Error::CapacityExhausted { in_use: projected, capacity: max_sessions });
        }
        Ok(OpeningSlot::new(&mut self.opening_count))
    }
}

/// Ending a reservation undoes the reservation.
pub proof fn law_slot_balances(before: usize, reserved: usize, released: usize)
    requires
        reserved == before.wrapping_add(1),
        released == reserved.wrapping_sub(1),
    ensures
        released == before,
{
}

/// Whether one of the entries has the session, and is marked or not.
pub open spec fn has_entry(
    entries: Seq<PooledSession>,
    marked: spec_fn(int) -> bool,
    is_marked: bool,
    session: u64,
) -> bool {
    exists|i: int|
        0 <= i < entries.len() && marked(i) == is_marked && (#[trigger] entries[i]).session
            == session
}

/// Nothing is lost or made up when entries are taken out: what stays and what
/// goes are the sessions of the pool, at most `limit` go, only marked ones
/// go, and marked ones stay only once `limit` have gone.
pub proof fn law_split_keeps_every_session(
    entries: Seq<PooledSession>,
    marked: spec_fn(int) -> bool,
    limit: nat,
)
    ensures
        ({
            let (kept, gone) = split_entries(entries, marked, limit);
            &&& kept.len() + gone.len() == entries.len()
            &&& ids(kept).to_multiset().add(gone.to_multiset()) == ids(entries).to_multiset()
            &&& gone.len() <= limit
            &&& forall|j: int|
                0 <= j < gone.len() ==> has_entry(entries, marked, true, #[trigger] gone[j])
            &&& gone.len() < limit ==> forall|j: int|
                0 <= j < kept.len() ==> has_entry(
                    entries,
                    marked,
                    false,
                    (#[trigger] kept[j]).session,
                )
        }),
    decreases entries.len(),
{
    let (kept, gone) = split_entries(entries, marked, limit);
    if entries.len() == 0 {
        assert(ids(kept) =~= Seq::<u64>::empty());
        assert(ids(entries) =~= Seq::<u64>::empty());
        vstd::seq_lib::lemma_multiset_commutative(ids(entries), gone);
        assert(ids(entries) + gone =~= ids(entries));
    } else {
        let front = entries.drop_last();
        let last = entries.last();
        let n = entries.len() - 1;
        law_split_keeps_every_session(front, marked, limit);
        let (k, g) = split_entries(front, marked, limit);
        broadcast use vstd::seq_lib::group_to_multiset_ensures;

        assert(ids(entries) =~= ids(front).push(last.session));
        assert forall|m: bool, session: u64| has_entry(front, marked, m, session) implies has_entry(
            entries,
            marked,
            m,
            session,
        ) by {
            let i = choose|i: int|
                0 <= i < front.len() && marked(i) == m && (#[trigger] front[i]).session == session;
            assert(entries[i] == front[i]);
        }
        assert(entries[n] == last);
        assert(has_entry(entries, marked, marked(n), last.session));
        if marked(n) && g.len() < limit {
            assert(gone == g.push(last.session));
        } else {
            assert(kept == k.push(last));
            assert(ids(kept) =~= ids(k).push(last.session));
        }
        assert(ids(kept).to_multiset().add(gone.to_multiset()) =~= ids(entries).to_multiset());
    }
}

/// A session that is handed out for reuse is one of the pool that goes to the
/// port asked for and was seen with room and not cancelled; none is handed
/// out only if there is none.
pub proof fn law_reused_session_has_room(
    sessions: Seq<SharedSession>,
    statuses: Seq<SessionStatus>,
    port: u16,
)
    requires
        statuses.len() == sessions.len(),
    ensures
        match first_reusable(sessions, statuses, port) {
            Some(session) => exists|i: int|
                0 <= i < sessions.len() && sessions[i] == (SharedSession { session, port })
                    && reusable(#[trigger] statuses[i]),
            None => forall|i: int|
                0 <= i < sessions.len() && sessions[i].port == port ==> !reusable(
                    #[trigger] statuses[i],
                ),
        },
    decreases sessions.len(),
{
    if sessions.len() > 0 {
        let front = sessions.drop_last();
        let seen = statuses.drop_last();
        lemma_first_reusable_local(front, statuses, seen, port);
        law_reused_session_has_room(front, seen, port);
        let n = sessions.len() - 1;
        match first_reusable(front, seen, port) {
            Some(session) => {
                let i = choose|i: int|
                    0 <= i < front.len() && front[i] == (SharedSession { session, port })
                        && reusable(#[trigger] seen[i]);
                assert(statuses[i] == seen[i] && sessions[i] == front[i]);
            },
            None => {
                assert forall|i: int| 0 <= i < n && sessions[i].port == port implies !reusable(
                    #[trigger] statuses[i],
                ) by {
                    assert(seen[i] == statuses[i]);
                    assert(front[i] == sessions[i]);
                }
                if sessions[n].port == port && reusable(statuses[n]) {
                    assert(sessions[n] == sessions.last());
                }
            },
        }
    }
}

/// A session that is handed out for reuse was opened to the target, on the
/// port asked for.
pub proof fn law_reused_session_reaches_the_target(
    pool: SessionPool,
    statuses: Seq<SessionStatus>,
    port: u16,
)
    requires
        pool.wf(),
        statuses.len() == pool.entries@.len(),
    ensures
        first_reusable(shown(pool.entries@), statuses, port) matches Some(session) ==> (
        pool.target_id() matches Some(pod) && pool.reaches(session, port, pod)),
{
    law_reused_session_has_room(shown(pool.entries@), statuses, port);
    if let Some(session) = first_reusable(shown(pool.entries@), statuses, port) {
        let i = choose|i: int|
            0 <= i < pool.entries@.len() && shown(pool.entries@)[i] == (SharedSession {
                session,
                port,
            }) && reusable(#[trigger] statuses[i]);
        assert(pool.entries@[i].session == session);
        assert(pool.target_id() == Some(pool.entries@[i].opened_for@));
    }
}

/// Only the statuses of the sessions matter.
proof fn lemma_first_reusable_local(
    sessions: Seq<SharedSession>,
    statuses: Seq<SessionStatus>,
    also: Seq<SessionStatus>,
    port: u16,
)
    requires
        statuses.len() >= sessions.len(),
        also.len() >= sessions.len(),
        forall|i: int| 0 <= i < sessions.len() ==> #[trigger] statuses[i] == also[i],
    ensures
        first_reusable(sessions, statuses, port) == first_reusable(sessions, also, port),
    decreases sessions.len(),
{
    if sessions.len() > 0 {
        lemma_first_reusable_local(sessions.drop_last(), statuses, also, port);
        assert(statuses[sessions.len() - 1] == also[sessions.len() - 1]);
    }
}

/// The first session found in a part of the pool is the first of the whole.
proof fn lemma_first_reusable_stays(
    sessions: Seq<SharedSession>,
    statuses: Seq<SessionStatus>,
    port: u16,
    n: int,
)
    requires
        0 <= n <= sessions.len(),
        first_reusable(sessions.take(n), statuses, port) is Some,
    ensures
        first_reusable(sessions, statuses, port) == first_reusable(
            sessions.take(n),
            statuses,
            port,
        ),
    decreases sessions.len(),
{
    if n == sessions.len() {
        assert(sessions.take(n) =~= sessions);
    } else {
        assert(sessions.drop_last().take(n) =~= sessions.take(n));
        lemma_first_reusable_stays(sessions.drop_last(), statuses, port, n);
    }
}

/// Only the marks of the entries matter.
pub proof fn lemma_split_congruent(
    entries: Seq<PooledSession>,
    marked: spec_fn(int) -> bool,
    also_marked: spec_fn(int) -> bool,
    limit: nat,
)
    requires
        forall|i: int| 0 <= i < entries.len() ==> #[trigger] marked(i) == also_marked(i),
    ensures
        split_entries(entries, marked, limit) == split_entries(entries, also_marked, limit),
    decreases entries.len(),
{
    if entries.len() > 0 {
        lemma_split_congruent(entries.drop_last(), marked, also_marked, limit);
        assert(marked(entries.len() - 1) == also_marked(entries.len() - 1));
    }
}

/// A session is reused as long as it is neither cancelled nor full, however
/// many streams it carries: one is handed out exactly if the pool has such a
/// session to the port, and it is the first of them.
pub proof fn law_open_sessions_are_shared(
    sessions: Seq<SharedSession>,
    statuses: Seq<SessionStatus>,
    port: u16,
)
    requires
        statuses.len() == sessions.len(),
    ensures
        match first_reusable(sessions, statuses, port) {
            Some(session) => exists|i: int|
                {
                    &&& 0 <= i < sessions.len()
                    &&& (#[trigger] sessions[i]).session == session
                    &&& sessions[i].port == port
                    &&& !statuses[i].cancelled
                    &&& !statuses[i].full
                    &&& forall|j: int|
                        0 <= j < i && (#[trigger] sessions[j]).port == port ==> statuses[j].cancelled
                            || statuses[j].full
                },
            None => forall|i: int|
                0 <= i < sessions.len() && (#[trigger] sessions[i]).port == port
                    ==> statuses[i].cancelled || statuses[i].full,
        },
    decreases sessions.len(),
{
    if sessions.len() > 0 {
        let n = sessions.len() - 1;
        let front = sessions.drop_last();
        let seen = statuses.drop_last();
        lemma_first_reusable_local(front, statuses, seen, port);
        law_open_sessions_are_shared(front, seen, port);
        match first_reusable(front, seen, port) {
            Some(session) => {
                let i = choose|i: int|
                    {
                        &&& 0 <= i < front.len()
                        &&& (#[trigger] front[i]).session == session
                        &&& front[i].port == port
                        &&& !seen[i].cancelled
                        &&& !seen[i].full
                        &&& forall|j: int|
                            0 <= j < i && (#[trigger] front[j]).port == port ==> seen[j].cancelled
                                || seen[j].full
                    };
                assert(sessions[i] == front[i] && statuses[i] == seen[i]);
                assert forall|j: int| 0 <= j < i && (#[trigger] sessions[j]).port
                    == port implies statuses[j].cancelled || statuses[j].full by {
                    assert(front[j] == sessions[j] && seen[j] == statuses[j]);
                }
            },
            None => {
                assert forall|j: int| 0 <= j < n && (#[trigger] sessions[j]).port
                    == port implies statuses[j].cancelled || statuses[j].full by {
                    assert(front[j] == sessions[j] && seen[j] == statuses[j]);
                }
                assert(sessions[n] == sessions.last());
            },
        }
    }
}

/// Which session is handed out does not depend on how many streams any of
/// them carries, nor on whether connections have drained.
pub proof fn law_load_does_not_stop_sharing(
    sessions: Seq<SharedSession>,
    statuses: Seq<SessionStatus>,
    busier: Seq<SessionStatus>,
    port: u16,
)
    requires
        statuses.len() == sessions.len(),
        busier.len() == sessions.len(),
        forall|i: int|
            0 <= i < sessions.len() ==> (#[trigger] statuses[i]).cancelled == busier[i].cancelled
                && statuses[i].full == busier[i].full,
    ensures
        first_reusable(sessions, statuses, port) == first_reusable(sessions, busier, port),
    decreases sessions.len(),
{
    if sessions.len() > 0 {
        let n = sessions.len() - 1;
        let front = sessions.drop_last();
        lemma_first_reusable_local(front, statuses, statuses.drop_last(), port);
        lemma_first_reusable_local(front, busier, busier.drop_last(), port);
        assert forall|i: int| 0 <= i < front.len() implies (
        #[trigger] statuses.drop_last()[i]).cancelled == busier.drop_last()[i].cancelled
            && statuses.drop_last()[i].full == busier.drop_last()[i].full by {
            assert(statuses.drop_last()[i] == statuses[i]);
        }
        law_load_does_not_stop_sharing(front, statuses.drop_last(), busier.drop_last(), port);
        assert(statuses[n].cancelled == busier[n].cancelled && statuses[n].full == busier[n].full);
    }
}

/// Taking entries out goes through them in order: what stays and goes of the
/// first `k` entries is the beginning of what stays and goes of all. Entries
/// that are not marked stay, as they are; marked ones go as long as fewer than
/// `limit` have gone.
pub proof fn law_split_goes_in_order(
    entries: Seq<PooledSession>,
    marked: spec_fn(int) -> bool,
    limit: nat,
    k: int,
)
    requires
        0 <= k < entries.len(),
    ensures
        ({
            let (kept, gone) = split_entries(entries, marked, limit);
            let (kept_before, gone_before) = split_entries(entries.take(k), marked, limit);
            &&& kept_before.len() <= kept.len() && kept.take(kept_before.len() as int)
                == kept_before
            &&& gone_before.len() <= gone.len() && gone.take(gone_before.len() as int)
                == gone_before
            &&& !marked(k) ==> kept_before.len() < kept.len() && kept[kept_before.len() as int]
                == entries[k]
            &&& marked(k) && gone_before.len() < limit ==> gone_before.len() < gone.len()
                && gone[gone_before.len() as int] == entries[k].session
            &&& marked(k) && gone_before.len() >= limit ==> kept_before.len() < kept.len()
                && kept[kept_before.len() as int] == entries[k]
        }),
    decreases entries.len(),
{
    let (kept, gone) = split_entries(entries, marked, limit);
    let (kept_before, gone_before) = split_entries(entries.take(k), marked, limit);
    let front = entries.drop_last();
    if k == entries.len() - 1 {
        assert(entries.take(k) =~= front);
        assert(kept.take(kept_before.len() as int) =~= kept_before);
        assert(gone.take(gone_before.len() as int) =~= gone_before);
    } else {
        law_split_goes_in_order(front, marked, limit, k);
        assert(front.take(k) =~= entries.take(k));
        let (k1, g1) = split_entries(front, marked, limit);
        assert(front[k] == entries[k]);
        assert(kept.take(kept_before.len() as int) =~= k1.take(kept_before.len() as int));
        assert(gone.take(gone_before.len() as int) =~= g1.take(gone_before.len() as int));
    }
}

/// Retiring takes out exactly the sessions that are cancelled or whose
/// connections are all gone; a session that is neither stays, full or not.
pub proof fn law_retiring_spares_living_sessions(
    entries: Seq<PooledSession>,
    statuses: Seq<SessionStatus>,
    i: int,
)
    requires
        statuses.len() == entries.len(),
        0 <= i < entries.len(),
    ensures
        ({
            let (kept, gone) = split_entries(
                entries,
                |j: int| dead(statuses[j]),
                entries.len(),
            );
            &&& !statuses[i].cancelled && !statuses[i].drained ==> kept.contains(entries[i])
            &&& statuses[i].cancelled || statuses[i].drained ==> gone.contains(entries[i].session)
            &&& kept.len() + gone.len() == entries.len()
            &&& forall|j: int|
                0 <= j < kept.len() ==> exists|e: int|
                    0 <= e < entries.len() && entries[e].session == (#[trigger] kept[j]).session
                        && !(#[trigger] statuses[e]).cancelled && !statuses[e].drained
        }),
{
    let marked = |j: int| dead(statuses[j]);
    let limit = entries.len();
    let (kept, gone) = split_entries(entries, marked, limit);
    let (kept_before, gone_before) = split_entries(entries.take(i), marked, limit);
    law_split_goes_in_order(entries, marked, limit, i);
    law_split_keeps_every_session(entries, marked, limit);
    law_split_keeps_every_session(entries.take(i), marked, limit);
    if !statuses[i].cancelled && !statuses[i].drained {
        assert(kept[kept_before.len() as int] == entries[i]);
    } else {
        assert(gone[gone_before.len() as int] == entries[i].session);
    }
    assert forall|j: int| 0 <= j < kept.len() implies exists|e: int|
        0 <= e < entries.len() && entries[e].session == (#[trigger] kept[j]).session && !(
        #[trigger] statuses[e]).cancelled && !statuses[e].drained by {
        if gone.len() < limit {
            assert(has_entry(entries, marked, false, kept[j].session));
            let e = choose|e: int|
                0 <= e < entries.len() && marked(e) == false && (#[trigger] entries[e]).session
                    == kept[j].session;
            assert(!dead(statuses[e]));
            assert(!statuses[e].cancelled);
        }
    }
}

/// A session joins the pool exactly if it was opened for the target, name and
/// uid alike. It is added behind the others, with its port and its pod; the
/// others, the target and the counts stay. A session for another pod is given
/// back, and nothing changes.
pub proof fn law_install_keeps_to_the_target(
    pool: SessionPool,
    target: ReadyPod,
    opened_for: ReadyPod,
    port: u16,
    session: u64,
    now: Instant,
    after: SessionPool,
    r: Result<u64, u64>,
)
    requires
        pool.target == Some(target),
        pool.installed(opened_for@, port, session, now, after, r),
    ensures
        r is Ok <==> target.name@ == opened_for.name@ && (match (target.uid, opened_for.uid) {
            (Some(a), Some(b)) => a@ == b@,
            (None, None) => true,
            _ => false,
        }),
        r == Ok::<u64, u64>(session) || r == Err::<u64, u64>(session),
        r is Ok ==> {
            let n = pool.entries@.len() as int;
            &&& after.entries@.len() == n + 1
            &&& after.entries@.take(n) == pool.entries@
            &&& after.entries@[n].session == session
            &&& after.entries@[n].port == port
            &&& after.entries@[n].opened_for.name@ == opened_for.name@
            &&& after.entries@[n].created_at == now
            &&& after.snapshot@.len() == n + 1
            &&& after.snapshot@[n].session == session
            &&& after.snapshot@[n].port == port
        },
        r is Err ==> after == pool,
        after.target == pool.target,
        after.opening_count == pool.opening_count,
        after.prefetch_in_flight == pool.prefetch_in_flight,
{
    if target.name@ == opened_for.name@ && opt_text(target.uid) == opt_text(opened_for.uid) {
        assert(target@ =~= opened_for@);
    }
    if r is Ok {
        let n = pool.entries@.len() as int;
        assert(after.entries@.take(n) =~= after.entries@.drop_last());
        assert(after.entries@[n] == after.entries@.last());
    }
}

/// Without a target no session joins the pool.
pub proof fn law_no_target_no_session(
    pool: SessionPool,
    opened_for: ReadyPod,
    port: u16,
    session: u64,
    now: Instant,
    after: SessionPool,
    r: Result<u64, u64>,
)
    requires
        pool.target is None,
        pool.installed(opened_for@, port, session, now, after, r),
    ensures
        r == Err::<u64, u64>(session),
        after == pool,
{
}

/// What readers see of the pool are its entries, one by one and in order.
pub proof fn law_snapshot_shows_the_entries(pool: SessionPool, i: int)
    requires
        pool.wf(),
        0 <= i < pool.entries@.len(),
    ensures
        pool.snapshot@.len() == pool.entries@.len(),
        pool.snapshot@[i].session == pool.entries@[i].session,
        pool.snapshot@[i].port == pool.entries@[i].port,
        ids(pool.entries@).len() == pool.entries@.len(),
        ids(pool.entries@)[i] == pool.entries@[i].session,
        pool.target matches Some(target) && target@ == pool.entries@[i].opened_for@,
{
}

} // verus!
