//! A session: one or more transport connections that carry paired streams.
//!
//! Streams are spread over the connections by power-of-two-choices. What goes
//! on inside a connection is left to the caller: it keeps the pool's entries
//! up to date, opens the pair on the connection it is told to try, and hands
//! in the outcome.
use super::metrics::complete_with;
use super::metrics::next_rtt;
use super::metrics::rtt_cost;
use super::metrics::capped_nanos;
use super::metrics::HandleMetrics;
use super::metrics::RttSample;
use super::metrics::RTT_SEED_NS;
use crate::error::MuxError;
use tokio_util::sync::CancellationToken;
use vstd::prelude::*;

verus! {

/// Multiplier of the MMIX linear congruential generator.
pub const PICK_MULTIPLIER: u64 = 6_364_136_223_846_793_005;

/// One connection of the pool, as last seen.
#[derive(Clone, Copy, Debug, PartialEq, Eq, Structural)]
pub struct MuxHandle {
    /// The connection is gone.
    pub closed: bool,
    /// Stream pairs reserved or open.
    pub active_pairs: usize,
    /// Stream pairs that the peer accepts.
    pub max_concurrent: u32,
    /// Stream pairs that the open path allows.
    pub operating_capacity: usize,
}

/// A session over a pool of connections. It does not reconnect: when a
/// connection fails, its streams fail, and the layer above opens a fresh
/// session once none is left.
pub struct Session {
    pub pool: Vec<MuxHandle>,
    pub metrics: Vec<HandleMetrics>,
    /// Counter behind the picks and the scan.
    pub next: usize,
    pub cancel: CancellationToken,
}

/// How far the search for a connection has come.
pub struct PairOpen {
    /// Picked connections still to be tried.
    pub picks: Vec<usize>,
    /// Connections that the scan has passed.
    pub scanned: usize,
}

/// How opening a pair goes on.
pub enum OpenPairStep {
    /// Open the pair on this connection and hand in the outcome.
    Try { idx: usize },
    /// The pair was opened on this connection.
    Opened { idx: usize },
    /// The pair cannot be opened.
    Failed(MuxError),
}

/// The connections that came up, in order.
pub open spec fn healthy(outcomes: Seq<Result<MuxHandle, MuxError>>) -> Seq<MuxHandle>
    decreases outcomes.len(),
{
    if outcomes.len() == 0 {
        Seq::empty()
    } else {
        match outcomes.last() {
            Ok(handle) => healthy(outcomes.drop_last()).push(handle),
            Err(_) => healthy(outcomes.drop_last()),
        }
    }
}

/// The hard capacity of the live connections together.
pub open spec fn total_capacity(pool: Seq<MuxHandle>) -> nat
    decreases pool.len(),
{
    if pool.len() == 0 {
        0
    } else {
        total_capacity(pool.drop_last()) + if pool.last().closed {
            0
        } else {
            pool.last().max_concurrent as nat
        }
    }
}

/// The operating capacity of the live connections together.
pub open spec fn total_operating(pool: Seq<MuxHandle>) -> nat
    decreases pool.len(),
{
    if pool.len() == 0 {
        0
    } else {
        total_operating(pool.drop_last()) + if pool.last().closed {
            0
        } else {
            pool.last().operating_capacity as nat
        }
    }
}

/// The stream pairs of all connections together.
pub open spec fn total_in_use(pool: Seq<MuxHandle>) -> nat
    decreases pool.len(),
{
    if pool.len() == 0 {
        0
    } else {
        total_in_use(pool.drop_last()) + pool.last().active_pairs as nat
    }
}

/// The counter `steps` steps after `next`; it wraps around.
pub open spec fn counter_after(next: usize, steps: nat) -> usize
    recommends
        steps <= usize::MAX,
{
    if next + steps <= usize::MAX {
        (next + steps) as usize
    } else {
        (next + steps - usize::MAX - 1) as usize
    }
}

/// The two connections picked on the counter value `seed`.
pub open spec fn two_picks(seed: usize, pool_size: nat) -> (int, int) {
    let a = (seed as int) % (pool_size as int);
    let b = ((seed as u64).wrapping_mul(PICK_MULTIPLIER).wrapping_add(1) as int) % (
    pool_size as int);
    if a == b {
        (a, (a + 1) % (pool_size as int))
    } else {
        (a, b)
    }
}

/// The connections that a search still has to try: the picks, then a scan in
/// the order of the counter.
pub open spec fn candidates(progress: PairOpen, next: usize, pool_size: nat) -> Seq<usize> {
    progress.picks@ + Seq::new(
        (pool_size - progress.scanned) as nat,
        |k: int| (counter_after(next, k as nat) % (pool_size as usize)) as usize,
    )
}

/// How many candidates lie between two stages of a search.
pub open spec fn steps_between(before: PairOpen, after: PairOpen) -> int {
    (before.picks@.len() - after.picks@.len()) + (after.scanned - before.scanned)
}

/// How a search moves on: it passes the candidates that are gone and stops at
/// the first that is not, or ends when there is none.
pub open spec fn search_moved(
    pool: Seq<MuxHandle>,
    next: usize,
    before: PairOpen,
    next_after: usize,
    after: PairOpen,
    r: Option<usize>,
) -> bool {
    let all = candidates(before, next, pool.len());
    let steps = steps_between(before, after);
    &&& next_after == counter_after(next, (after.scanned - before.scanned) as nat)
    &&& candidates(after, next_after, pool.len()) =~= all.skip(steps)
    &&& match r {
        Some(idx) => {
            &&& 0 < steps <= all.len()
            &&& idx == all[steps - 1]
            &&& idx < pool.len()
            &&& !pool[idx as int].closed
            &&& forall|j: int| 0 <= j < steps - 1 ==> #[trigger] pool[all[j] as int].closed
        },
        None => {
            &&& steps == all.len()
            &&& forall|j: int| 0 <= j < all.len() ==> #[trigger] pool[all[j] as int].closed
        },
    }
}

impl Session {
    /// Every connection has its metrics, and there is at least one.
    pub open spec fn wf(self) -> bool {
        &&& self.pool@.len() == self.metrics@.len()
        &&& self.pool@.len() > 0
    }

    /// The capacity and the streams in use can be counted.
    pub open spec fn totals_fit(self) -> bool {
        &&& total_capacity(self.pool@) <= usize::MAX
        &&& total_in_use(self.pool@) <= usize::MAX
    }

    /// The cost of a connection. One that is gone costs most.
    pub open spec fn cost_of(self, idx: int) -> nat {
        if self.pool@[idx].closed {
            u64::MAX as nat
        } else {
            rtt_cost(self.metrics@[idx].rtt_ns, self.pool@[idx].active_pairs)
        }
    }

    /// Whether `progress` can belong to a search in this session.
    pub open spec fn searching(self, progress: PairOpen) -> bool {
        &&& progress.scanned <= self.pool@.len()
        &&& forall|i: int|
            0 <= i < progress.picks@.len() ==> #[trigger] progress.picks@[i] < self.pool@.len()
    }

    /// Whether everything but the counter and the metrics is as in `other`.
    pub open spec fn same_pool(self, other: Session) -> bool {
        &&& self.pool == other.pool
        &&& self.cancel == other.cancel
        &&& self.metrics@.len() == other.metrics@.len()
    }

    /// Whether a search in this session begins with `progress`, the counter
    /// then being `next`: with at least two connections two are picked, the
    /// cheaper first.
    pub open spec fn search_started(self, progress: PairOpen, next: usize) -> bool {
        &&& progress.scanned == 0
        &&& if self.pool@.len() >= 2 {
            let (a, b) = two_picks(self.next, self.pool@.len());
            &&& next == counter_after(self.next, 1)
            &&& progress.picks@ =~= (if self.cost_of(a) <= self.cost_of(b) {
                seq![a as usize, b as usize]
            } else {
                seq![b as usize, a as usize]
            })
        } else {
            next == self.next && progress.picks@.len() == 0
        }
    }

    /// What the outcome of one try does to the session and the search.
    pub open spec fn try_ended(
        self,
        idx: usize,
        nanos: nat,
        outcome: Result<(), MuxError>,
        before: PairOpen,
        after: Session,
        progress: PairOpen,
        step: OpenPairStep,
    ) -> bool {
        match outcome {
            Ok(_) => {
                &&& step == (OpenPairStep::Opened { idx })
                &&& progress == before
                &&& after.next == self.next
                &&& after.metrics@ =~= self.metrics@.update(
                    idx as int,
                    HandleMetrics {
                        rtt_ns: next_rtt(
                            self.metrics@[idx as int].rtt_ns,
                            capped_nanos(nanos) as u64,
                        ) as u64,
                    },
                )
            },
            Err(MuxError::CapacityExhausted { .. }) => {
                &&& after.metrics == self.metrics
                &&& exists|found: Option<usize>|
                    self.searched(found, step) && #[trigger] search_moved(
                        self.pool@,
                        self.next,
                        before,
                        after.next,
                        progress,
                        found,
                    )
            },
            Err(e) => {
                &&& step == OpenPairStep::Failed(e)
                &&& progress == before
                &&& after.next == self.next
                &&& after.metrics == self.metrics
            },
        }
    }

    /// Creates a session from the outcomes of the connections' initial PING.
    /// Connections that failed are left out; an error is returned only where
    /// none came up.
    pub fn with_config(
        outcomes: Vec<Result<MuxHandle, MuxError>>,
        cancel: CancellationToken,
    ) -> (r: Result<Session, MuxError>)
        ensures
            match r {
                Ok(s) => {
                    &&& s.wf()
                    &&& s.pool@ == healthy(outcomes@)
                    &&& s.next == 0
                    &&& s.cancel == cancel
                    &&& forall|i: int|
                        0 <= i < s.metrics@.len() ==> #[trigger] s.metrics@[i].rtt_ns == RTT_SEED_NS
                },
                Err(e) => {
                    &&& healthy(outcomes@).len() == 0
                    &&& if outcomes@.len() == 0 {
                        e is MuxClosed
                    } else {
                        outcomes@.last() == Err::<MuxHandle, MuxError>(e)
                    }
                },
            },
    {
        let mut pool: Vec<MuxHandle> = Vec::new();
        let mut metrics: Vec<HandleMetrics> = Vec::new();
        let mut last_error: Option<MuxError> = None;
        let mut rest = outcomes;
        let ghost mut done: Seq<Result<MuxHandle, MuxError>> = Seq::empty();
        while rest.len() > 0
            invariant
                done + rest@ == outcomes@,
                pool@ == healthy(done),
                pool@.len() == metrics@.len(),
                forall|i: int|
                    0 <= i < metrics@.len() ==> #[trigger] metrics@[i].rtt_ns == RTT_SEED_NS,
                pool@.len() == 0 ==> match last_error {
                    Some(e) => done.len() > 0 && done.last() == Err::<MuxHandle, MuxError>(e),
                    None => done.len() == 0,
                },
            decreases rest@.len(),
        {
            let outcome = rest.remove(0);
            proof {
                let before = done;
                done = done.push(outcome);
                assert(done.drop_last() == before);
            }
            match outcome {
                Ok(handle) => {
                    pool.push(handle);
                    metrics.push(HandleMetrics::new());
                },
                Err(e) => {
                    last_error = Some(e);
                },
            }
        }
        assert(done == outcomes@);
        if pool.len() == 0 {
            return Err(
                match last_error {
                    Some(e) => e,
                    None => MuxError::MuxClosed,
                },
            );
        }
        Ok(Session { pool, metrics, next: 0, cancel })
    }

    /// Cost of a connection.
    pub fn handle_cost(&self, idx: usize) -> (r: u64)
        requires
            self.wf(),
            idx < self.pool@.len(),
        ensures
            r == self.cost_of(idx as int),
    {
        let mux = self.pool[idx];
        if mux.closed {
            return u64::MAX;
        }
        self.metrics[idx].cost(mux.active_pairs)
    }

    /// Picks two distinct connections. The counter serves as a cheap source
    /// of entropy.
    pub fn pick_two(&mut self, pool_size: usize) -> (r: (usize, usize))
        requires
            pool_size > 0,
        ensures
            r.0 == two_picks(old(self).next, pool_size as nat).0,
            r.1 == two_picks(old(self).next, pool_size as nat).1,
            r.0 < pool_size,
            r.1 < pool_size,
            pool_size >= 2 ==> r.0 != r.1,
            final(self).next == counter_after(old(self).next, 1),
            final(self).same_pool(*old(self)),
            final(self).metrics == old(self).metrics,
    {
        let seed: u64 = self.next as u64;
        self.next = self.next.wrapping_add(1);
        let a: usize = (seed % (pool_size as u64)) as usize;
        let b: usize = (seed.wrapping_mul(PICK_MULTIPLIER).wrapping_add(1) % (
        pool_size as u64)) as usize;
        if a == b {
            let c: usize = if a + 1 < pool_size {
                a + 1
            } else {
                0
            };
            proof {
                if a + 1 < pool_size {
                    vstd::arithmetic::div_mod::lemma_small_mod((a + 1) as nat, pool_size as nat);
                } else {
                    vstd::arithmetic::div_mod::lemma_mod_self_0(pool_size as int);
                }
            }
            (a, c)
        } else {
            (a, b)
        }
    }

    /// Begins a search: with at least two connections two are picked, the
    /// cheaper first.
    pub fn start_search(&mut self) -> (progress: PairOpen)
        requires
            old(self).wf(),
        ensures
            final(self).wf(),
            final(self).same_pool(*old(self)),
            final(self).metrics == old(self).metrics,
            final(self).searching(progress),
            old(self).search_started(progress, final(self).next),
    {
        let pool_size = self.pool.len();
        let mut picks: Vec<usize> = Vec::new();
        if pool_size >= 2 {
            let (a, b) = self.pick_two(pool_size);
            if self.handle_cost(a) <= self.handle_cost(b) {
                picks.push(a);
                picks.push(b);
            } else {
                picks.push(b);
                picks.push(a);
            }
        }
        PairOpen { picks, scanned: 0 }
    }

    /// The next connection to try. Those that are gone are passed over.
    pub fn next_handle(&mut self, progress: &mut PairOpen) -> (r: Option<usize>)
        requires
            old(self).wf(),
            old(self).searching(*old(progress)),
        ensures
            final(self).wf(),
            final(self).same_pool(*old(self)),
            final(self).metrics == old(self).metrics,
            final(self).searching(*final(progress)),
            search_moved(
                old(self).pool@,
                old(self).next,
                *old(progress),
                final(self).next,
                *final(progress),
                r,
            ),
    {
        let pool_size = self.pool.len();
        let ghost all = candidates(*old(progress), old(self).next, pool_size as nat);
        assert(all.skip(0) == all);
        loop
            invariant
                self.wf(),
                self.same_pool(*old(self)),
                self.metrics == old(self).metrics,
                self.searching(*progress),
                pool_size == self.pool@.len(),
                all == candidates(*old(progress), old(self).next, pool_size as nat),
                progress.scanned >= old(progress).scanned,
                progress.picks@.len() <= old(progress).picks@.len(),
                progress.scanned > old(progress).scanned ==> progress.picks@.len() == 0,
                self.next == counter_after(
                    old(self).next,
                    (progress.scanned - old(progress).scanned) as nat,
                ),
                candidates(*progress, self.next, pool_size as nat) == all.skip(
                    steps_between(*old(progress), *progress),
                ),
                forall|j: int|
                    0 <= j < steps_between(*old(progress), *progress)
                        ==> #[trigger] self.pool@[all[j] as int].closed,
            decreases progress.picks@.len() + (pool_size - progress.scanned),
        {
            let ghost before = *progress;
            let ghost next_before = self.next;
            let ghost done = steps_between(*old(progress), before);
            let ghost rest = candidates(before, next_before, pool_size as nat);
            let idx: usize;
            if progress.picks.len() > 0 {
                idx = progress.picks.remove(0);
                proof {
                    assert(candidates(*progress, self.next, pool_size as nat) =~= rest.skip(1));
                }
            } else if progress.scanned < pool_size {
                idx = self.next % pool_size;
                self.next = self.next.wrapping_add(1);
                progress.scanned = progress.scanned + 1;
                proof {
                    assert(rest[0] == idx);
                    assert(candidates(*progress, self.next, pool_size as nat) =~= rest.skip(1));
                }
            } else {
                proof {
                    assert(rest.len() == 0);
                    assert(done == all.len());
                }
                return None;
            }
            proof {
                assert(rest[0] == idx);
                assert(all[done] == idx);
                assert(all.skip(done).skip(1) =~= all.skip(done + 1));
            }
            if !self.pool[idx].closed {
                return Some(idx);
            }
        }
    }

    /// What [`open_stream_pair`](Session::open_stream_pair) and
    /// [`tried`](Session::tried) answer once the search moved on to `r`.
    pub open spec fn searched(self, r: Option<usize>, step: OpenPairStep) -> bool {
        match r {
            Some(idx) => step == (OpenPairStep::Try { idx }),
            None => step == OpenPairStep::Failed(
                MuxError::CapacityExhausted {
                    in_use: total_in_use(self.pool@) as usize,
                    limit: (total_capacity(self.pool@) as usize) as u32,
                },
            ),
        }
    }

    fn go_on(&mut self, progress: &mut PairOpen) -> (step: OpenPairStep)
        requires
            old(self).wf(),
            old(self).totals_fit(),
            old(self).searching(*old(progress)),
        ensures
            final(self).wf(),
            final(self).same_pool(*old(self)),
            final(self).metrics == old(self).metrics,
            final(self).searching(*final(progress)),
            exists|r: Option<usize>|
                old(self).searched(r, step) && #[trigger] search_moved(
                    old(self).pool@,
                    old(self).next,
                    *old(progress),
                    final(self).next,
                    *final(progress),
                    r,
                ),
    {
        match self.next_handle(progress) {
            Some(idx) => OpenPairStep::Try { idx },
            None => OpenPairStep::Failed(
                MuxError::CapacityExhausted {
                    in_use: self.in_use(),
                    limit: self.capacity() as u32,
                },
            ),
        }
    }

    /// Opens a stream pair: two connections are picked and the cheaper one is
    /// tried first. When neither can take the pair, all are scanned in turn.
    /// The answer names the first connection to try.
    pub fn open_stream_pair(&mut self) -> (r: (PairOpen, OpenPairStep))
        requires
            old(self).wf(),
            old(self).totals_fit(),
        ensures
            final(self).wf(),
            final(self).same_pool(*old(self)),
            final(self).metrics == old(self).metrics,
            final(self).searching(r.0),
            exists|start: PairOpen, next: usize, found: Option<usize>|
                {
                    &&& old(self).search_started(start, next)
                    &&& old(self).searched(found, r.1)
                    &&& #[trigger] search_moved(
                        old(self).pool@,
                        next,
                        start,
                        final(self).next,
                        r.0,
                        found,
                    )
                },
    {
        let mut progress = self.start_search();
        let ghost start = progress;
        let ghost next = self.next;
        assert(old(self).search_started(start, next));
        let step = self.go_on(&mut progress);
        (progress, step)
    }

    /// Takes the outcome of opening the pair on connection `idx`, which on
    /// success took `elapsed_nanos`. Where the connection has no room the
    /// search goes on; any other failure ends it. Only a success is recorded
    /// in the metrics: how long a refusal takes says nothing of the cost of
    /// an open.
    pub fn tried_with(
        &mut self,
        progress: &mut PairOpen,
        idx: usize,
        elapsed_nanos: u128,
        outcome: Result<(), MuxError>,
    ) -> (step: OpenPairStep)
        requires
            old(self).wf(),
            old(self).totals_fit(),
            old(self).searching(*old(progress)),
            idx < old(self).pool@.len(),
        ensures
            final(self).wf(),
            final(self).same_pool(*old(self)),
            final(self).searching(*final(progress)),
            old(self).try_ended(
                idx,
                elapsed_nanos as nat,
                outcome,
                *old(progress),
                *final(self),
                *final(progress),
                step,
            ),
    {
        match outcome {
            Ok(()) => {
                let mut sampled = HandleMetrics { rtt_ns: self.metrics[idx].rtt_ns };
                complete_with(elapsed_nanos, &mut sampled);
                self.metrics.set(idx, sampled);
                OpenPairStep::Opened { idx }
            },
            Err(MuxError::CapacityExhausted { .. }) => self.go_on(progress),
            Err(e) => OpenPairStep::Failed(e),
        }
    }

    /// Takes the outcome of opening the pair on connection `idx`, which began
    /// with `sample`. How long it took, the clock decides; see
    /// [`tried_with`](Session::tried_with).
    pub fn tried(
        &mut self,
        progress: &mut PairOpen,
        idx: usize,
        sample: RttSample,
        outcome: Result<(), MuxError>,
    ) -> (step: OpenPairStep)
        requires
            old(self).wf(),
            old(self).totals_fit(),
            old(self).searching(*old(progress)),
            idx < old(self).pool@.len(),
        ensures
            final(self).wf(),
            final(self).same_pool(*old(self)),
            final(self).searching(*final(progress)),
            exists|nanos: nat| #[trigger]
                old(self).try_ended(
                    idx,
                    nanos,
                    outcome,
                    *old(progress),
                    *final(self),
                    *final(progress),
                    step,
                ),
    {
        let nanos = sample.nanos();
        self.tried_with(progress, idx, nanos, outcome)
    }

    /// Total capacity across all live connections (hard cap).
    pub fn capacity(&self) -> (r: usize)
        requires
            total_capacity(self.pool@) <= usize::MAX,
        ensures
            r == total_capacity(self.pool@),
    {
        let mut sum: usize = 0;
        let mut i: usize = 0;
        assert(self.pool@.take(0) =~= Seq::empty());
        while i < self.pool.len()
            invariant
                total_capacity(self.pool@) <= usize::MAX,
                i <= self.pool@.len(),
                sum == total_capacity(self.pool@.take(i as int)),
            decreases self.pool@.len() - i,
        {
            proof {
                assert(self.pool@.take(i + 1).drop_last() =~= self.pool@.take(i as int));
                lemma_totals_grow(self.pool@, i + 1);
            }
            if !self.pool[i].closed {
                sum = sum + self.pool[i].max_concurrent as usize;
            }
            i = i + 1;
        }
        assert(self.pool@.take(i as int) =~= self.pool@);
        sum
    }

    /// Total operating capacity across all live connections (scheduling cap).
    pub fn operating_capacity(&self) -> (r: usize)
        requires
            total_operating(self.pool@) <= usize::MAX,
        ensures
            r == total_operating(self.pool@),
    {
        let mut sum: usize = 0;
        let mut i: usize = 0;
        assert(self.pool@.take(0) =~= Seq::empty());
        while i < self.pool.len()
            invariant
                total_operating(self.pool@) <= usize::MAX,
                i <= self.pool@.len(),
                sum == total_operating(self.pool@.take(i as int)),
            decreases self.pool@.len() - i,
        {
            proof {
                assert(self.pool@.take(i + 1).drop_last() =~= self.pool@.take(i as int));
                lemma_totals_grow(self.pool@, i + 1);
            }
            if !self.pool[i].closed {
                sum = sum + self.pool[i].operating_capacity;
            }
            i = i + 1;
        }
        assert(self.pool@.take(i as int) =~= self.pool@);
        sum
    }

    /// Stream pairs reserved or open, over all connections.
    pub fn in_use(&self) -> (r: usize)
        requires
            total_in_use(self.pool@) <= usize::MAX,
        ensures
            r == total_in_use(self.pool@),
    {
        let mut sum: usize = 0;
        let mut i: usize = 0;
        assert(self.pool@.take(0) =~= Seq::empty());
        while i < self.pool.len()
            invariant
                total_in_use(self.pool@) <= usize::MAX,
                i <= self.pool@.len(),
                sum == total_in_use(self.pool@.take(i as int)),
            decreases self.pool@.len() - i,
        {
            proof {
                assert(self.pool@.take(i + 1).drop_last() =~= self.pool@.take(i as int));
                lemma_totals_grow(self.pool@, i + 1);
            }
            sum = sum + self.pool[i].active_pairs;
            i = i + 1;
        }
        assert(self.pool@.take(i as int) =~= self.pool@);
        sum
    }

    /// Room for further stream pairs.
    pub fn available(&self) -> (r: usize)
        requires
            self.totals_fit(),
        ensures
            r == room(total_capacity(self.pool@), total_in_use(self.pool@)),
    {
        self.capacity().saturating_sub(self.in_use())
    }

    /// Whether no connection can take another pair.
    pub fn is_full(&self) -> (r: bool)
        ensures
            r == forall|i: int|
                0 <= i < self.pool@.len() ==> {
                    let m = #[trigger] self.pool@[i];
                    m.closed || m.active_pairs >= m.max_concurrent
                },
    {
        let mut i: usize = 0;
        while i < self.pool.len()
            invariant
                i <= self.pool@.len(),
                forall|j: int|
                    0 <= j < i ==> {
                        let m = #[trigger] self.pool@[j];
                        m.closed || m.active_pairs >= m.max_concurrent
                    },
            decreases self.pool@.len() - i,
        {
            let m = self.pool[i];
            if !m.closed && m.active_pairs < m.max_concurrent as usize {
                assert(!(self.pool@[i as int].closed || self.pool@[i as int].active_pairs
                    >= self.pool@[i as int].max_concurrent));
                return false;
            }
            i = i + 1;
        }
        true
    }

    /// Whether all connections are gone.
    pub fn is_drained(&self) -> (r: bool)
        ensures
            r == forall|i: int| 0 <= i < self.pool@.len() ==> (#[trigger] self.pool@[i]).closed,
    {
        let mut i: usize = 0;
        while i < self.pool.len()
            invariant
                i <= self.pool@.len(),
                forall|j: int| 0 <= j < i ==> (#[trigger] self.pool@[j]).closed,
            decreases self.pool@.len() - i,
        {
            if !self.pool[i].closed {
                assert(!self.pool@[i as int].closed);
                return false;
            }
            i = i + 1;
        }
        true
    }

    /// Records what was seen of connection `idx`.
    pub fn observe(&mut self, idx: usize, handle: MuxHandle)
        requires
            old(self).wf(),
            idx < old(self).pool@.len(),
        ensures
            final(self).wf(),
            final(self).pool@ == old(self).pool@.update(idx as int, handle),
            final(self).metrics == old(self).metrics,
            final(self).next == old(self).next,
            final(self).cancel == old(self).cancel,
    {
        self.pool.set(idx, handle);
    }

    /// The token that ends the session.
    pub fn cancellation_token(&self) -> (r: CancellationToken)
        ensures
            r == self.cancel,
    {
        self.cancel.clone()
    }

    /// Closes the session: its token is cancelled, which ends the tasks of
    /// all connections.
    pub fn close(self) -> (r: Result<(), MuxError>)
        ensures
            r is Ok,
    {
        self.cancel.cancel();
        Ok(())
    }
}

/// Capacity left once `in_use` is taken.
pub open spec fn room(capacity: nat, in_use: nat) -> int {
    if capacity >= in_use {
        capacity - in_use
    } else {
        0
    }
}

/// A part of the pool never counts more than the whole.
proof fn lemma_totals_grow(pool: Seq<MuxHandle>, n: int)
    requires
        0 <= n <= pool.len(),
    ensures
        total_capacity(pool.take(n)) <= total_capacity(pool),
        total_operating(pool.take(n)) <= total_operating(pool),
        total_in_use(pool.take(n)) <= total_in_use(pool),
    decreases pool.len(),
{
    if n == pool.len() {
        assert(pool.take(n) =~= pool);
    } else {
        lemma_totals_grow(pool.drop_last(), n);
        assert(pool.drop_last().take(n) =~= pool.take(n));
    }
}

/// A fresh search tries every connection of the pool, or stops before that:
/// the scan alone visits each one. The counter must not wrap around within
/// the scan, unless its range is a multiple of the pool size.
pub proof fn law_search_covers_pool(progress: PairOpen, next: usize, pool_size: nat, i: int)
    requires
        progress.scanned == 0,
        0 <= i < pool_size <= usize::MAX,
        next + pool_size <= usize::MAX + 1 || (usize::MAX + 1) % (pool_size as int) == 0,
    ensures
        candidates(progress, next, pool_size).contains(i as usize),
{
    let n = pool_size as int;
    let r = next as int % n;
    let k = if i >= r {
        i - r
    } else {
        i - r + n
    };
    let c = counter_after(next, k as nat) as int;
    vstd::arithmetic::div_mod::lemma_fundamental_div_mod(next as int, n);
    let q = next as int / n;
    assert(next + k == n * q + i || next + k == n * q + n + i);
    assert((next + k) % n == i) by {
        if next + k == n * q + i {
            vstd::arithmetic::div_mod::lemma_mod_multiples_vanish(q, i, n);
        } else {
            assert(n * (q + 1) == n * q + n) by (nonlinear_arith);
            vstd::arithmetic::div_mod::lemma_mod_multiples_vanish(q + 1, i, n);
        }
        vstd::arithmetic::div_mod::lemma_small_mod(i as nat, n as nat);
    }
    assert(c % n == i) by {
        if next + k > usize::MAX {
            let m = usize::MAX + 1;
            vstd::arithmetic::div_mod::lemma_fundamental_div_mod(m, n);
            let p = m / n;
            assert(m == n * p);
            assert(n * (-p) == -(n * p)) by (nonlinear_arith);
            vstd::arithmetic::div_mod::lemma_mod_multiples_vanish(-p, next + k, n);
        }
    }
    let all = candidates(progress, next, pool_size);
    let at = progress.picks@.len() + k;
    assert(all[at] == i as usize);
}

/// A connection that is gone is never tried, and a fresh search finds a
/// connection to try unless all are gone.
pub proof fn law_search_spares_dead_connections(
    pool: Seq<MuxHandle>,
    next: usize,
    before: PairOpen,
    next_after: usize,
    after: PairOpen,
    found: Option<usize>,
)
    requires
        search_moved(pool, next, before, next_after, after, found),
        before.scanned == 0,
        0 < pool.len() <= usize::MAX,
        next + pool.len() <= usize::MAX + 1 || (usize::MAX + 1) % (pool.len() as int) == 0,
    ensures
        found matches Some(idx) ==> !pool[idx as int].closed,
        found is None <==> forall|i: int| 0 <= i < pool.len() ==> (#[trigger] pool[i]).closed,
{
    let all = candidates(before, next, pool.len());
    if found is None {
        assert forall|i: int| 0 <= i < pool.len() implies (#[trigger] pool[i]).closed by {
            law_search_covers_pool(before, next, pool.len(), i);
            let j = choose|j: int| 0 <= j < all.len() && all[j] == i as usize;
            assert(pool[all[j] as int].closed);
        }
    }
}

/// A search at the point where it looks for the next connection to try.
pub struct SearchPoint {
    pub pool: Seq<MuxHandle>,
    pub next: usize,
    pub progress: PairOpen,
}

/// Whether a search that nothing else interferes with went through `points`,
/// where connection `refused[k]` was tried after `points[k]` and had no room.
/// Meanwhile connections may go, but none comes back.
pub open spec fn refused_at(points: Seq<SearchPoint>, refused: Seq<usize>) -> bool {
    &&& points.len() == refused.len() + 1
    &&& forall|k: int|
        0 <= k < refused.len() ==> #[trigger] search_moved(
            points[k].pool,
            points[k].next,
            points[k].progress,
            points[k + 1].next,
            points[k + 1].progress,
            Some(refused[k]),
        )
    &&& forall|k: int|
        0 <= k < refused.len() ==> (#[trigger] points[k]).pool.len() == points[k + 1].pool.len()
    &&& forall|k: int, i: int|
        0 <= k < refused.len() && 0 <= i < points[k].pool.len() && (
        #[trigger] points[k].pool[i]).closed ==> points[k + 1].pool[i].closed
}

/// Whether connection `i` is gone, has refused, or is still to be tried.
pub open spec fn accounted_for(point: SearchPoint, refused: Seq<usize>, i: int) -> bool {
    ||| point.pool[i].closed
    ||| refused.contains(i as usize)
    ||| candidates(point.progress, point.next, point.pool.len()).contains(i as usize)
}

/// Every connection stays accounted for while a search goes from one refusal
/// to the next.
proof fn lemma_search_loses_no_connection(points: Seq<SearchPoint>, refused: Seq<usize>, i: int)
    requires
        refused_at(points, refused),
        0 <= i < points[0].pool.len() <= usize::MAX,
        candidates(points[0].progress, points[0].next, points[0].pool.len()).contains(i as usize),
    ensures
        points.last().pool.len() == points[0].pool.len(),
        accounted_for(points.last(), refused, i),
    decreases refused.len(),
{
    if refused.len() > 0 {
        let n = refused.len() - 1;
        let front = points.drop_last();
        let earlier = refused.drop_last();
        assert(refused_at(front, earlier)) by {
            assert forall|k: int| 0 <= k < earlier.len() implies #[trigger] search_moved(
                front[k].pool,
                front[k].next,
                front[k].progress,
                front[k + 1].next,
                front[k + 1].progress,
                Some(earlier[k]),
            ) by {
                assert(search_moved(
                    points[k].pool,
                    points[k].next,
                    points[k].progress,
                    points[k + 1].next,
                    points[k + 1].progress,
                    Some(refused[k]),
                ));
            }
            assert forall|k: int| 0 <= k < earlier.len() implies (
            #[trigger] front[k]).pool.len() == front[k + 1].pool.len() by {
                assert(points[k].pool.len() == points[k + 1].pool.len());
            }
            assert forall|k: int, j: int|
                0 <= k < earlier.len() && 0 <= j < front[k].pool.len() && (
                #[trigger] front[k].pool[j]).closed implies front[k + 1].pool[j].closed by {
                assert(points[k].pool[j].closed);
            }
        }
        lemma_search_loses_no_connection(front, earlier, i);
        let before = points[n];
        let after = points[n + 1];
        assert(front.last() == before);
        assert(search_moved(
            before.pool,
            before.next,
            before.progress,
            after.next,
            after.progress,
            Some(refused[n]),
        ));
        assert(before.pool.len() == after.pool.len());
        let all = candidates(before.progress, before.next, before.pool.len());
        let steps = steps_between(before.progress, after.progress);
        if before.pool[i].closed {
            assert(after.pool[i].closed);
        } else if earlier.contains(i as usize) {
            let k = choose|k: int| 0 <= k < earlier.len() && earlier[k] == i as usize;
            assert(refused[k] == i as usize);
        } else {
            let j = choose|j: int| 0 <= j < all.len() && all[j] == i as usize;
            if j < steps - 1 {
                assert(before.pool[all[j] as int].closed);
            } else if j == steps - 1 {
                assert(refused[n] == i as usize);
            } else {
                assert(all.skip(steps)[j - steps] == i as usize);
            }
        }
    }
}

/// A search fails for want of capacity only once every connection is gone or
/// has refused the pair. The counter must not wrap around within the scan,
/// unless its range is a multiple of the pool size.
pub proof fn law_capacity_failure_means_all_refused(
    points: Seq<SearchPoint>,
    refused: Seq<usize>,
    next_after: usize,
    after: PairOpen,
    i: int,
)
    requires
        refused_at(points, refused),
        points[0].progress.scanned == 0,
        search_moved(
            points.last().pool,
            points.last().next,
            points.last().progress,
            next_after,
            after,
            None,
        ),
        0 <= i < points[0].pool.len() <= usize::MAX,
        points[0].next + points[0].pool.len() <= usize::MAX + 1 || (usize::MAX + 1) % (
        points[0].pool.len() as int) == 0,
    ensures
        points.last().pool[i].closed || refused.contains(i as usize),
{
    law_search_covers_pool(points[0].progress, points[0].next, points[0].pool.len(), i);
    lemma_search_loses_no_connection(points, refused, i);
    let last = points.last();
    let all = candidates(last.progress, last.next, last.pool.len());
    if all.contains(i as usize) {
        let j = choose|j: int| 0 <= j < all.len() && all[j] == i as usize;
        assert(last.pool[all[j] as int].closed);
    }
}

/// The totals of a pool are the totals of its parts, and a connection that is
/// gone adds nothing to what the pool can hold, though the streams on it still
/// count as in use.
pub proof fn law_totals_add_up(a: Seq<MuxHandle>, b: Seq<MuxHandle>, one: MuxHandle)
    ensures
        total_capacity(a + b) == total_capacity(a) + total_capacity(b),
        total_operating(a + b) == total_operating(a) + total_operating(b),
        total_in_use(a + b) == total_in_use(a) + total_in_use(b),
        total_capacity(seq![one]) == (if one.closed {
            0
        } else {
            one.max_concurrent as int
        }),
        total_operating(seq![one]) == (if one.closed {
            0
        } else {
            one.operating_capacity as int
        }),
        total_in_use(seq![one]) == one.active_pairs,
        total_capacity(Seq::empty()) == 0,
        total_operating(Seq::empty()) == 0,
        total_in_use(Seq::empty()) == 0,
    decreases b.len(),
{
    reveal_with_fuel(total_capacity, 2);
    reveal_with_fuel(total_operating, 2);
    reveal_with_fuel(total_in_use, 2);
    assert(seq![one].drop_last() =~= Seq::empty());
    if b.len() == 0 {
        assert(a + b =~= a);
    } else {
        law_totals_add_up(a, b.drop_last(), one);
        assert((a + b).drop_last() =~= a + b.drop_last());
        assert((a + b).last() == b.last());
    }
}

/// The room of a pool and what is in use make up its capacity, as long as
/// there is room at all.
pub proof fn law_room_is_what_is_left(capacity: nat, in_use: nat)
    ensures
        room(capacity, in_use) >= 0,
        in_use <= capacity ==> room(capacity, in_use) + in_use == capacity,
        in_use >= capacity ==> room(capacity, in_use) == 0,
{
}

/// A session keeps every connection that came up, in order, and no other:
/// what came up first stays first, a failure adds nothing, and a success adds
/// itself at the end.
pub proof fn law_healthy_connections_are_kept(
    outcomes: Seq<Result<MuxHandle, MuxError>>,
    more: Seq<Result<MuxHandle, MuxError>>,
    handle: MuxHandle,
    error: MuxError,
)
    ensures
        healthy(outcomes + more) == healthy(outcomes) + healthy(more),
        healthy(seq![Ok::<MuxHandle, MuxError>(handle)]) == seq![handle],
        healthy(seq![Err::<MuxHandle, MuxError>(error)]).len() == 0,
        healthy(Seq::empty()).len() == 0,
        healthy(outcomes).len() <= outcomes.len(),
    decreases more.len() + outcomes.len(),
{
    reveal_with_fuel(healthy, 2);
    let ok = seq![Ok::<MuxHandle, MuxError>(handle)];
    let err = seq![Err::<MuxHandle, MuxError>(error)];
    assert(ok.drop_last() =~= Seq::empty());
    assert(err.drop_last() =~= Seq::empty());
    assert(healthy(ok) =~= seq![handle]);
    if outcomes.len() > 0 {
        law_healthy_connections_are_kept(outcomes.drop_last(), Seq::empty(), handle, error);
    }
    if more.len() == 0 {
        assert(outcomes + more =~= outcomes);
        assert(healthy(outcomes) + healthy(more) =~= healthy(outcomes));
    } else {
        law_healthy_connections_are_kept(outcomes, more.drop_last(), handle, error);
        assert((outcomes + more).drop_last() =~= outcomes + more.drop_last());
        assert((outcomes + more).last() == more.last());
        assert(healthy(outcomes + more) =~= healthy(outcomes) + healthy(more));
    }
}

/// The counter goes up by one at every step, starts over behind its largest
/// value, and two walks of `a` and `b` steps are one of `a + b`.
pub proof fn law_counter_counts_steps(next: usize, a: nat, b: nat)
    requires
        a + b <= usize::MAX,
    ensures
        counter_after(next, 0) == next,
        counter_after(next, 1) == next.wrapping_add(1),
        counter_after(counter_after(next, a), b) == counter_after(next, a + b),
{
}

/// A connection that is gone costs more than any other can, and among
/// connections with equal estimates the one with fewer streams is the
/// cheaper.
pub proof fn law_cost_goes_by_estimate_and_load(session: Session, a: int, b: int)
    requires
        session.wf(),
        0 <= a < session.pool@.len(),
        0 <= b < session.pool@.len(),
    ensures
        session.pool@[a].closed ==> session.cost_of(a) == u64::MAX,
        !session.pool@[a].closed ==> session.cost_of(a) == rtt_cost(
            session.metrics@[a].rtt_ns,
            session.pool@[a].active_pairs,
        ),
        !session.pool@[a].closed && session.metrics@[a].rtt_ns == session.metrics@[b].rtt_ns
            && session.pool@[a].active_pairs <= session.pool@[b].active_pairs ==> session.cost_of(a)
            <= session.cost_of(b),
        session.cost_of(a) <= u64::MAX,
{
    if session.metrics@[a].rtt_ns == session.metrics@[b].rtt_ns && session.pool@[a].active_pairs
        <= session.pool@[b].active_pairs {
        super::metrics::law_cost_grows_with_load(
            session.metrics@[a].rtt_ns,
            session.pool@[a].active_pairs,
            session.pool@[b].active_pairs,
        );
    }
}

/// A search begins with two different connections of the pool, the one that
/// costs less first; with a single connection there is nothing to pick.
pub proof fn law_cheaper_pick_comes_first(session: Session, progress: PairOpen, next: usize)
    requires
        session.wf(),
        session.search_started(progress, next),
    ensures
        progress.scanned == 0,
        session.pool@.len() == 1 ==> progress.picks@.len() == 0 && next == session.next,
        session.pool@.len() >= 2 ==> {
            &&& progress.picks@.len() == 2
            &&& progress.picks@[0] < session.pool@.len()
            &&& progress.picks@[1] < session.pool@.len()
            &&& progress.picks@[0] != progress.picks@[1]
            &&& session.cost_of(progress.picks@[0] as int) <= session.cost_of(
                progress.picks@[1] as int,
            )
            &&& next == session.next.wrapping_add(1)
        },
{
    if session.pool@.len() >= 2 {
        law_picks_are_two_connections(session.next, session.pool@.len());
        let (p, q) = two_picks(session.next, session.pool@.len());
        assert(session.pool@.len() == session.pool.len());
        assert((p as usize) as int == p);
        assert((q as usize) as int == q);
    }
}

/// The two picks are connections of the pool, and never the same one where
/// there are two. The first follows the counter round the pool.
pub proof fn law_picks_are_two_connections(seed: usize, pool_size: nat)
    requires
        pool_size >= 2,
    ensures
        0 <= two_picks(seed, pool_size).0 < pool_size,
        0 <= two_picks(seed, pool_size).1 < pool_size,
        two_picks(seed, pool_size).0 != two_picks(seed, pool_size).1,
        seed < pool_size ==> two_picks(seed, pool_size).0 == seed,
        seed < usize::MAX ==> two_picks((seed + 1) as usize, pool_size).0 == (if two_picks(
            seed,
            pool_size,
        ).0 + 1 == pool_size {
            0
        } else {
            two_picks(seed, pool_size).0 + 1
        }),
{
    let n = pool_size as int;
    let raw = (seed as u64).wrapping_mul(PICK_MULTIPLIER).wrapping_add(1) as int;
    vstd::arithmetic::div_mod::lemma_mod_bound(seed as int, n);
    vstd::arithmetic::div_mod::lemma_mod_bound(raw, n);
    let a = seed as int % n;
    if a + 1 < n {
        vstd::arithmetic::div_mod::lemma_small_mod((a + 1) as nat, n as nat);
    } else {
        vstd::arithmetic::div_mod::lemma_mod_self_0(n);
    }
    vstd::arithmetic::div_mod::lemma_add_mod_noop(seed as int, 1, n);
    vstd::arithmetic::div_mod::lemma_small_mod(1, n as nat);
    if seed < pool_size {
        vstd::arithmetic::div_mod::lemma_small_mod(seed as nat, n as nat);
    }
}

/// A pair that was opened ends the search there, and its time goes into the
/// estimate of that connection and no other. A refusal for want of capacity
/// leaves all estimates and goes on to another connection, or fails with the
/// totals of the pool; any other failure ends the search with that failure.
pub proof fn law_only_success_is_measured(
    session: Session,
    idx: usize,
    nanos: nat,
    outcome: Result<(), MuxError>,
    before: PairOpen,
    after: Session,
    progress: PairOpen,
    step: OpenPairStep,
    other: int,
)
    requires
        session.wf(),
        session.totals_fit(),
        session.try_ended(idx, nanos, outcome, before, after, progress, step),
        idx < session.pool@.len(),
        0 <= other < session.metrics@.len(),
    ensures
        outcome is Ok <==> step is Opened,
        step matches OpenPairStep::Opened { idx: opened } ==> opened == idx,
        other != idx || !(outcome is Ok) ==> after.metrics@[other] == session.metrics@[other],
        outcome is Ok ==> {
            let prev = session.metrics@[idx as int].rtt_ns;
            let next = after.metrics@[idx as int].rtt_ns;
            &&& nanos > prev && nanos <= u64::MAX ==> next == nanos
            &&& nanos > u64::MAX && prev < u64::MAX ==> next == u64::MAX
            &&& nanos <= prev ==> 10 * next <= 9 * prev + nanos && 9 * prev + nanos - 90 <= 10 * next
        },
        outcome matches Err(e) ==> {
            &&& !(e is CapacityExhausted) ==> step == OpenPairStep::Failed(e)
            &&& e is CapacityExhausted ==> {
                ||| step matches OpenPairStep::Try { idx: another } && !session.pool@[
                    another as int
                ].closed
                ||| step matches OpenPairStep::Failed(MuxError::CapacityExhausted { in_use, limit })
                    && in_use == total_in_use(session.pool@) && (total_capacity(session.pool@)
                    <= u32::MAX ==> limit == total_capacity(session.pool@))
            }
        },
{
    if outcome is Ok {
        let prev = session.metrics@[idx as int].rtt_ns;
        let sample = capped_nanos(nanos) as u64;
        super::metrics::law_estimate_moves_a_tenth(prev, sample);
    }
}

/// A search tries the cheaper pick where it lives, else the other where that
/// one lives; only when both are gone does it come to others.
pub proof fn law_search_tries_the_picks_first(
    session: Session,
    start: PairOpen,
    next: usize,
    next_after: usize,
    after: PairOpen,
    found: Option<usize>,
)
    requires
        session.wf(),
        session.pool@.len() >= 2,
        session.search_started(start, next),
        search_moved(session.pool@, next, start, next_after, after, found),
    ensures
        !session.pool@[start.picks@[0] as int].closed ==> found == Some(start.picks@[0]),
        session.pool@[start.picks@[0] as int].closed && !session.pool@[
            start.picks@[1] as int
        ].closed ==> found == Some(start.picks@[1]),
{
    let all = candidates(start, next, session.pool@.len());
    law_cheaper_pick_comes_first(session, start, next);
    assert(all[0] == start.picks@[0]);
    assert(all[1] == start.picks@[1]);
    if !session.pool@[start.picks@[0] as int].closed {
        assert(!session.pool@[all[0] as int].closed);
    } else if !session.pool@[start.picks@[1] as int].closed {
        assert(!session.pool@[all[1] as int].closed);
    }
}

/// Without picks a search goes round the pool from where the counter stands:
/// it tries the connection there where it lives, and otherwise goes on as a
/// search one place further would.
pub proof fn law_scan_goes_round_from_the_counter(
    pool: Seq<MuxHandle>,
    next: usize,
    before: PairOpen,
    next_after: usize,
    after: PairOpen,
    found: Option<usize>,
)
    requires
        before.picks@.len() == 0,
        before.scanned < pool.len() <= usize::MAX,
        search_moved(pool, next, before, next_after, after, found),
    ensures
        !pool[next as int % pool.len() as int].closed ==> (found matches Some(idx) && idx as int
            == next as int % pool.len() as int),
        pool[next as int % pool.len() as int].closed && before.scanned + 1 < pool.len()
            && !pool[next.wrapping_add(1) as int % pool.len() as int].closed ==> (
        found matches Some(idx) && idx as int == next.wrapping_add(1) as int % pool.len() as int),
{
    let all = candidates(before, next, pool.len());
    let n = pool.len() as int;
    vstd::arithmetic::div_mod::lemma_mod_bound(next as int, n);
    vstd::arithmetic::div_mod::lemma_mod_bound(next.wrapping_add(1) as int, n);
    assert(counter_after(next, 0) == next);
    assert(counter_after(next, 1) == next.wrapping_add(1));
    assert(all[0] as int == next as int % n);
    if before.scanned + 1 < pool.len() {
        assert(all[1] as int == next.wrapping_add(1) as int % n);
    }
    if !pool[next as int % n].closed {
        assert(!pool[all[0] as int].closed);
    } else if before.scanned + 1 < pool.len() && !pool[next.wrapping_add(1) as int % n].closed {
        assert(!pool[all[1] as int].closed);
    }
}

/// The second pick scatters: on the counter value `seed` it is the remainder
/// of the number below 2^64 that differs from `seed` times the multiplier plus
/// one by a multiple of 2^64. Where that is the first pick again, it is the
/// connection behind it, and behind the last one the first.
pub proof fn law_second_pick_scatters(seed: usize, pool_size: nat, scattered: int, wraps: int)
    requires
        pool_size >= 2,
        0 <= scattered < 0x1_0000_0000_0000_0000,
        seed * 6_364_136_223_846_793_005 + 1 == wraps * 0x1_0000_0000_0000_0000 + scattered,
    ensures
        ({
            let (first, second) = two_picks(seed, pool_size);
            &&& first == seed as int % (pool_size as int)
            &&& scattered % (pool_size as int) != first ==> second == scattered % (pool_size as int)
            &&& scattered % (pool_size as int) == first ==> {
                &&& first + 1 < pool_size ==> second == first + 1
                &&& first + 1 == pool_size ==> second == 0
            }
        }),
{
    let range: int = 0x1_0000_0000_0000_0000;
    let product: int = seed * 6_364_136_223_846_793_005;
    let low = product % range;
    vstd::arithmetic::div_mod::lemma_fundamental_div_mod(product, range);
    let high = product / range;
    assert((seed as u64).wrapping_mul(PICK_MULTIPLIER) as int == low);
    let raw = (seed as u64).wrapping_mul(PICK_MULTIPLIER).wrapping_add(1) as int;
    assert(raw == low + 1 || raw == 0 && low + 1 == range);
    assert(raw == scattered) by {
        assert(0 <= raw < range);
        assert(product == high * range + low) by (nonlinear_arith)
            requires
                product == range * high + low,
        ;
        let k = wraps - high;
        assert(scattered == low + 1 - k * range) by (nonlinear_arith)
            requires
                product + 1 == wraps * range + scattered,
                product == high * range + low,
                k == wraps - high,
        ;
    }
    vstd::arithmetic::div_mod::lemma_mod_bound(seed as int, pool_size as int);
    let first = seed as int % (pool_size as int);
    if first + 1 < pool_size {
        vstd::arithmetic::div_mod::lemma_small_mod((first + 1) as nat, pool_size);
    } else {
        vstd::arithmetic::div_mod::lemma_mod_self_0(pool_size as int);
    }
}

/// Of two picks that cost the same, the one that follows the counter comes
/// first; and one of the two always is that one.
pub proof fn law_equal_picks_follow_the_counter(session: Session, progress: PairOpen, next: usize)
    requires
        session.wf(),
        session.pool@.len() >= 2,
        session.search_started(progress, next),
    ensures
        ({
            let turn = session.next as int % session.pool@.len() as int;
            let (a, b) = (progress.picks@[0] as int, progress.picks@[1] as int);
            &&& a == turn || b == turn
            &&& session.cost_of(a) == session.cost_of(b) ==> a == turn
            &&& a == turn ==> session.cost_of(a) <= session.cost_of(b)
            &&& b == turn ==> session.cost_of(a) < session.cost_of(b)
        }),
{
    law_picks_are_two_connections(session.next, session.pool@.len());
    let (a, b) = two_picks(session.next, session.pool@.len());
    assert(session.pool@.len() == session.pool.len());
    assert((a as usize) as int == a);
    assert((b as usize) as int == b);
    if session.cost_of(a) <= session.cost_of(b) {
        assert(progress.picks@[0] as int == a && progress.picks@[1] as int == b);
    } else {
        assert(progress.picks@[0] as int == b && progress.picks@[1] as int == a);
    }
}

} // verus!
