//! Running per-category packet counts and a capped history of snapshots,
//! one snapshot per sampling tick, oldest evicted first.

use vstd::prelude::*;

use crate::category::BasicProtocolType;
use crate::category::CATEGORY_COUNT;
use crate::category::PacketType;
use crate::category::category_index;
use crate::category::category_of;
use crate::category::get_basic_type;
use crate::category::spec_basic_type;
use crate::category::spec_category_index;
use crate::category::spec_category_of;

verus! {

/// How many snapshots the history keeps: one minute at one sample per
/// second.
pub const HISTORY_CAP: usize = 60;

/// Appending a snapshot to a history at capacity evicts the oldest entry
/// first.
pub open spec fn spec_push_evict(h: Seq<Seq<u64>>, snap: Seq<u64>) -> Seq<Seq<u64>> {
    if h.len() >= HISTORY_CAP {
        h.subrange(1, h.len() as int).push(snap)
    } else {
        h.push(snap)
    }
}

/// The history after a whole sequence of snapshots is appended in order,
/// starting from `h0`.
pub open spec fn spec_history_fold(h0: Seq<Seq<u64>>, snaps: Seq<Seq<u64>>) -> Seq<Seq<u64>>
    decreases snaps.len(),
{
    if snaps.len() == 0 {
        h0
    } else {
        spec_push_evict(spec_history_fold(h0, snaps.drop_last()), snaps.last())
    }
}

/// Running packet counts per service category, with all categories present
/// from initialization, plus the capped snapshot history.
pub struct PacketStats {
    counts: Vec<u64>,
    history: Vec<Vec<u64>>,
    last_update: u64,
}

impl PacketStats {
    /// The running counts, indexed by category ordinal.
    pub closed spec fn counts_seq(&self) -> Seq<u64> {
        self.counts@
    }

    /// The snapshots, oldest first.
    pub closed spec fn history_seq(&self) -> Seq<Seq<u64>> {
        Seq::new(self.history@.len(), |i: int| self.history@[i]@)
    }

    /// When the history was last sampled, in caller-clock milliseconds.
    pub closed spec fn spec_last_update(&self) -> u64 {
        self.last_update
    }

    /// Well-formedness: one counter per category, at most `HISTORY_CAP`
    /// snapshots, each snapshot one value per category.
    pub closed spec fn wf(&self) -> bool {
        &&& self.counts@.len() == CATEGORY_COUNT
        &&& self.history@.len() <= HISTORY_CAP
        &&& forall|i: int| 0 <= i < self.history@.len() ==> self.history@[i]@.len()
            == CATEGORY_COUNT
    }

    /// Fresh statistics: every category present with count zero, an empty
    /// history, and the given time as the last sample time.
    pub fn new(now_ms: u64) -> (s: PacketStats)
        ensures
            s.wf(),
            s.counts_seq() == Seq::new(CATEGORY_COUNT as nat, |i: int| 0u64),
            s.history_seq() == Seq::<Seq<u64>>::empty(),
            s.spec_last_update() == now_ms,
    {
        let mut counts: Vec<u64> = Vec::new();
        for i in 0..CATEGORY_COUNT
            invariant
                counts@.len() == i,
                forall|j: int| 0 <= j < i ==> counts@[j] == 0u64,
        {
            counts.push(0);
        }
        let s = PacketStats { counts, history: Vec::new(), last_update: now_ms };
        proof {
            assert(s.counts_seq() =~= Seq::new(CATEGORY_COUNT as nat, |i: int| 0u64));
            assert(s.history_seq() =~= Seq::<Seq<u64>>::empty());
        }
        s
    }

    /// The running count of one category.
    pub fn count_of(&self, t: PacketType) -> (n: u64)
        requires
            self.wf(),
        ensures
            n == self.counts_seq()[spec_category_index(t)],
    {
        let i = category_index(t);
        self.counts[i]
    }

    /// Bumps the running count of one category by one, saturating; never
    /// fails, and touches nothing else.
    pub fn increment(&mut self, t: PacketType)
        requires
            old(self).wf(),
        ensures
            final(self).wf(),
            final(self).counts_seq() == old(self).counts_seq().update(
                spec_category_index(t),
                old(self).counts_seq()[spec_category_index(t)].saturating_add(1),
            ),
            final(self).history_seq() == old(self).history_seq(),
            final(self).spec_last_update() == old(self).spec_last_update(),
    {
        let i = category_index(t);
        let c = self.counts[i];
        self.counts.set(i, c.saturating_add(1));
        proof {
            assert(self.history_seq() =~= old(self).history_seq());
        }
    }

    /// How many snapshots the history holds; never more than the cap.
    pub fn history_len(&self) -> (n: usize)
        requires
            self.wf(),
        ensures
            n == self.history_seq().len(),
            n <= HISTORY_CAP,
    {
        self.history.len()
    }

    /// One category's count in one snapshot.
    pub fn history_at(&self, i: usize, t: PacketType) -> (n: u64)
        requires
            self.wf(),
            i < self.history_seq().len(),
        ensures
            n == self.history_seq()[i as int][spec_category_index(t)],
    {
        let k = category_index(t);
        self.history[i][k]
    }

    /// A copy of the running counts, for the display side.
    pub fn counts_snapshot(&self) -> (v: Vec<u64>)
        requires
            self.wf(),
        ensures
            v@ == self.counts_seq(),
    {
        let mut v: Vec<u64> = Vec::new();
        let n = self.counts.len();
        for i in 0..n
            invariant
                n == self.counts@.len(),
                v@ =~= self.counts@.subrange(0, i as int),
        {
            v.push(self.counts[i]);
        }
        proof {
            assert(v@ =~= self.counts_seq());
        }
        v
    }

    /// The running counts of the first `k` categories whose rollup is
    /// `b`, added up without bound.
    pub open spec fn spec_basic_partial(counts: Seq<u64>, b: BasicProtocolType, k: int) -> int
        decreases k,
    {
        if k <= 0 {
            0
        } else {
            Self::spec_basic_partial(counts, b, k - 1) + if spec_basic_type(spec_category_of(k - 1))
                == b {
                counts[k - 1] as int
            } else {
                0int
            }
        }
    }

    /// The combined running count of every category that rolls up to one
    /// coarse group, saturating at the largest `u64`.
    pub fn basic_count(&self, b: BasicProtocolType) -> (n: u64)
        requires
            self.wf(),
        ensures
            n == if Self::spec_basic_partial(self.counts_seq(), b, CATEGORY_COUNT as int)
                > u64::MAX {
                u64::MAX as int
            } else {
                Self::spec_basic_partial(self.counts_seq(), b, CATEGORY_COUNT as int)
            },
    {
        let mut acc: u64 = 0;
        for k in 0..CATEGORY_COUNT
            invariant
                self.wf(),
                acc == if Self::spec_basic_partial(self.counts_seq(), b, k as int) > u64::MAX {
                    u64::MAX as int
                } else {
                    Self::spec_basic_partial(self.counts_seq(), b, k as int)
                },
        {
            let t = category_of(k);
            if get_basic_type(t) == b {
                acc = acc.saturating_add(self.counts[k]);
            }
        }
        acc
    }

    /// Whether a whole second has passed since the last sample, so that
    /// the driving tick should append a snapshot.  A missed tick simply
    /// makes the next interval longer; there is no catch-up.
    pub fn should_sample(&self, now_ms: u64) -> (r: bool)
        ensures
            r == (now_ms - self.spec_last_update() >= 1000),
    {
        now_ms.saturating_sub(self.last_update) >= 1000
    }

    /// Appends a copy of the running counts to the history, evicting the
    /// oldest snapshot first when the history is at capacity, and records
    /// the sample time.
    pub fn update_history(&mut self, now_ms: u64)
        requires
            old(self).wf(),
        ensures
            final(self).wf(),
            final(self).history_seq() == spec_push_evict(
                old(self).history_seq(),
                old(self).counts_seq(),
            ),
            final(self).counts_seq() == old(self).counts_seq(),
            final(self).spec_last_update() == now_ms,
    {
        let ghost h0 = self.history_seq();
        if self.history.len() >= HISTORY_CAP {
            self.history.remove(0);
            proof {
                assert(self.history_seq() =~~= h0.subrange(1, h0.len() as int));
            }
        }
        let snap = self.counts_snapshot();
        let ghost h1 = self.history_seq();
        self.history.push(snap);
        self.last_update = now_ms;
        proof {
            assert(self.history_seq() =~~= h1.push(snap@));
            assert(self.history_seq() =~~= spec_push_evict(h0, old(self).counts_seq()));
        }
    }
}

/// Law: starting from an empty history, appending any sequence of
/// snapshots leaves exactly the most recent `HISTORY_CAP` of them, in
/// order; everything older has been evicted.
pub proof fn lemma_history_window(snaps: Seq<Seq<u64>>)
    ensures
        spec_history_fold(Seq::<Seq<u64>>::empty(), snaps) =~= snaps.subrange(
            if snaps.len() <= HISTORY_CAP {
                0
            } else {
                snaps.len() - HISTORY_CAP
            },
            snaps.len() as int,
        ),
    decreases snaps.len(),
{
    if snaps.len() > 0 {
        let front = snaps.drop_last();
        lemma_history_window(front);
        let prev = spec_history_fold(Seq::<Seq<u64>>::empty(), front);
        assert(forall|k: int| 0 <= k < front.len() ==> front[k] == snaps[k]);
        if front.len() < HISTORY_CAP {
            assert(prev.len() == front.len());
            assert(spec_push_evict(prev, snaps.last()) =~= snaps.subrange(0, snaps.len() as int));
        } else {
            assert(prev.len() == HISTORY_CAP);
            assert(spec_push_evict(prev, snaps.last()) =~= snaps.subrange(
                snaps.len() - HISTORY_CAP,
                snaps.len() as int,
            ));
        }
    } else {
        assert(spec_history_fold(Seq::<Seq<u64>>::empty(), snaps) =~= snaps.subrange(
            0,
            snaps.len() as int,
        ));
    }
}

/// Law: after sixty-one snapshots into an empty history the first snapshot
/// is no longer present — the history is exactly the last sixty, in order,
/// ending with the sixty-first.
pub proof fn lemma_sixty_one_samples(snaps: Seq<Seq<u64>>)
    requires
        snaps.len() == 61,
    ensures
        spec_history_fold(Seq::<Seq<u64>>::empty(), snaps) =~= snaps.subrange(1, 61),
        spec_history_fold(Seq::<Seq<u64>>::empty(), snaps).len() == 60,
        spec_history_fold(Seq::<Seq<u64>>::empty(), snaps).last() == snaps[60],
{
    lemma_history_window(snaps);
}

} // verus!
