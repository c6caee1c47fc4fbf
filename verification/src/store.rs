//! Generic time-windowed store: an ordered history of timestamped
//! samples with an age-based eviction rule shared by every metric
//! domain that keeps history.

use vstd::prelude::*;

verus! {

/// One harvested value together with the instant at which it was
/// captured, in seconds on the monotonic cycle clock.
#[derive(Clone, Copy, PartialEq, Eq, Debug)]
pub struct Sample<T> {
    pub payload: T,
    pub instant: u64,
}

/// A sample captured at `instant` is fresh at `now` when its
/// saturating age `now - instant` does not exceed `retention`
/// seconds; a sample stamped at or after `now` has age zero.
pub open spec fn fresh(instant: u64, now: u64, retention: u64) -> bool {
    now <= instant + retention
}

/// The samples of `s` that are fresh at `now`, in their original
/// order.
pub open spec fn pruned<T>(s: Seq<Sample<T>>, now: u64, retention: u64) -> Seq<Sample<T>>
    decreases s.len(),
{
    if s.len() == 0 {
        Seq::empty()
    } else {
        let rest = pruned(s.drop_last(), now, retention);
        if fresh(s.last().instant, now, retention) {
            rest.push(s.last())
        } else {
            rest
        }
    }
}

/// The positions in `s` of the samples that survive a prune at `now`,
/// in increasing order.
pub open spec fn pruned_indices<T>(s: Seq<Sample<T>>, now: u64, retention: u64) -> Seq<int>
    decreases s.len(),
{
    if s.len() == 0 {
        Seq::empty()
    } else {
        let rest = pruned_indices(s.drop_last(), now, retention);
        if fresh(s.last().instant, now, retention) {
            rest.push(s.len() - 1)
        } else {
            rest
        }
    }
}

/// Ordered history of timestamped samples for one metric domain.
/// Appending inserts at the end and never reorders; pruning removes
/// exactly the samples whose age exceeds the retention window and
/// keeps the rest in their relative order.
#[derive(Clone, PartialEq, Eq, Debug)]
pub struct TimeWindowedSeries<T> {
    pub samples: Vec<Sample<T>>,
}

impl<T> View for TimeWindowedSeries<T> {
    type V = Seq<Sample<T>>;

    open spec fn view(&self) -> Seq<Sample<T>> {
        self.samples@
    }
}

/// Whether a sample captured at `instant` is still inside the
/// retention window at `now`.
pub fn is_fresh(instant: u64, now: u64, retention: u64) -> (r: bool)
    ensures
        r == fresh(instant, now, retention),
{
    if instant >= now {
        true
    } else {
        now - instant <= retention
    }
}

impl<T: Copy> TimeWindowedSeries<T> {
    /// An empty history.
    pub fn new() -> (r: Self)
        ensures
            r@ == Seq::<Sample<T>>::empty(),
    {
        TimeWindowedSeries { samples: Vec::new() }
    }

    /// Inserts `sample` at the end of the history.
    pub fn append(&mut self, sample: Sample<T>)
        ensures
            final(self)@ == old(self)@.push(sample),
    {
        self.samples.push(sample);
    }

    /// Removes every sample whose age at `now` exceeds `retention`;
    /// the retained samples keep their relative order.
    pub fn prune(&mut self, now: u64, retention: u64)
        ensures
            final(self)@ == pruned(old(self)@, now, retention),
            forall|i: int|
                0 <= i < final(self)@.len() ==> fresh(
                    (#[trigger] final(self)@[i]).instant,
                    now,
                    retention,
                ),
    {
        let mut kept: Vec<Sample<T>> = Vec::new();
        let n = self.samples.len();
        let mut i: usize = 0;
        while i < n
            invariant
                i <= n,
                n == self.samples@.len(),
                kept@ == pruned(self.samples@.take(i as int), now, retention),
            decreases n - i,
        {
            let s = self.samples[i];
            proof {
                assert(self.samples@.take(i + 1).drop_last() =~= self.samples@.take(i as int));
                assert(self.samples@.take(i + 1).last() == self.samples@[i as int]);
            }
            if is_fresh(s.instant, now, retention) {
                kept.push(s);
            }
            i += 1;
        }
        proof {
            assert(self.samples@.take(n as int) =~= self.samples@);
        }
        self.samples = kept;
        proof {
            lemma_pruned_fresh(old(self)@, now, retention);
        }
    }
}

/// Every sample that survives a prune is inside the retention window:
/// its age at `now` is at most `retention`.
pub proof fn lemma_pruned_fresh<T>(s: Seq<Sample<T>>, now: u64, retention: u64)
    ensures
        forall|i: int|
            0 <= i < pruned(s, now, retention).len() ==> fresh(
                (#[trigger] pruned(s, now, retention)[i]).instant,
                now,
                retention,
            ),
    decreases s.len(),
{
    if s.len() > 0 {
        lemma_pruned_fresh(s.drop_last(), now, retention);
        let p = pruned(s, now, retention);
        let rest = pruned(s.drop_last(), now, retention);
        assert forall|i: int| 0 <= i < p.len() implies fresh(
            (#[trigger] p[i]).instant,
            now,
            retention,
        ) by {
            if fresh(s.last().instant, now, retention) {
                assert(p == rest.push(s.last()));
                if i < rest.len() {
                    assert(p[i] == rest[i]);
                }
            } else {
                assert(p == rest);
            }
        }
    }
}

/// Pruning a history in which every sample is already fresh changes
/// nothing.
pub proof fn lemma_pruned_identity<T>(s: Seq<Sample<T>>, now: u64, retention: u64)
    requires
        forall|i: int|
            0 <= i < s.len() ==> fresh((#[trigger] s[i]).instant, now, retention),
    ensures
        pruned(s, now, retention) == s,
    decreases s.len(),
{
    if s.len() > 0 {
        assert(forall|i: int|
            0 <= i < s.drop_last().len() ==> fresh(
                (#[trigger] s.drop_last()[i]).instant,
                now,
                retention,
            ));
        lemma_pruned_identity(s.drop_last(), now, retention);
        assert(fresh(s[s.len() - 1].instant, now, retention));
        assert(pruned(s, now, retention) =~= s);
    } else {
        assert(pruned(s, now, retention) =~= s);
    }
}

/// Law: pruning is idempotent. Pruning twice at the same instant with
/// the same retention yields the same history as pruning once.
pub proof fn lemma_prune_idempotent<T>(s: Seq<Sample<T>>, now: u64, retention: u64)
    ensures
        pruned(pruned(s, now, retention), now, retention) == pruned(s, now, retention),
{
    lemma_pruned_fresh(s, now, retention);
    lemma_pruned_identity(pruned(s, now, retention), now, retention);
}

/// Law: pruning preserves relative order. The survivors are exactly
/// the samples of the input taken at a strictly increasing sequence
/// of positions.
pub proof fn lemma_prune_preserves_order<T>(s: Seq<Sample<T>>, now: u64, retention: u64)
    ensures
        ({
            let idx = pruned_indices(s, now, retention);
            let p = pruned(s, now, retention);
            &&& idx.len() == p.len()
            &&& forall|j: int|
                0 <= j < idx.len() ==> 0 <= #[trigger] idx[j] < s.len() && p[j] == s[idx[j]]
            &&& forall|j: int, k: int| 0 <= j < k < idx.len() ==> idx[j] < idx[k]
        }),
    decreases s.len(),
{
    if s.len() > 0 {
        lemma_prune_preserves_order(s.drop_last(), now, retention);
        let idx0 = pruned_indices(s.drop_last(), now, retention);
        let p0 = pruned(s.drop_last(), now, retention);
        assert(forall|j: int|
            0 <= j < idx0.len() ==> 0 <= #[trigger] idx0[j] < s.len() - 1 && p0[j] == s.drop_last()[
                idx0[j]
            ]);
        assert(forall|j: int|
            0 <= j < idx0.len() ==> s.drop_last()[#[trigger] idx0[j]] == s[idx0[j]]);
    }
}

} // verus!
