//! The sequence tracker: a per-connection record of the highest sequence
//! number seen on any inbound dispatch. The reader path calls `observe`
//! for every dispatch that carries a sequence number; the heartbeat path
//! calls `current` to learn what position to report. Updates always keep
//! the maximum, never overwrite with a smaller value, so the result is
//! independent of the order in which observations arrive.

use vstd::prelude::*;

verus! {

/// What the tracked value becomes when `n` is observed on top of `cur`.
pub open spec fn observed(cur: Option<i64>, n: i64) -> Option<i64> {
    match cur {
        None => Some(n),
        Some(m) => Some(if m >= n { m } else { n }),
    }
}

/// The tracked value after a whole run of observations, oldest first,
/// starting from a fresh tracker.
pub open spec fn after_observations(obs: Seq<i64>) -> Option<i64>
    decreases obs.len(),
{
    if obs.len() == 0 {
        None
    } else {
        observed(after_observations(obs.drop_last()), obs.last())
    }
}

/// Records the highest sequence number observed so far, or `None` before
/// the first dispatch of the connection.
pub struct SequenceTracker {
    last: Option<i64>,
}

impl View for SequenceTracker {
    type V = Option<i64>;

    closed spec fn view(&self) -> Option<i64> {
        self.last
    }
}

impl SequenceTracker {
    /// A fresh tracker: no dispatch has been seen yet.
    pub fn new() -> (t: Self)
        ensures
            t@ == None::<i64>,
    {
        SequenceTracker { last: None }
    }

    /// Record one inbound sequence number, keeping the maximum.
    pub fn observe(&mut self, n: i64)
        ensures
            final(self)@ == observed(old(self)@, n),
    {
        match self.last {
            None => {
                self.last = Some(n);
            }
            Some(m) => {
                if n > m {
                    self.last = Some(n);
                }
            }
        }
    }

    /// The highest sequence number observed so far, if any.
    pub fn current(&self) -> (r: Option<i64>)
        ensures
            r == self@,
    {
        self.last
    }
}

/// Law: after any run of observations the tracked value is the maximum of
/// the values observed — it is one of them, and none of them exceeds it.
/// That characterisation does not mention the order of the run, so any
/// interleaving of the same observations leaves the tracker in the same
/// state.
pub proof fn lemma_tracker_holds_max(obs: Seq<i64>)
    requires
        obs.len() > 0,
    ensures
        after_observations(obs) is Some,
        obs.contains(after_observations(obs)->Some_0),
        forall|i: int| 0 <= i < obs.len() ==> obs[i] <= after_observations(obs)->Some_0,
    decreases obs.len(),
{
    if obs.len() == 1 {
        assert(obs.contains(obs.last())) by {
            assert(obs[0] == obs.last());
        }
    } else {
        let prefix = obs.drop_last();
        lemma_tracker_holds_max(prefix);
        let m = after_observations(prefix)->Some_0;
        let k = after_observations(obs)->Some_0;
        assert(prefix.contains(m));
        let wit = choose|i: int| 0 <= i < prefix.len() && prefix[i] == m;
        if obs.last() > m {
            assert(obs[obs.len() - 1] == k);
        } else {
            assert(obs[wit] == k);
        }
        assert(obs.contains(k));
        assert forall|i: int| 0 <= i < obs.len() implies obs[i] <= k by {
            if i < prefix.len() {
                assert(prefix[i] == obs[i]);
            }
        }
    }
}

/// Law: two runs that observe the same values, in any order, leave the
/// tracker with the same current value.
pub proof fn lemma_tracker_order_independent(obs1: Seq<i64>, obs2: Seq<i64>)
    requires
        obs1.to_multiset() == obs2.to_multiset(),
    ensures
        after_observations(obs1) == after_observations(obs2),
{
    obs1.to_multiset_ensures();
    obs2.to_multiset_ensures();
    if obs1.len() == 0 {
        assert(obs2.len() == 0);
    } else {
        assert(obs2.len() == obs1.len());
        lemma_tracker_holds_max(obs1);
        lemma_tracker_holds_max(obs2);
        let m1 = after_observations(obs1)->Some_0;
        let m2 = after_observations(obs2)->Some_0;
        assert(obs1.contains(m1) && obs2.contains(m2));
        assert(obs1.to_multiset().contains(m1) && obs2.to_multiset().contains(m2));
        assert(obs2.contains(m1) && obs1.contains(m2));
        let i1 = choose|i: int| 0 <= i < obs1.len() && obs1[i] == m2;
        let i2 = choose|i: int| 0 <= i < obs2.len() && obs2[i] == m1;
        assert(m2 <= m1 && m1 <= m2);
    }
}

} // verus!
