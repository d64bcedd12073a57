//! Win/loss counters and their order-independent aggregation.

use vstd::prelude::*;

verus! {

/// Win/loss counters for one strategy (switching or staying).
#[derive(Clone, Copy, PartialEq, Eq, Structural, Debug)]
pub struct ResultSet {
    pub wins: u64,
    pub losses: u64,
}

/// Counters for both strategies.  Partial `Results` values produced by
/// independent workers are combined with [`Results::merge`], whose
/// component-wise addition is associative and commutative, so the order
/// of combination does not matter.
#[derive(Clone, Copy, PartialEq, Eq, Structural, Debug)]
pub struct Results {
    pub switched: ResultSet,
    pub stayed: ResultSet,
}

/// The win rate of one strategy as an exact ratio: `wins` out of `total`
/// trials.
#[derive(Clone, Copy, PartialEq, Eq, Structural, Debug)]
pub struct WinRate {
    pub wins: u64,
    pub total: u64,
}

/// The four counters of a `Results` value as unbounded integers, the
/// mathematical model over which merging is stated.
pub open spec fn totals(r: Results) -> (int, int, int, int) {
    (
        r.switched.wins as int,
        r.switched.losses as int,
        r.stayed.wins as int,
        r.stayed.losses as int,
    )
}

/// Component-wise sum of two counter quadruples.
pub open spec fn merged_totals(
    x: (int, int, int, int),
    y: (int, int, int, int),
) -> (int, int, int, int) {
    (x.0 + y.0, x.1 + y.1, x.2 + y.2, x.3 + y.3)
}

/// No counter pair can overflow when summed; holds of every `Results`
/// a simulation produces, since wins + losses never exceeds the trial
/// count.
pub open spec fn can_merge(a: Results, b: Results) -> bool {
    &&& a.switched.wins + b.switched.wins <= u64::MAX
    &&& a.switched.losses + b.switched.losses <= u64::MAX
    &&& a.stayed.wins + b.stayed.wins <= u64::MAX
    &&& a.stayed.losses + b.stayed.losses <= u64::MAX
}

/// Each strategy's counter pair can be summed without overflowing a
/// `u64`.  Every `Results` a simulation produces satisfies this, since
/// wins plus losses never exceeds the number of trials played.
pub open spec fn wf(r: Results) -> bool {
    &&& r.switched.wins + r.switched.losses <= u64::MAX
    &&& r.stayed.wins + r.stayed.losses <= u64::MAX
}

impl Results {
    /// A `Results` with every counter zero.
    pub fn zero() -> (r: Results)
        ensures
            totals(r) == (0int, 0int, 0int, 0int),
    {
        Results {
            switched: ResultSet { wins: 0, losses: 0 },
            stayed: ResultSet { wins: 0, losses: 0 },
        }
    }

    /// Add `other`'s counters into `self`, component-wise.
    pub fn merge(&mut self, other: Results)
        requires
            can_merge(*old(self), other),
        ensures
            totals(*final(self)) == merged_totals(totals(*old(self)), totals(other)),
    {
        self.switched.wins = self.switched.wins + other.switched.wins;
        self.switched.losses = self.switched.losses + other.switched.losses;
        self.stayed.wins = self.stayed.wins + other.stayed.wins;
        self.stayed.losses = self.stayed.losses + other.stayed.losses;
    }

    /// The win rate of each strategy as an exact `wins / total` ratio,
    /// switched first.  A strategy with zero recorded trials has no
    /// win rate, and the whole calculation is rejected with `None`
    /// rather than yielding a misleading value.
    pub fn calc_win_rate(&self) -> (r: Option<(WinRate, WinRate)>)
        requires
            wf(*self),
        ensures
            self.switched.wins + self.switched.losses > 0 && self.stayed.wins + self.stayed.losses
                > 0 ==> r == Some(
                (
                    (WinRate {
                        wins: self.switched.wins,
                        total: (self.switched.wins + self.switched.losses) as u64,
                    }),
                    (WinRate {
                        wins: self.stayed.wins,
                        total: (self.stayed.wins + self.stayed.losses) as u64,
                    }),
                ),
            ),
            self.switched.wins + self.switched.losses == 0 || self.stayed.wins + self.stayed.losses
                == 0 ==> r is None,
    {
        let switched_total = self.switched.wins + self.switched.losses;
        let stayed_total = self.stayed.wins + self.stayed.losses;
        if switched_total == 0 || stayed_total == 0 {
            None
        } else {
            Some(
                (
                    WinRate { wins: self.switched.wins, total: switched_total },
                    WinRate { wins: self.stayed.wins, total: stayed_total },
                ),
            )
        }
    }
}

impl Default for Results {
    /// Same value as [`Results::zero`].
    fn default() -> (r: Results)
        ensures
            totals(r) == (0int, 0int, 0int, 0int),
    {
        Results::zero()
    }
}

/// Merging is commutative: combining two partial `Results` yields the
/// same counters in either order.
pub proof fn lemma_merge_commutative(a: Results, b: Results)
    ensures
        merged_totals(totals(a), totals(b)) == merged_totals(totals(b), totals(a)),
{
}

/// Merging is associative: combining three partial `Results` yields the
/// same counters under either grouping.
pub proof fn lemma_merge_associative(a: Results, b: Results, c: Results)
    ensures
        merged_totals(merged_totals(totals(a), totals(b)), totals(c))
            == merged_totals(totals(a), merged_totals(totals(b), totals(c))),
{
}

} // verus!
