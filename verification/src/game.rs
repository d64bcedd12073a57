//! The simulation engine: single trials and sequential batches.

use vstd::prelude::*;
use crate::doors::DoorSet;
use crate::results::Results;
use crate::results::ResultSet;
use crate::results::totals;
use crate::results::wf;
use crate::rng::XorShift;
use crate::rng::output;
use crate::rng::seeded;
use crate::rng::step;

verus! {

/// The seed every default engine starts from.  Each parallel worker is
/// built with this one fixed seed, so all workers replay the identical
/// trial sequence; callers wanting statistically independent workers can
/// construct engines with distinct seeds instead.
pub const DEFAULT_SEED: u64 = 0;

/// The simulation engine.  It owns one generator state, which advances
/// by exactly one draw per trial.
pub struct MontyHall {
    pub rng: XorShift,
}

/// Whether one trial beginning in RNG state `s` is won under the given
/// strategy.  The correct door is the draw taken modulo 3 and the
/// initial choice is always door 0, so staying wins exactly when the
/// draw lands on door 0, and switching wins otherwise.
pub open spec fn trial_won(s: XorShift, switch_doors: bool) -> bool {
    let correct = output(s) % 3;
    if switch_doors {
        correct != 0
    } else {
        correct == 0
    }
}

/// Generator state after `k` draws from `s`.
pub open spec fn state_after(s: XorShift, k: nat) -> XorShift
    decreases k,
{
    if k == 0 {
        s
    } else {
        step(state_after(s, (k - 1) as nat))
    }
}

/// How many of `k` consecutive trials beginning in state `s` are won,
/// all played under the same strategy.
pub open spec fn wins_in(s: XorShift, k: nat, switch_doors: bool) -> nat
    decreases k,
{
    if k == 0 {
        0
    } else {
        wins_in(s, (k - 1) as nat, switch_doors) + if trial_won(
            state_after(s, (k - 1) as nat),
            switch_doors,
        ) {
            1nat
        } else {
            0nat
        }
    }
}

/// No batch wins more trials than it plays.
pub proof fn lemma_wins_in_le(s: XorShift, k: nat, switch_doors: bool)
    ensures
        wins_in(s, k, switch_doors) <= k,
    decreases k,
{
    if k > 0 {
        lemma_wins_in_le(s, (k - 1) as nat, switch_doors);
    }
}

/// Draws compose: `a` draws followed by `b` draws are `a + b` draws.
pub proof fn lemma_state_after_add(s: XorShift, a: nat, b: nat)
    ensures
        state_after(s, a + b) == state_after(state_after(s, a), b),
    decreases b,
{
    if b > 0 {
        lemma_state_after_add(s, a, (b - 1) as nat);
    }
}

/// The four counters a batch of `iterations` trials produces from
/// starting state `s`: the first half of the trials (by integer
/// division; an odd trial is dropped) is played switching, the second
/// half staying.
pub open spec fn batch_totals(s: XorShift, iterations: u64) -> (int, int, int, int) {
    let half = (iterations / 2) as nat;
    let sw = wins_in(s, half, true) as int;
    let st = wins_in(state_after(s, half), half, false) as int;
    (sw, half - sw, st, half - st)
}

/// Every batch splits its trials evenly: from any starting state and
/// any iteration count, each strategy records exactly
/// `iterations / 2` trials (wins and losses together), and wins are
/// never negative.
pub proof fn lemma_batch_totals_split(s: XorShift, iterations: u64)
    ensures
        batch_totals(s, iterations).0 + batch_totals(s, iterations).1 == iterations / 2,
        batch_totals(s, iterations).2 + batch_totals(s, iterations).3 == iterations / 2,
        0 <= batch_totals(s, iterations).0,
        0 <= batch_totals(s, iterations).2,
{
    lemma_wins_in_le(s, (iterations / 2) as nat, true);
    lemma_wins_in_le(state_after(s, (iterations / 2) as nat), (iterations / 2) as nat, false);
}

impl MontyHall {
    /// An engine over the given generator state.
    pub fn new_with_rng(rng: XorShift) -> (m: MontyHall)
        ensures
            m.rng == rng,
    {
        MontyHall { rng }
    }

    /// Play one trial: draw the correct door, fix the initial choice on
    /// door 0, reveal the first door that is neither correct nor chosen,
    /// switch to the other remaining door if asked to, and report
    /// whether the final choice is the correct door.
    pub fn play_single(&mut self, switch_doors: bool) -> (won: bool)
        ensures
            final(self).rng == step(old(self).rng),
            won == trial_won(old(self).rng, switch_doors),
    {
        let mut doors = DoorSet::new();
        let correct: i8 = (self.rng.next_u32() % 3) as i8;
        let mut choice: i8 = 0;

        // The host reveals the first door that is neither correct nor
        // currently chosen; one always exists among the three doors.
        let mut idx: usize = 0;
        while idx < doors.len() && !(doors.get(idx) != correct && doors.get(idx) != choice)
            invariant
                doors@ == seq![0i8, 1i8, 2i8],
                idx <= 3,
                0 <= correct < 3,
                choice == 0,
                forall|j: int| 0 <= j < idx ==> !(doors@[j] != correct && doors@[j] != choice),
            decreases 3 - idx,
        {
            idx += 1;
        }
        proof {
            if idx >= 3 {
                assert(!(doors@[1] != correct && doors@[1] != choice));
                assert(!(doors@[2] != correct && doors@[2] != choice));
                assert(false);
            }
        }
        doors.remove(idx);

        if switch_doors {
            // Two doors remain and the current choice is one of them;
            // switch to the first door that differs from the choice.
            let mut j: usize = 0;
            while j < doors.len() && !(doors.get(j) != choice)
                invariant
                    doors@ == seq![0i8, 1i8, 2i8].remove(idx as int),
                    0 <= idx < 3,
                    j <= doors@.len(),
                    choice == 0,
                    forall|t: int| 0 <= t < j ==> doors@[t] == choice,
                decreases doors@.len() - j,
            {
                j += 1;
            }
            proof {
                if j >= doors@.len() {
                    assert(doors@.len() == 2);
                    assert(doors@[1] != 0i8);
                    assert(false);
                }
            }
            choice = doors.get(j);
        }

        choice == correct
    }

    /// Play `iterations` trials on this one engine: the first
    /// `iterations / 2` switching, the next `iterations / 2` staying
    /// (integer division: an odd trial is silently dropped).
    pub fn play_multiple(&mut self, iterations: u64) -> (r: Results)
        ensures
            totals(r) == batch_totals(old(self).rng, iterations),
            final(self).rng == state_after(old(self).rng, 2 * ((iterations / 2) as nat)),
            wf(r),
    {
        let half = iterations / 2;
        let ghost s = self.rng;
        let mut results = Results {
            switched: ResultSet { wins: 0, losses: 0 },
            stayed: ResultSet { wins: 0, losses: 0 },
        };

        let mut i: u64 = 0;
        while i < half
            invariant
                i <= half,
                half == iterations / 2,
                self.rng == state_after(s, i as nat),
                results.switched.wins == wins_in(s, i as nat, true),
                results.switched.wins + results.switched.losses == i,
                results.stayed.wins == 0 && results.stayed.losses == 0,
            decreases half - i,
        {
            let won = self.play_single(true);
            if won {
                results.switched.wins = results.switched.wins + 1;
            } else {
                results.switched.losses = results.switched.losses + 1;
            }
            i = i + 1;
        }

        let mut k: u64 = 0;
        while k < half
            invariant
                k <= half,
                half == iterations / 2,
                self.rng == state_after(s, (half + k) as nat),
                results.switched.wins == wins_in(s, half as nat, true),
                results.switched.wins + results.switched.losses == half,
                results.stayed.wins == wins_in(state_after(s, half as nat), k as nat, false),
                results.stayed.wins + results.stayed.losses == k,
            decreases half - k,
        {
            let won = self.play_single(false);
            proof {
                lemma_state_after_add(s, half as nat, k as nat);
                lemma_state_after_add(s, half as nat, (k + 1) as nat);
            }
            if won {
                results.stayed.wins = results.stayed.wins + 1;
            } else {
                results.stayed.losses = results.stayed.losses + 1;
            }
            k = k + 1;
        }

        results
    }
}

impl Default for MontyHall {
    /// An engine seeded with [`DEFAULT_SEED`].
    fn default() -> (m: MontyHall)
        ensures
            m.rng == seeded(DEFAULT_SEED),
    {
        MontyHall::new_with_rng(XorShift::seed_from_u64(DEFAULT_SEED))
    }
}

} // verus!
