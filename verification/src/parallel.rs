//! Fan-out/fan-in orchestration of independent simulation workers.
//!
//! Each worker owns a freshly seeded engine and plays a private batch;
//! the partial `Results` are then reduced with the associative,
//! commutative merge, so the order of combination does not matter.  The
//! functions here compute the exact aggregate a fan-out produces; an
//! embedding program may run the same per-worker batches on real
//! threads and merge the partial results it collects.

use vstd::arithmetic::div_mod::lemma_fundamental_div_mod;
use vstd::arithmetic::div_mod::lemma_mod_bound;
use vstd::arithmetic::mul::lemma_mul_upper_bound;
use vstd::prelude::*;
use crate::game::MontyHall;
use crate::game::DEFAULT_SEED;
use crate::game::batch_totals;
use crate::game::lemma_wins_in_le;
use crate::game::state_after;
use crate::results::Results;
use crate::results::totals;
use crate::results::wf;
use crate::rng::XorShift;
use crate::rng::seeded;

verus! {

/// The counters produced by `workers` independent workers, every one
/// seeded with the same `seed` and playing `iterations / workers`
/// trials (integer division: leftover trials are silently dropped).
/// Identically seeded workers replay the identical batch, so the merged
/// aggregate is each per-worker counter taken `workers` times.
pub open spec fn workers_totals(iterations: u64, workers: usize, seed: u64) -> (
    int,
    int,
    int,
    int,
)
    recommends
        1 <= workers,
{
    let per = iterations / (workers as u64);
    let b = batch_totals(seeded(seed), per);
    ((workers as int) * b.0, (workers as int) * b.1, (workers as int) * b.2, (workers as int)
        * b.3)
}

/// Run `workers` identically seeded workers one after the other and
/// merge their partial results.  This computes exactly the aggregate a
/// parallel fan-out of the same workers yields, since merging is
/// order-independent.
pub fn play_workers(iterations: u64, workers: usize, seed: u64) -> (r: Results)
    requires
        1 <= workers,
    ensures
        totals(r) == workers_totals(iterations, workers, seed),
        wf(r),
{
    let per = iterations / (workers as u64);
    let ghost b = batch_totals(seeded(seed), per);
    let ghost half = (per / 2) as int;
    proof {
        lemma_wins_in_le(seeded(seed), (per / 2) as nat, true);
        lemma_wins_in_le(state_after(seeded(seed), (per / 2) as nat), (per / 2) as nat, false);
        lemma_fundamental_div_mod(iterations as int, workers as int);
        lemma_mod_bound(iterations as int, workers as int);
    }
    let mut results = Results::zero();
    let mut t: usize = 0;
    while t < workers
        invariant
            t <= workers,
            1 <= workers,
            per == iterations / (workers as u64),
            half == (per / 2) as int,
            b == batch_totals(seeded(seed), per),
            0 <= b.0 && 0 <= b.1 && 0 <= b.2 && 0 <= b.3,
            b.0 + b.1 == half && b.2 + b.3 == half,
            half <= per as int,
            (workers as int) * (per as int) <= iterations as int,
            totals(results) == (
                (t as int) * b.0,
                (t as int) * b.1,
                (t as int) * b.2,
                (t as int) * b.3,
            ),
        decreases workers - t,
    {
        let mut monty = MontyHall::new_with_rng(XorShift::seed_from_u64(seed));
        let part = monty.play_multiple(per);
        proof {
            lemma_mul_upper_bound((t + 1) as int, workers as int, b.0, per as int);
            lemma_mul_upper_bound((t + 1) as int, workers as int, b.1, per as int);
            lemma_mul_upper_bound((t + 1) as int, workers as int, b.2, per as int);
            lemma_mul_upper_bound((t + 1) as int, workers as int, b.3, per as int);
            assert(((t + 1) as int) * b.0 == (t as int) * b.0 + b.0) by (nonlinear_arith);
            assert(((t + 1) as int) * b.1 == (t as int) * b.1 + b.1) by (nonlinear_arith);
            assert(((t + 1) as int) * b.2 == (t as int) * b.2 + b.2) by (nonlinear_arith);
            assert(((t + 1) as int) * b.3 == (t as int) * b.3 + b.3) by (nonlinear_arith);
        }
        results.merge(part);
        t = t + 1;
    }
    proof {
        let w = workers as int;
        assert(w * b.0 + w * b.1 == w * half && w * b.2 + w * b.3 == w * half)
            by (nonlinear_arith)
            requires
                b.0 + b.1 == half,
                b.2 + b.3 == half,
        ;
        lemma_mul_upper_bound(w, w, half, per as int);
    }
    results
}

/// Run the full simulation split across as many workers as the host has
/// logical processing units: some worker count at least 1 determines
/// the aggregate through [`workers_totals`], with every worker seeded
/// with [`DEFAULT_SEED`].
pub fn play_threaded(iterations: u64) -> (r: Results)
    ensures
        exists|w: usize| 1 <= w && totals(r) == workers_totals(iterations, w, DEFAULT_SEED),
        wf(r),
{
    let workers = logical_cpus();
    let r = play_workers(iterations, workers, DEFAULT_SEED);
    proof {
        assert(1 <= workers && totals(r) == workers_totals(iterations, workers, DEFAULT_SEED));
    }
    r
}

/// Relies on `num_cpus::get`: the number of logical processing units of
/// the host, documented to always be at least 1.
#[verifier::external_body]
fn logical_cpus() -> (n: usize)
    ensures
        1 <= n,
{
    num_cpus::get()
}

} // verus!
