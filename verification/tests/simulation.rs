//! Behavior of the trial engine, the batch engine and the aggregation.

use monty_pyrs::DoorSet;
use monty_pyrs::MontyHall;
use monty_pyrs::ResultSet;
use monty_pyrs::Results;
use monty_pyrs::XorShift;
use monty_pyrs::play_threaded;
use monty_pyrs::play_workers;

fn results(sw_wins: u64, sw_losses: u64, st_wins: u64, st_losses: u64) -> Results {
    Results {
        switched: ResultSet { wins: sw_wins, losses: sw_losses },
        stayed: ResultSet { wins: st_wins, losses: st_losses },
    }
}

#[test]
fn play_single_seed_1337_switch_wins() {
    // The first draw from seed 1337 is 1442213989, which is 1 modulo 3,
    // so the correct door is not the initial choice and switching wins.
    let mut monty = MontyHall::new_with_rng(XorShift::seed_from_u64(1337));
    assert!(monty.play_single(true));
}

#[test]
fn play_single_seed_1337_stay_loses() {
    let mut monty = MontyHall::new_with_rng(XorShift::seed_from_u64(1337));
    assert!(!monty.play_single(false));
}

#[test]
fn play_single_deterministic() {
    let mut a = MontyHall::new_with_rng(XorShift::seed_from_u64(7));
    let mut b = MontyHall::new_with_rng(XorShift::seed_from_u64(7));
    for i in 0..200u32 {
        let switch = i % 2 == 0;
        assert_eq!(a.play_single(switch), b.play_single(switch));
    }
}

#[test]
fn play_multiple_splits_evenly() {
    for iterations in [2u64, 7, 10, 101, 1000] {
        let mut monty = MontyHall::default();
        let r = monty.play_multiple(iterations);
        let half = iterations / 2;
        assert_eq!(r.switched.wins + r.switched.losses, half);
        assert_eq!(r.stayed.wins + r.stayed.losses, half);
    }
}

#[test]
fn play_multiple_seed_zero_eight_trials() {
    // Draws from seed 0 are 2, 1, 2, 1, 1, 2, 2, 0 modulo 3.  The four
    // switching trials all miss door 0 and win; of the four staying
    // trials only the last draw lands on door 0.
    let mut monty = MontyHall::default();
    let r = monty.play_multiple(8);
    assert_eq!(r, results(4, 0, 1, 3));
}

#[test]
fn play_multiple_zero_iterations() {
    let mut monty = MontyHall::default();
    let r = monty.play_multiple(0);
    assert_eq!(r, results(0, 0, 0, 0));
    assert_eq!(r.calc_win_rate(), None);
}

#[test]
fn play_multiple_one_iteration() {
    // One requested trial truncates to zero per strategy.
    let mut monty = MontyHall::default();
    let r = monty.play_multiple(1);
    assert_eq!(r, results(0, 0, 0, 0));
    assert_eq!(r.calc_win_rate(), None);
}

#[test]
fn merge_is_commutative() {
    let a = results(1, 2, 3, 4);
    let b = results(10, 20, 30, 40);
    let mut ab = a;
    ab.merge(b);
    let mut ba = b;
    ba.merge(a);
    assert_eq!(ab, ba);
    assert_eq!(ab, results(11, 22, 33, 44));
}

#[test]
fn merge_is_associative() {
    let a = results(1, 2, 3, 4);
    let b = results(10, 20, 30, 40);
    let c = results(100, 200, 300, 400);
    let mut left = a;
    left.merge(b);
    left.merge(c);
    let mut bc = b;
    bc.merge(c);
    let mut right = a;
    right.merge(bc);
    assert_eq!(left, right);
    assert_eq!(left, results(111, 222, 333, 444));
}

#[test]
fn merge_with_zero_is_identity() {
    let a = results(5, 6, 7, 8);
    let mut m = Results::zero();
    m.merge(a);
    assert_eq!(m, a);
    let mut n = a;
    n.merge(Results::zero());
    assert_eq!(n, a);
}

#[test]
fn calc_win_rate_exact_ratios() {
    let r = results(20, 10, 10, 20);
    let (switched, stayed) = r.calc_win_rate().unwrap();
    assert_eq!(switched.wins, 20);
    assert_eq!(switched.total, 30);
    assert_eq!(stayed.wins, 10);
    assert_eq!(stayed.total, 30);
    let switched_pct = switched.wins as f64 / switched.total as f64;
    let stayed_pct = stayed.wins as f64 / stayed.total as f64;
    assert!((switched_pct - 2.0 / 3.0).abs() < 1e-12);
    assert!((stayed_pct - 1.0 / 3.0).abs() < 1e-12);
}

#[test]
fn calc_win_rate_rejects_one_sided_zero() {
    assert_eq!(results(0, 0, 1, 1).calc_win_rate(), None);
    assert_eq!(results(1, 1, 0, 0).calc_win_rate(), None);
}

#[test]
fn statistical_convergence() {
    // Over a million trials the switching win rate converges to about
    // 2/3 and the staying win rate to about 1/3.
    let mut monty = MontyHall::default();
    let r = monty.play_multiple(1_000_000);
    let (switched, stayed) = r.calc_win_rate().unwrap();
    let switched_pct = switched.wins as f64 / switched.total as f64;
    let stayed_pct = stayed.wins as f64 / stayed.total as f64;
    assert!((switched_pct - 2.0 / 3.0).abs() < 0.005);
    assert!((stayed_pct - 1.0 / 3.0).abs() < 0.005);
}

#[test]
fn play_workers_matches_sequential_merge() {
    let merged = play_workers(1000, 4, 0);
    let mut expected = Results::zero();
    for _ in 0..4 {
        let mut monty = MontyHall::default();
        expected.merge(monty.play_multiple(250));
    }
    assert_eq!(merged, expected);
}

#[test]
fn play_workers_truncates_leftover_iterations() {
    // 11 iterations over 3 workers leave each worker 3 trials, of which
    // one more is dropped by the per-strategy split.
    let r = play_workers(11, 3, 0);
    assert_eq!(r.switched.wins + r.switched.losses, 3);
    assert_eq!(r.stayed.wins + r.stayed.losses, 3);
}

#[test]
fn play_threaded_matches_worker_count() {
    let r = play_threaded(10_000);
    let expected = play_workers(10_000, num_cpus::get(), 0);
    assert_eq!(r, expected);
}

#[test]
fn door_set_removal_keeps_order() {
    let mut doors = DoorSet::new();
    assert_eq!(doors.len(), 3);
    assert_eq!(doors.get(0), 0);
    assert_eq!(doors.get(1), 1);
    assert_eq!(doors.get(2), 2);
    doors.remove(1);
    assert_eq!(doors.len(), 2);
    assert_eq!(doors.get(0), 0);
    assert_eq!(doors.get(1), 2);
}

#[test]
fn default_engine_uses_named_seed() {
    let mut a = MontyHall::default();
    let mut b = MontyHall::new_with_rng(XorShift::seed_from_u64(monty_pyrs::DEFAULT_SEED));
    for _ in 0..50 {
        assert_eq!(a.play_single(true), b.play_single(true));
    }
}
