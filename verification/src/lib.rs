//! A Monte Carlo simulator for the Monty Hall problem.
//!
//! The simulator estimates the empirical win rates of the "switch" and
//! "stay" strategies by running large numbers of independent single-trial
//! games and aggregating win/loss counts.  Randomness comes from a small,
//! fast, deterministic xorshift generator, so every run is reproducible
//! from its seed.

pub mod doors;
pub mod game;
pub mod parallel;
pub mod results;
pub mod rng;

pub use doors::DoorSet;
pub use game::DEFAULT_SEED;
pub use game::MontyHall;
pub use parallel::play_threaded;
pub use parallel::play_workers;
pub use rng::XorShift;
pub use results::ResultSet;
pub use results::Results;
pub use results::WinRate;
