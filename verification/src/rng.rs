//! A small, fast, deterministic pseudo-random generator.
//!
//! The generator is the classic 128-bit xorshift of Marsaglia, seeded from
//! a single `u64` through a PCG-style expansion.  Both steps are given
//! here as executable code proved equal to spec functions that state the
//! exact bit-level computation, so the whole output stream is a pure
//! function of the seed.  The stream is bit-compatible with the widely
//! used `rand_xorshift` generator (seeded via `rand_core`'s
//! `seed_from_u64`); the test suite cross-checks the two streams.

use vstd::prelude::*;

verus! {

/// The four 32-bit words of xorshift state.
#[derive(Clone, Copy, PartialEq, Eq, Structural, Debug)]
pub struct XorShift {
    pub x: u32,
    pub y: u32,
    pub z: u32,
    pub w: u32,
}

/// One xorshift step: the state that follows `s`.  The word `w` of the
/// result is also the value the generator emits for this step.
pub open spec fn step(s: XorShift) -> XorShift {
    let t = s.x ^ (s.x << 11);
    XorShift { x: s.y, y: s.z, z: s.w, w: s.w ^ (s.w >> 19) ^ (t ^ (t >> 8)) }
}

/// The 32-bit value the generator emits when stepped from state `s`.
pub open spec fn output(s: XorShift) -> u32 {
    step(s).w
}

/// One advance of the PCG seeding state.
pub open spec fn pcg_advance(state: u64) -> u64 {
    state.wrapping_mul(6364136223846793005).wrapping_add(11634580027462260723)
}

/// `x` rotated right by `r % 32` bit positions.
pub open spec fn rotate_right_32(x: u32, r: u32) -> u32 {
    let k = r % 32;
    if k == 0 {
        x
    } else {
        (x >> k) | (x << (32 - k))
    }
}

/// The 32-bit word the PCG output function derives from seeding state
/// `state`.
pub open spec fn pcg_output(state: u64) -> u32 {
    let xorshifted = #[verifier::truncate] ((((state >> 18) ^ state) >> 27) as u32);
    let rot = (state >> 59) as u32;
    rotate_right_32(xorshifted, rot)
}

/// The xorshift state obtained from a `u64` seed: four PCG-expanded
/// words, with an all-zero expansion replaced by a fixed non-zero
/// pattern, since xorshift state must never be all zero.
pub open spec fn seeded(seed: u64) -> XorShift {
    let s0 = pcg_advance(seed);
    let s1 = pcg_advance(s0);
    let s2 = pcg_advance(s1);
    let s3 = pcg_advance(s2);
    let w0 = pcg_output(s0);
    let w1 = pcg_output(s1);
    let w2 = pcg_output(s2);
    let w3 = pcg_output(s3);
    if w0 == 0 && w1 == 0 && w2 == 0 && w3 == 0 {
        XorShift { x: 0xBAD_5EED, y: 0xBAD_5EED, z: 0xBAD_5EED, w: 0xBAD_5EED }
    } else {
        XorShift { x: w0, y: w1, z: w2, w: w3 }
    }
}

impl XorShift {
    /// Advance the state by one step and return the emitted value.
    pub fn next_u32(&mut self) -> (r: u32)
        ensures
            *final(self) == step(*old(self)),
            r == output(*old(self)),
    {
        let x = self.x;
        let t = x ^ (x << 11);
        self.x = self.y;
        self.y = self.z;
        self.z = self.w;
        let w = self.w;
        self.w = w ^ (w >> 19) ^ (t ^ (t >> 8));
        self.w
    }

    /// Build a generator state from a `u64` seed.
    pub fn seed_from_u64(seed: u64) -> (r: XorShift)
        ensures
            r == seeded(seed),
    {
        let (s0, w0) = pcg32(seed);
        let (s1, w1) = pcg32(s0);
        let (s2, w2) = pcg32(s1);
        let (_s3, w3) = pcg32(s2);
        if w0 == 0 && w1 == 0 && w2 == 0 && w3 == 0 {
            XorShift { x: 0xBAD_5EED, y: 0xBAD_5EED, z: 0xBAD_5EED, w: 0xBAD_5EED }
        } else {
            XorShift { x: w0, y: w1, z: w2, w: w3 }
        }
    }
}

/// One PCG step: the advanced seeding state and the word derived from it.
fn pcg32(state: u64) -> (r: (u64, u32))
    ensures
        r.0 == pcg_advance(state),
        r.1 == pcg_output(pcg_advance(state)),
{
    let next = state.wrapping_mul(6364136223846793005).wrapping_add(11634580027462260723);
    let xorshifted = #[verifier::truncate] ((((next >> 18) ^ next) >> 27) as u32);
    let rot = (next >> 59) as u32;
    let k = rot % 32;
    let x = if k == 0 {
        xorshifted
    } else {
        (xorshifted >> k) | (xorshifted << (32 - k))
    };
    (next, x)
}

} // verus!
