//! A deterministic, seedable random source.
//!
//! Every routine that needs randomness takes such a source as an explicit
//! parameter; nothing in the library draws from a hidden global generator.
//! The generator is a 64-bit linear congruential sequence whose every step
//! is pinned by its contract, so a render is a mathematical function of the
//! scene, the camera and the seed.

use vstd::prelude::*;

verus! {

/// Multiplier of the linear congruential step.
pub const LCG_MUL: u64 = 6364136223846793005;

/// Increment of the linear congruential step.
pub const LCG_INC: u64 = 1442695040888963407;

/// The state that follows `s`.
pub open spec fn next_state(s: u64) -> u64 {
    (((s as int) * (LCG_MUL as int) + (LCG_INC as int)) % 0x1_0000_0000_0000_0000) as u64
}

/// The 32-bit draw produced by one step from state `s`: the high half of the
/// new state.
pub open spec fn rand_u32(s: u64) -> u32 {
    (next_state(s) / 0x1_0000_0000) as u32
}

/// The draw from state `s`, reduced below `n`.
pub open spec fn rand_below(s: u64, n: u32) -> u32 {
    if n == 0 {
        0
    } else {
        (rand_u32(s) % n) as u32
    }
}

/// The fixed-point draw from state `s` in the half-open range `[min, max)`.
pub open spec fn rand_fx(s: u64, min: int, max: int) -> int {
    min + rand_below(s, (max - min) as u32) as int
}

/// A caller-supplied random source: one draw consumes one state transition.
pub struct Rng {
    pub state: u64,
}

impl Rng {
    pub fn new(seed: u64) -> (r: Rng)
        ensures
            r.state == seed,
    {
        Rng { state: seed }
    }

    /// One 32-bit draw.
    pub fn next_u32(&mut self) -> (r: u32)
        ensures
            final(self).state == next_state(old(self).state),
            r == rand_u32(old(self).state),
    {
        proof {
            assert((self.state as nat) * 6364136223846793005 + 1442695040888963407
                < 0x1_0000_0000_0000_0000_0000_0000_0000_0000) by (nonlinear_arith)
                requires
                    (self.state as nat) < 0x1_0000_0000_0000_0000,
            ;
        }
        let wide: u128 = (self.state as u128) * (LCG_MUL as u128) + (LCG_INC as u128);
        let s2: u64 = (wide % 0x1_0000_0000_0000_0000) as u64;
        self.state = s2;
        (s2 / 0x1_0000_0000) as u32
    }

    /// A draw uniform below `n`.
    pub fn next_below(&mut self, n: u32) -> (r: u32)
        requires
            n > 0,
        ensures
            final(self).state == next_state(old(self).state),
            r == rand_below(old(self).state, n),
            r < n,
    {
        let v = self.next_u32();
        v % n
    }

    /// A fixed-point draw in `[min, max)`.
    pub fn next_fx(&mut self, min: i64, max: i64) -> (r: i64)
        requires
            min < max,
            max - min <= 0xffff_ffff,
        ensures
            final(self).state == next_state(old(self).state),
            r as int == rand_fx(old(self).state, min as int, max as int),
            min <= r < max,
    {
        let span: u32 = (max - min) as u32;
        let off = self.next_below(span);
        min + off as i64
    }
}

} // verus!
