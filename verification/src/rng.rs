//! Tiny LCG for the random-timer feature.
//! Not cryptographic: just enough variation to make the jiggle interval
//! unpredictable. The caller seeds it with the system tick count.
use vstd::prelude::*;

verus! {

pub const LCG_MULTIPLIER: u64 = 6364136223846793005;
pub const LCG_INCREMENT: u64 = 1442695040888963407;

/// One step of the 64-bit linear congruential generator (Numerical Recipes):
/// `state * 6364136223846793005 + 1442695040888963407` modulo 2^64.
pub open spec fn lcg_next(state: u64) -> u64 {
    ((state as nat * LCG_MULTIPLIER as nat + LCG_INCREMENT as nat) % 0x1_0000_0000_0000_0000nat) as u64
}

/// The value `range_inclusive(lo, hi)` draws from the generator state
/// `next` (the state after stepping): its upper 32 bits, reduced modulo
/// the width of the range, offset by `lo`.
pub open spec fn draw(next: u64, lo: u32, hi: u32) -> int {
    lo + ((next >> 32u64) as int) % (hi - lo + 1)
}

/// The generator's first steps from the smallest seeds: from 0 it moves to
/// the increment, from 1 to the sum of multiplier and increment.
pub proof fn lemma_lcg_first_steps()
    ensures
        lcg_next(0) == 1442695040888963407u64,
        lcg_next(1) == 7806831264735756412u64,
{
}

/// Every draw lies in the range asked for.
pub proof fn lemma_draw_in_range(next: u64, lo: u32, hi: u32)
    requires
        lo <= hi,
    ensures
        lo <= draw(next, lo, hi) <= hi,
{
}

#[derive(Copy, Clone)]
pub struct Rng {
    state: u64,
}

impl View for Rng {
    /// The generator's internal state.
    type V = u64;

    closed spec fn view(&self) -> u64 {
        self.state
    }
}

impl Rng {
    /// A generator seeded from `tick_count` (the system tick count at
    /// start-up); a zero seed is replaced by 1.
    pub fn new(tick_count: u64) -> (r: Rng)
        ensures
            r@ == if tick_count == 0 { 1u64 } else { tick_count },
    {
        Rng { state: if tick_count > 1 { tick_count } else { 1 } }
    }

    /// Numerical Recipes 64-bit LCG.
    fn next_u64(&mut self) -> (r: u64)
        ensures
            final(self)@ == lcg_next(old(self)@),
            r == final(self)@,
    {
        self.state = self.state.wrapping_mul(LCG_MULTIPLIER).wrapping_add(LCG_INCREMENT);
        proof {
            vstd::arithmetic::div_mod::lemma_add_mod_noop(
                (old(self)@ as nat * LCG_MULTIPLIER as nat) as int,
                LCG_INCREMENT as int,
                0x1_0000_0000_0000_0000int,
            );
            vstd::arithmetic::div_mod::lemma_mod_twice(
                LCG_INCREMENT as int,
                0x1_0000_0000_0000_0000int,
            );
        }
        self.state
    }

    /// Uniform integer in [lo, hi] inclusive.
    pub fn range_inclusive(&mut self, lo: u32, hi: u32) -> (r: u32)
        requires
            lo <= hi,
        ensures
            final(self)@ == lcg_next(old(self)@),
            r == draw(final(self)@, lo, hi),
            lo <= r <= hi,
    {
        let span = (hi - lo) as u64 + 1;
        let r = (self.next_u64() >> 32) % span;
        lo + r as u32
    }
}

} // verus!
