use vstd::prelude::*;

use vstd::arithmetic::div_mod::{lemma_add_mod_noop, lemma_small_mod};

verus! {

/// Multiplier of the linear congruential generator.
pub const LCG_MULTIPLIER: u64 = 6364136223846793005;

/// Increment of the linear congruential generator.
pub const LCG_INCREMENT: u64 = 1442695040888963407;

/// The low bits of a state are discarded before a draw: they cycle quickly.
pub const LOW_BITS_DIVISOR: u64 = 8589934592;

/// The state that follows `s`: `s * a + c` modulo 2^64.
pub open spec fn next_state(s: u64) -> u64 {
    ((s as nat * LCG_MULTIPLIER as nat + LCG_INCREMENT as nat) % 0x1_0000_0000_0000_0000) as u64
}

/// The number in `[0, bound)` that state `s` yields.
#[verifier::opaque]
pub open spec fn draw(s: u64, bound: u32) -> u32 {
    ((s / LOW_BITS_DIVISOR) % (bound as u64)) as u32
}

/// A small deterministic random source. Two sources with the same state
/// yield the same numbers.
#[derive(Clone, Copy, Debug, PartialEq, Eq, Structural)]
pub struct Rng {
    pub state: u64,
}

impl Rng {
    pub fn seeded(seed: u64) -> (r: Rng)
        ensures
            r.state == seed,
    {
        Rng { state: seed }
    }

    /// Advances the state and draws a number below `bound` from the new one.
    pub fn next_below(&mut self, bound: u32) -> (r: u32)
        requires
            bound > 0,
        ensures
            final(self).state == next_state(old(self).state),
            r == draw(final(self).state, bound),
            r < bound,
    {
        let m = self.state.wrapping_mul(LCG_MULTIPLIER);
        let n = m.wrapping_add(LCG_INCREMENT);
        proof {
            let s = old(self).state as nat;
            let modulus: nat = 0x1_0000_0000_0000_0000;
            assert(m as nat == (s * LCG_MULTIPLIER as nat) % modulus);
            lemma_add_mod_noop(
                (s * LCG_MULTIPLIER as nat) as int,
                LCG_INCREMENT as int,
                modulus as int,
            );
            lemma_small_mod(LCG_INCREMENT as nat, modulus);
            if m as nat + LCG_INCREMENT as nat >= modulus {
                assert(n as nat == (m as nat + LCG_INCREMENT as nat) % modulus) by {
                    vstd::arithmetic::div_mod::lemma_mod_self_0(modulus as int);
                    vstd::arithmetic::div_mod::lemma_mod_sub_multiples_vanish(
                        (m as nat + LCG_INCREMENT as nat) as int, modulus as int);
                    lemma_small_mod((m as nat + LCG_INCREMENT as nat - modulus) as nat, modulus);
                }
            } else {
                lemma_small_mod((m as nat + LCG_INCREMENT as nat) as nat, modulus);
            }
        }
        self.state = n;
        proof {
            reveal(draw);
        }
        ((n / LOW_BITS_DIVISOR) % (bound as u64)) as u32
    }
}

} // verus!
