//! A multiply-with-carry pseudo-random generator over four 64-bit words.
//!
//! The generator exists to mint unpredictable 64-bit seed values for hasher
//! construction.  Given the same seed pair it produces the same infinite
//! output sequence; its statistical quality is accepted as given by the
//! published multiply-with-carry construction and is not restated here.

use crate::entropy::generate_seed;
use vstd::prelude::*;

verus! {

/// Multiplier of the multiply-with-carry step.
pub const MWC_MULTIPLIER: u64 = 0xFEB3_4465_7C0A_F413;

/// Fixed third state word of a freshly seeded generator.
pub const MWC_X3_INIT: u64 = 0xCAFE_F00D_D15E_A5E5;

/// Fixed initial carry word of a freshly seeded generator.
pub const MWC_CARRY_INIT: u64 = 0x1405_7B7E_F767_814F;

/// State of the generator: four 64-bit words, mutated in place on every draw.
///
/// `x1` and `x2` start out seed-derived; `x3` and `c` start from fixed odd
/// constants.  A freshly seeded state is advanced six draws before any output
/// is consumed, to dissipate poor seed quality.
#[derive(Debug, Clone, Copy)]
pub struct Rng {
    pub x1: u64,
    pub x2: u64,
    pub x3: u64,
    pub c: u64,
}

/// The freshly seeded, not yet warmed-up state for the seed pair `(s0, s1)`.
pub open spec fn seeded(s0: u64, s1: u64) -> Rng {
    Rng { x1: s0, x2: s1, x3: MWC_X3_INIT, c: MWC_CARRY_INIT }
}

/// The full 128-bit product of the third state word and the multiplier.
pub open spec fn mwc_product(x3: u64) -> u128 {
    (x3 as u128).wrapping_mul(MWC_MULTIPLIER as u128)
}

/// Low 64 bits of the multiply-with-carry product.
pub open spec fn product_low(x3: u64) -> u64 {
    mwc_product(x3) as u64
}

/// High 64 bits of the multiply-with-carry product.
pub open spec fn product_high(x3: u64) -> u64 {
    (mwc_product(x3) >> 64) as u64
}

/// The word one draw from state `r` returns.
pub open spec fn draw_value(r: Rng) -> u64 {
    (r.x3 ^ r.x2).wrapping_add(r.x1 ^ product_high(r.x3))
}

/// The carry bit of the draw: whether `product_low(r.x3) + r.c` wraps.
pub open spec fn draw_carry(r: Rng) -> u64 {
    if product_low(r.x3) + r.c > u64::MAX {
        1u64
    } else {
        0u64
    }
}

/// The state after one draw: the words shift down one position, the new
/// first word is the low product word plus the old carry, and the new carry
/// is the high product word plus the carry-out bit of that addition.
pub open spec fn stepped(r: Rng) -> Rng {
    Rng {
        x1: product_low(r.x3).wrapping_add(r.c),
        x2: r.x1,
        x3: r.x2,
        c: product_high(r.x3).wrapping_add(draw_carry(r)),
    }
}

/// The state after `n` draws from `r`.
pub open spec fn stepped_n(r: Rng, n: nat) -> Rng
    decreases n,
{
    if n == 0 {
        r
    } else {
        stepped(stepped_n(r, (n - 1) as nat))
    }
}

impl Rng {
    /// Deterministic construction from a seed pair: seeds the four words and
    /// runs the six warm-up draws before handing the state out.
    pub fn from_seed(s0: u64, s1: u64) -> (r: Rng)
        ensures
            r == stepped_n(seeded(s0, s1), 6),
    {
        let mut r = Rng { x1: s0, x2: s1, x3: MWC_X3_INIT, c: MWC_CARRY_INIT };
        let mut i: usize = 0;
        while i < 6
            invariant
                i <= 6,
                r == stepped_n(seeded(s0, s1), i as nat),
            decreases 6 - i,
        {
            r.gen_64();
            i = i + 1;
        }
        r
    }

    /// Construction from fresh entropy: draws two seed words from the
    /// entropy source.  The seed pair is unpredictable, but the result is a
    /// properly seeded and warmed-up generator state whatever it was.
    pub fn new() -> (r: Rng)
        ensures
            exists|s0: u64, s1: u64| r == stepped_n(seeded(s0, s1), 6),
    {
        let s0 = generate_seed();
        let s1 = generate_seed();
        let r = Rng::from_seed(s0, s1);
        proof {
            assert(r == stepped_n(seeded(s0, s1), 6));
        }
        r
    }

    /// Advances the state one step and returns one pseudo-random word.
    pub fn gen_64(&mut self) -> (r: u64)
        ensures
            r == draw_value(*old(self)),
            *final(self) == stepped(*old(self)),
    {
        let t: u128 = (self.x3 as u128).wrapping_mul(MWC_MULTIPLIER as u128);
        let low: u64 = t as u64;
        let hi: u64 = (t >> 64) as u64;
        let res: u64 = (self.x3 ^ self.x2).wrapping_add(self.x1 ^ hi);
        let x0: u64 = low.wrapping_add(self.c);
        let carry: u64 = if x0 < low {
            1
        } else {
            0
        };
        let nx2: u64 = self.x1;
        let nx3: u64 = self.x2;
        self.x1 = x0;
        self.x2 = nx2;
        self.x3 = nx3;
        self.c = hi.wrapping_add(carry);
        res
    }
}

} // verus!
