//! The streaming hasher: a 64-bit accumulator and a 128-bit odd
//! multiplier-and-offset value, absorbing input one 64-bit word at a time.

use crate::rng::Rng;
use vstd::prelude::*;

verus! {

/// Multiplier of the first mixing step.
pub const MIX_MULTIPLIER_1: u64 = 0x9E6C_63D0_676A_9A99;

/// Multiplier of the second mixing step.
pub const MIX_MULTIPLIER_2: u64 = 0x9E6D_62D0_6F6A_9A9B;

/// Odd multiplier that advances the 128-bit lane after every absorbed word.
pub const LANE_MULTIPLIER: u128 = 0xDA94_2042_E4DD_58B5;

/// The streaming hasher state: accumulator `k` and odd 128-bit value `m`.
///
/// `m` packs two seed-derived 64-bit halves with its least-significant bit
/// forced to 1; oddness keeps the multiplicative lane a bijection modulo
/// powers of two and is preserved by every absorb.  Copying a hasher is the
/// intended way to hash many keys under one seed: copies are fully
/// independent afterward.
#[derive(Debug, Clone, Copy)]
pub struct SHash {
    pub k: u64,
    pub m: u128,
}

/// `x` rotated right by `n` bits, for `0 < n < 64`.
pub open spec fn rotr(x: u64, n: u64) -> u64
    recommends
        0 < n < 64,
{
    (x >> n) | (x << ((64 - n) as u64))
}

/// The new accumulator after absorbing the word `i` into state `(k, m)`:
/// the upper lane half is added in, the sum is stirred by xor-rotates, then
/// twice multiplied and xor-shifted, folding the old accumulator in between.
/// Opaque: proofs that chain absorptions never need the mixing formula.
#[verifier::opaque]
pub open spec fn mixed(k: u64, m: u128, i: u64) -> u64 {
    let z1 = i.wrapping_add((m >> 64) as u64);
    let z2 = z1 ^ (rotr(z1, 25) ^ rotr(z1, 47));
    let z3 = z2.wrapping_mul(MIX_MULTIPLIER_1).wrapping_add(k);
    let z4 = z3 ^ ((z3 >> 23) ^ (z3 >> 51));
    let z5 = z4.wrapping_mul(MIX_MULTIPLIER_2);
    z5 ^ ((z5 >> 23) ^ (z5 >> 51))
}

/// The state a deterministic construction from the seed triple
/// `(k0, m0, m1)` yields: accumulator `k0`, and the two halves packed into
/// `m` with the low bit forced to 1.
pub open spec fn seeded_state(k0: u64, m0: u64, m1: u64) -> SHash {
    SHash { k: k0, m: (m0 as u128) | ((m1 as u128) << 64) | 1 }
}

/// The state after absorbing one 64-bit word: the accumulator is remixed
/// with the word, and the 128-bit lane advances by its fixed odd multiplier,
/// independently of the absorbed data.
pub open spec fn absorbed(h: SHash, i: u64) -> SHash {
    SHash { k: mixed(h.k, h.m, i), m: h.m.wrapping_mul(LANE_MULTIPLIER) }
}

/// The state after absorbing the words of `ws` in order.
pub open spec fn absorbed_words(h: SHash, ws: Seq<u64>) -> SHash
    decreases ws.len(),
{
    if ws.len() == 0 {
        h
    } else {
        absorbed_words(absorbed(h, ws[0]), ws.drop_first())
    }
}

/// Byte `j` of the input, or the `0xFF` padding sentinel past its end.
pub open spec fn padded_byte(bytes: Seq<u8>, j: int) -> u8 {
    if j < bytes.len() {
        bytes[j]
    } else {
        0xFF
    }
}

/// The 64-bit word absorbed for the 8-byte window starting at `off`,
/// decoded little-endian; a trailing partial window is padded on the high
/// end with `0xFF` bytes, which disambiguates lengths that zero padding
/// would make collide.
pub open spec fn word_at(bytes: Seq<u8>, off: int) -> u64 {
    (padded_byte(bytes, off) as u64) | ((padded_byte(bytes, off + 1) as u64) << 8) | ((padded_byte(
        bytes,
        off + 2,
    ) as u64) << 16) | ((padded_byte(bytes, off + 3) as u64) << 24) | ((padded_byte(
        bytes,
        off + 4,
    ) as u64) << 32) | ((padded_byte(bytes, off + 5) as u64) << 40) | ((padded_byte(
        bytes,
        off + 6,
    ) as u64) << 48) | ((padded_byte(bytes, off + 7) as u64) << 56)
}

/// The words the generic byte path absorbs: one per 8-byte window, with a
/// final partial window padded.  An empty input yields no words.
pub open spec fn words_of(bytes: Seq<u8>) -> Seq<u64> {
    Seq::new(((bytes.len() + 7) / 8) as nat, |wi: int| word_at(bytes, 8 * wi))
}

/// Absorbing the words of `ws` and then one more word `x` is absorbing
/// `ws.push(x)`.
#[verifier::rlimit(50)]
pub proof fn lemma_absorbed_words_push(h: SHash, ws: Seq<u64>, x: u64)
    ensures
        absorbed_words(h, ws.push(x)) == absorbed(absorbed_words(h, ws), x),
    decreases ws.len(),
{
    if ws.len() == 0 {
        assert(ws.push(x).drop_first() =~= Seq::<u64>::empty());
        assert(absorbed_words(h, ws.push(x)) == absorbed_words(
            absorbed(h, x),
            Seq::<u64>::empty(),
        ));
        assert(absorbed_words(absorbed(h, x), Seq::<u64>::empty()) == absorbed(h, x));
        assert(absorbed_words(h, ws) == h);
    } else {
        assert(ws.push(x)[0] == ws[0]);
        assert(ws.push(x).drop_first() =~= ws.drop_first().push(x));
        assert(absorbed_words(h, ws.push(x)) == absorbed_words(
            absorbed(h, ws[0]),
            ws.drop_first().push(x),
        ));
        lemma_absorbed_words_push(absorbed(h, ws[0]), ws.drop_first(), x);
        assert(absorbed_words(h, ws) == absorbed_words(absorbed(h, ws[0]), ws.drop_first()));
    }
}

/// Absorbing one word keeps the low bit of the 128-bit lane set: the lane
/// only ever gets multiplied by a fixed odd constant, and a product of odd
/// numbers is odd modulo any power of two.
pub proof fn lemma_absorb_keeps_lane_odd(h: SHash, i: u64)
    requires
        h.wf(),
    ensures
        absorbed(h, i).wf(),
{
    let m = h.m;
    let p = m.wrapping_mul(LANE_MULTIPLIER);
    assert(m % 2 == 1) by (bit_vector)
        requires
            m & 1 == 1,
    ;
    vstd::arithmetic::div_mod::lemma_mul_mod_noop_general(m as int, LANE_MULTIPLIER as int, 2);
    vstd::arithmetic::div_mod::lemma_mod_mod(
        m as int * LANE_MULTIPLIER as int,
        2,
        0x8000_0000_0000_0000_0000_0000_0000_0000,
    );
    assert(p % 2 == 1);
    assert(p & 1 == 1) by (bit_vector)
        requires
            p % 2 == 1,
    ;
}

/// Absorbing any word sequence keeps the oddness invariant.
pub proof fn lemma_absorb_words_keeps_lane_odd(h: SHash, ws: Seq<u64>)
    requires
        h.wf(),
    ensures
        absorbed_words(h, ws).wf(),
    decreases ws.len(),
{
    if ws.len() != 0 {
        lemma_absorb_keeps_lane_odd(h, ws[0]);
        lemma_absorb_words_keeps_lane_odd(absorbed(h, ws[0]), ws.drop_first());
    }
}

/// The seed triple packs `m` with the low bit forced to 1, so a freshly
/// constructed hasher satisfies the oddness invariant whatever the seeds.
pub proof fn lemma_seeded_state_odd(k0: u64, m0: u64, m1: u64)
    ensures
        seeded_state(k0, m0, m1).wf(),
{
    let packed: u128 = (m0 as u128) | ((m1 as u128) << 64) | 1;
    assert(packed & 1 == 1) by (bit_vector)
        requires
            packed == (m0 as u128) | ((m1 as u128) << 64) | 1,
    ;
}

/// Determinism: two hashers constructed from the same seed triple and fed
/// the same byte sequence reach the same state and so the same digest.
pub proof fn lemma_deterministic_digest(k0: u64, m0: u64, m1: u64, bytes: Seq<u8>)
    ensures
        ({
            let a = absorbed_words(seeded_state(k0, m0, m1), words_of(bytes));
            let b = absorbed_words(seeded_state(k0, m0, m1), words_of(bytes));
            a == b && a.k == b.k
        }),
{
}

impl SHash {
    /// The oddness invariant: the low bit of `m` is 1.  Established at
    /// construction and preserved by every absorb.
    pub open spec fn wf(self) -> bool {
        self.m & 1 == 1
    }

    /// Construction from fresh entropy: draws a seed triple from a newly
    /// entropy-seeded generator.  The triple is unpredictable, but the
    /// result is a well-formed seeded hasher state whatever it was.
    pub fn new() -> (r: Self)
        ensures
            r.wf(),
            exists|k0: u64, m0: u64, m1: u64| r == seeded_state(k0, m0, m1),
    {
        let mut rng = Rng::new();
        let k0 = rng.gen_64();
        let m0 = rng.gen_64();
        let m1 = rng.gen_64();
        let r = SHash::from_seed(k0, m0, m1);
        proof {
            assert(r == seeded_state(k0, m0, m1));
        }
        r
    }

    /// Deterministic construction from an explicit seed triple, for
    /// reproducible tests or cross-process agreement.
    pub fn from_seed(k: u64, m: u64, m2: u64) -> (r: Self)
        ensures
            r == seeded_state(k, m, m2),
            r.wf(),
    {
        proof {
            lemma_seeded_state_odd(k, m, m2);
        }
        SHash { k, m: (m as u128) | ((m2 as u128) << 64) | 1 }
    }

    /// Hands out the live hasher for one key: an exact copy of this
    /// strategy instance, so every key within one container is hashed under
    /// the same seed.
    pub fn build_hasher(&self) -> (r: Self)
        ensures
            r == *self,
    {
        *self
    }

    /// Absorbs a byte sequence via the generic byte path: consecutive
    /// 8-byte windows are decoded little-endian and absorbed as 64-bit
    /// words, and a final partial window of 1 to 7 bytes is padded on the
    /// high end with `0xFF` bytes.  An empty input absorbs nothing.
    pub fn write(&mut self, bytes: &[u8])
        ensures
            *final(self) == absorbed_words(*old(self), words_of(bytes@)),
            old(self).wf() ==> final(self).wf(),
    {
        let ghost ws: Seq<u64> = words_of(bytes@);
        let n: usize = bytes.len();
        let mut off: usize = 0;
        let ghost mut wi: int = 0;
        while n - off >= 8
            invariant
                n == bytes@.len(),
                off <= n,
                off == 8 * wi,
                ws == words_of(bytes@),
                *self == absorbed_words(*old(self), ws.take(wi)),
            decreases n - off,
        {
            let w: u64 = (bytes[off] as u64) | ((bytes[off + 1] as u64) << 8) | ((bytes[off
                + 2] as u64) << 16) | ((bytes[off + 3] as u64) << 24) | ((bytes[off
                + 4] as u64) << 32) | ((bytes[off + 5] as u64) << 40) | ((bytes[off
                + 6] as u64) << 48) | ((bytes[off + 7] as u64) << 56);
            proof {
                assert(w == word_at(bytes@, off as int));
                vstd::arithmetic::div_mod::lemma_div_multiples_vanish(wi + 1, 8);
                vstd::arithmetic::div_mod::lemma_div_is_ordered(8 * (wi + 1), n as int + 7, 8);
                assert(wi + 1 <= ws.len());
            }
            self.write_u64(w);
            proof {
                lemma_absorbed_words_push(*old(self), ws.take(wi), ws[wi]);
                assert(ws.take(wi + 1) =~= ws.take(wi).push(ws[wi]));
                wi = wi + 1;
            }
            off = off + 8;
        }
        let rem: usize = n - off;
        if rem > 0 {
            let b0: u8 = bytes[off];
            let b1: u8 = if rem > 1 {
                bytes[off + 1]
            } else {
                0xFF
            };
            let b2: u8 = if rem > 2 {
                bytes[off + 2]
            } else {
                0xFF
            };
            let b3: u8 = if rem > 3 {
                bytes[off + 3]
            } else {
                0xFF
            };
            let b4: u8 = if rem > 4 {
                bytes[off + 4]
            } else {
                0xFF
            };
            let b5: u8 = if rem > 5 {
                bytes[off + 5]
            } else {
                0xFF
            };
            let b6: u8 = if rem > 6 {
                bytes[off + 6]
            } else {
                0xFF
            };
            let w: u64 = (b0 as u64) | ((b1 as u64) << 8) | ((b2 as u64) << 16) | ((b3 as u64)
                << 24) | ((b4 as u64) << 32) | ((b5 as u64) << 40) | ((b6 as u64) << 48) | (
            0xFFu64 << 56);
            proof {
                assert(w == word_at(bytes@, off as int));
                vstd::arithmetic::div_mod::lemma_fundamental_div_mod_converse(
                    n as int + 7,
                    8,
                    wi + 1,
                    rem as int - 1,
                );
                assert(ws.len() == wi + 1);
            }
            self.write_u64(w);
            proof {
                lemma_absorbed_words_push(*old(self), ws.take(wi), ws[wi]);
                assert(ws.take(wi + 1) =~= ws.take(wi).push(ws[wi]));
                assert(ws.take(wi + 1) =~= ws);
            }
        } else {
            proof {
                vstd::arithmetic::div_mod::lemma_fundamental_div_mod_converse(
                    n as int + 7,
                    8,
                    wi,
                    7,
                );
                assert(ws.take(wi) =~= ws);
            }
        }
        proof {
            if old(self).wf() {
                lemma_absorb_words_keeps_lane_odd(*old(self), ws);
            }
        }
    }

    /// Absorbs one 64-bit word: the core mixing step.
    pub fn write_u64(&mut self, i: u64)
        ensures
            *final(self) == absorbed(*old(self), i),
            old(self).wf() ==> final(self).wf(),
    {
        let mut z: u64 = i.wrapping_add((self.m >> 64) as u64);
        z = z ^ (((z >> 25) | (z << 39)) ^ ((z >> 47) | (z << 17)));
        z = z.wrapping_mul(MIX_MULTIPLIER_1).wrapping_add(self.k);
        z = z ^ ((z >> 23) ^ (z >> 51));
        z = z.wrapping_mul(MIX_MULTIPLIER_2);
        z = z ^ ((z >> 23) ^ (z >> 51));
        self.k = z;
        self.m = self.m.wrapping_mul(LANE_MULTIPLIER);
        proof {
            reveal(mixed);
            if old(self).wf() {
                lemma_absorb_keeps_lane_odd(*old(self), i);
            }
        }
    }

    /// Absorbs one byte, widened to 64 bits value-preservingly.
    pub fn write_u8(&mut self, i: u8)
        ensures
            *final(self) == absorbed(*old(self), i as u64),
            old(self).wf() ==> final(self).wf(),
    {
        self.write_u64(i as u64)
    }

    /// Absorbs one 16-bit word, widened to 64 bits value-preservingly.
    pub fn write_u16(&mut self, i: u16)
        ensures
            *final(self) == absorbed(*old(self), i as u64),
            old(self).wf() ==> final(self).wf(),
    {
        self.write_u64(i as u64)
    }

    /// Absorbs one 32-bit word, widened to 64 bits value-preservingly.
    pub fn write_u32(&mut self, i: u32)
        ensures
            *final(self) == absorbed(*old(self), i as u64),
            old(self).wf() ==> final(self).wf(),
    {
        self.write_u64(i as u64)
    }

    /// Absorbs one pointer-width word, widened to 64 bits
    /// value-preservingly.
    pub fn write_usize(&mut self, i: usize)
        ensures
            *final(self) == absorbed(*old(self), i as u64),
            old(self).wf() ==> final(self).wf(),
    {
        self.write_u64(i as u64)
    }

    /// Absorbs one 128-bit word as two successive 64-bit absorptions, the
    /// low half first, then the high half.
    pub fn write_u128(&mut self, i: u128)
        ensures
            *final(self) == absorbed(absorbed(*old(self), i as u64), (i >> 64) as u64),
            old(self).wf() ==> final(self).wf(),
    {
        self.write_u64(i as u64);
        self.write_u64((i >> 64) as u64);
    }

    /// Reads the 64-bit digest: the current accumulator.  Mutates nothing,
    /// so repeated calls without an intervening absorb return the same
    /// value.
    pub fn finish(&self) -> (r: u64)
        ensures
            r == self.k,
    {
        self.k
    }
}

impl Default for SHash {
    /// A fresh, entropy-seeded hashing strategy.
    fn default() -> (r: Self)
        ensures
            r.wf(),
    {
        SHash::new()
    }
}

} // verus!
