use shash::SHash;
use std::collections::HashMap;
use std::hash::{BuildHasher, Hasher};

/// A hashing strategy for std's associative containers, holding one seeded
/// hasher state that is copied for every key.
struct Strategy(SHash);

/// A live hasher for one key.
struct LiveHasher(SHash);

impl BuildHasher for Strategy {
    type Hasher = LiveHasher;
    fn build_hasher(&self) -> LiveHasher {
        LiveHasher(self.0.build_hasher())
    }
}

impl Hasher for LiveHasher {
    fn finish(&self) -> u64 {
        self.0.finish()
    }
    fn write(&mut self, bytes: &[u8]) {
        self.0.write(bytes)
    }
    fn write_u8(&mut self, i: u8) {
        self.0.write_u8(i)
    }
    fn write_u16(&mut self, i: u16) {
        self.0.write_u16(i)
    }
    fn write_u32(&mut self, i: u32) {
        self.0.write_u32(i)
    }
    fn write_u64(&mut self, i: u64) {
        self.0.write_u64(i)
    }
    fn write_u128(&mut self, i: u128) {
        self.0.write_u128(i)
    }
    fn write_usize(&mut self, i: usize) {
        self.0.write_usize(i)
    }
}

fn digest_of(seed: (u64, u64, u64), bytes: &[u8]) -> u64 {
    let mut h = SHash::from_seed(seed.0, seed.1, seed.2);
    h.write(bytes);
    h.finish()
}

#[test]
fn simple_hashmap_test() {
    let mut map: HashMap<String, String, Strategy> =
        HashMap::with_hasher(Strategy(SHash::new()));
    map.insert(
        "Adventures of Huckleberry Finn".to_string(),
        "My favorite book.".to_string(),
    );
    assert_eq!(
        map.get("Adventures of Huckleberry Finn"),
        Some(&"My favorite book.".to_string())
    );
}

#[test]
fn pinned_abc_digest() {
    assert_eq!(digest_of((1, 2, 3), b"abc"), 0xF010_B293_4EF3_3274);
}

#[test]
fn pinned_word_digest() {
    let mut h = SHash::from_seed(1, 2, 3);
    h.write_u64(42);
    assert_eq!(h.finish(), 0x2215_9618_9E4E_1654);
}

#[test]
fn determinism_same_seed_and_input() {
    let input = b"The quick brown fox jumps over the lazy dog";
    assert_eq!(
        digest_of((0xDEAD, 77, 123), input),
        digest_of((0xDEAD, 77, 123), input)
    );
}

#[test]
fn seed_sensitivity() {
    // A multi-word input: the low lane half `m0` can only influence the
    // digest from the second absorbed word on, and its forced low bit never
    // does, so the sample avoids both blind spots.
    let input = b"The quick brown fox jumps over the lazy dog";
    let base = digest_of((1, 2, 3), input);
    assert_ne!(digest_of((2, 2, 3), input), base);
    assert_ne!(digest_of((1, 4, 3), input), base);
    assert_ne!(digest_of((1, 2, 4), input), base);
}

#[test]
fn byte_length_distinction() {
    assert_ne!(digest_of((7, 8, 9), &[0x41]), digest_of((7, 8, 9), &[0x41, 0x00]));
}

#[test]
fn high_byte_padding_policy() {
    let mut h = SHash::from_seed(7, 8, 9);
    h.write_u64(0xFFFF_FFFF_FFFF_FF41);
    assert_eq!(digest_of((7, 8, 9), &[0x41]), h.finish());
}

#[test]
fn u128_low_word_first() {
    let mut a = SHash::from_seed(4, 5, 6);
    a.write_u128((0x1u128 << 64) | 0x2);
    let mut b = SHash::from_seed(4, 5, 6);
    b.write_u64(0x2);
    b.write_u64(0x1);
    assert_eq!(a.finish(), b.finish());
}

#[test]
fn finish_idempotent() {
    let mut h = SHash::from_seed(9, 9, 9);
    h.write_u64(1);
    let first = h.finish();
    let second = h.finish();
    assert_eq!(first, second);
}

#[test]
fn empty_input_absorbs_nothing() {
    let mut h = SHash::from_seed(5, 6, 7);
    h.write_u64(11);
    let before = h.finish();
    h.write(&[]);
    assert_eq!(h.finish(), before);
}

#[test]
fn full_chunks_match_words() {
    let bytes: Vec<u8> = (1u8..=16).collect();
    let mut h = SHash::from_seed(10, 20, 30);
    h.write(&bytes);
    let mut w = SHash::from_seed(10, 20, 30);
    w.write_u64(0x0807_0605_0403_0201);
    w.write_u64(0x100F_0E0D_0C0B_0A09);
    assert_eq!(h.finish(), w.finish());
}

#[test]
fn widened_writes_match_u64() {
    let mut a = SHash::from_seed(3, 1, 4);
    a.write_u8(0x41);
    a.write_u16(0x4241);
    a.write_u32(0x4443_4241);
    a.write_usize(97);
    let mut b = SHash::from_seed(3, 1, 4);
    b.write_u64(0x41);
    b.write_u64(0x4241);
    b.write_u64(0x4443_4241);
    b.write_u64(97);
    assert_eq!(a.finish(), b.finish());
}

#[test]
fn copies_share_the_seed() {
    let strategy = SHash::new();
    let mut a = strategy.build_hasher();
    let mut b = strategy.build_hasher();
    a.write(b"same key");
    b.write(b"same key");
    assert_eq!(a.finish(), b.finish());
}

#[test]
fn copies_are_independent() {
    let strategy = SHash::from_seed(1, 2, 3);
    let mut a = strategy.build_hasher();
    let b = strategy.build_hasher();
    a.write_u64(77);
    assert_ne!(a.finish(), b.finish());
    assert_eq!(b.finish(), strategy.finish());
}

#[test]
fn default_strategy_is_usable() {
    let strategy = SHash::default();
    let mut a = strategy.build_hasher();
    let mut b = strategy.build_hasher();
    a.write(b"key");
    b.write(b"key");
    assert_eq!(a.finish(), b.finish());
}

#[test]
fn containers_consistent_lookups() {
    let mut first: HashMap<String, u32, Strategy> =
        HashMap::with_hasher(Strategy(SHash::new()));
    let mut second: HashMap<String, u32, Strategy> =
        HashMap::with_hasher(Strategy(SHash::new()));
    first.insert("shared key".to_string(), 1);
    second.insert("shared key".to_string(), 2);
    assert_eq!(first.get("shared key"), Some(&1));
    assert_eq!(first.get("shared key"), Some(&1));
    assert_eq!(second.get("shared key"), Some(&2));
    assert_eq!(second.get("shared key"), Some(&2));
}
