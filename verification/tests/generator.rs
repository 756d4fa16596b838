use shash::rng::Rng;
use shash::SHash;

#[test]
fn pinned_generator_draws() {
    let mut r = Rng::from_seed(1, 2);
    assert_eq!(r.gen_64(), 0xC53E_4003_A5DD_9919);
    assert_eq!(r.gen_64(), 0x42AF_14DB_16CD_8093);
    assert_eq!(r.gen_64(), 0x1838_32D7_1E6B_D9E8);
}

#[test]
fn generator_deterministic() {
    let mut a = Rng::from_seed(0xABCD, 0x1234);
    let mut b = Rng::from_seed(0xABCD, 0x1234);
    for _ in 0..10 {
        assert_eq!(a.gen_64(), b.gen_64());
    }
}

#[test]
fn generator_seed_matters() {
    let mut a = Rng::from_seed(1, 2);
    let mut b = Rng::from_seed(1, 3);
    assert_ne!(a.gen_64(), b.gen_64());
}

#[test]
fn entropy_seeded_generator_runs() {
    // Nothing is promised of the values drawn from fresh entropy; this only
    // exercises the entropy-seeded construction end to end.
    let mut r = Rng::new();
    let _ = r.gen_64();
    let _ = r.gen_64();
}

#[test]
fn fresh_strategies_hash_reproducibly() {
    let s = SHash::new();
    let mut a = s.build_hasher();
    let mut b = s.build_hasher();
    a.write_u64(5);
    b.write_u64(5);
    assert_eq!(a.finish(), b.finish());
}
