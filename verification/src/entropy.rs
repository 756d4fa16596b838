//! Entropy source: unpredictable 64-bit seed values.
//!
//! A seed word is harvested by feeding a high-resolution timestamp through
//! std's randomly keyed hashing construction and reading the digest.  The
//! value is unpredictable to an observer who does not control the host's
//! randomization source or clock; nothing more is promised of it, and no two
//! calls are related.  The construction is slow, so callers draw from it
//! rarely (once per generator, not once per hasher).

use core::hash::{BuildHasher, Hash, Hasher};
use std::collections::hash_map::{DefaultHasher, RandomState};
use std::time::Instant;
use vstd::prelude::*;

verus! {

/// A monotonic, high-resolution timestamp.  Only its entropy is used: the
/// value is hashed and never read as a time.
#[verifier::external_type_specification]
#[verifier::external_body]
pub struct ExInstant(Instant);

/// Relies on std's `Instant::now`: the current instant.  Which instant comes
/// back depends on the clock, so nothing is promised of the value.
pub assume_specification[ Instant::now ]() -> Instant;

/// Relies on std's `RandomState::new`: a hasher factory keyed with random
/// per-process material.  The keys are unobservable, so nothing is promised
/// of the value.
pub assume_specification[ RandomState::new ]() -> RandomState;

/// Relies on std's `RandomState::build_hasher`: a fresh hasher under the
/// factory's random keys.  Which digests it will produce depends on those
/// keys, so nothing is promised of the value.
pub assume_specification[ <RandomState as BuildHasher>::build_hasher ](
    s: &RandomState,
) -> DefaultHasher;

/// Relies on std's `<Instant as Hash>::hash`: absorbs the timestamp's
/// representation into the hasher.  What it writes is unspecified, so nothing
/// is promised of the hasher's new state.
pub assume_specification<H: Hasher>[ <Instant as Hash>::hash ](t: &Instant, state: &mut H);

/// Harvests one unpredictable 64-bit seed word: hashes the current timestamp
/// under random per-process keys and returns the digest.  Infallible, slow,
/// and deliberately unspecified beyond its type: no two calls are related.
pub fn generate_seed() -> u64 {
    let state = RandomState::new();
    let mut hasher = state.build_hasher();
    let t = Instant::now();
    t.hash(&mut hasher);
    hasher.finish()
}

} // verus!
