//! A seeded, non-cryptographic streaming hasher together with the
//! multiply-with-carry generator and entropy source that seed it.

pub mod entropy;
pub mod hasher;
pub mod rng;

pub use hasher::SHash;
