//! Fixed-size intent envelopes, their governance gates, and the buffers that
//! carry them between producers and consumers.
//!
//! Single-precision values are held as their IEEE-754 binary32 bit patterns
//! (`u32`); see [`binary32`] for the comparisons that the gates make on them.
use vstd::prelude::*;

pub mod archetype;
pub mod binary32;
pub mod builder;
pub mod clock;
pub mod envelope;
pub mod governance;
pub mod identity;
pub mod layout;
pub mod ledger;
pub mod pool;
pub mod ring;
pub mod wire;

verus! {

/// Number of single-precision lanes in an intent vector.
pub const INTENT_DIMENSIONS: usize = 1024;

/// Number of bytes in an entropy seed.
pub const ENTROPY_SEED_BYTES: usize = 32;

} // verus!
