//! Generator of known-good seed inputs for a consensus-layer fuzzing corpus.
//!
//! For each of six state-mutating operations (voluntary exit, block header,
//! attester slashing, deposit, block with randao reveal, transfer) the library
//! preconditions a beacon state so the operation is eligible, builds the
//! operation with its domain-separated signature, checks it against the
//! acceptance rules, and serializes it to a canonical byte form plus a
//! lowercase-hex rendering.

pub mod builders;
pub mod bytes;
pub mod codec;
pub mod config;
pub mod gate;
pub mod generate;
pub mod hexfmt;
pub mod laws;
pub mod ops;
pub mod sign;
pub mod state;

use vstd::prelude::*;

verus! {

/// Number of validators in the standard minimal fixture.
pub const NUM_VALIDATORS: u64 = 8;

/// Epoch baked into the standard minimal fixture state.
pub const STATE_EPOCH: u64 = 4;

} // verus!
