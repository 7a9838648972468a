//! A deterministic state-transition library over a single persisted counter.
//!
//! The library authenticates a caller's right to mutate a stored value,
//! decodes a binary instruction, applies a bounded (saturating) update, and
//! re-encodes the result in place. Every step is specified and verified.

use vstd::prelude::*;

pub mod codec;
pub mod engine;
pub mod instruction;

verus! {

/// The persisted entity: a single unsigned 32-bit counter value.
#[derive(Clone, Copy, Debug, PartialEq, Eq, Structural)]
pub struct Counter {
    pub count: u32,
}

/// The two ways an invocation can be rejected. Every failure leaves the
/// account buffer byte-for-byte unchanged.
#[derive(Clone, Copy, Debug, PartialEq, Eq, Structural)]
pub enum CounterError {
    /// The account's controller identity is not the expected controller.
    AuthorizationError,
    /// Malformed or truncated bytes: an instruction with an unknown tag or
    /// too few bytes, a state buffer too short to decode, or a destination
    /// too small to encode into.
    DecodeError,
}

} // verus!
