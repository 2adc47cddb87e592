//! Identifiers for expenses, presets, templates and their copies.
//!
//! Every entity carries a 128-bit identifier minted at construction time.
//! The value itself comes from a random UUID, so nothing can be promised
//! about it; all reasoning in the library is by comparison of identifiers,
//! never by their contents.

use vstd::prelude::*;

verus! {

/// Relies on `uuid::Uuid::new_v4` and `Uuid::as_u128`: draws a fresh random
/// version-4 UUID and returns its 128-bit value. The result is random, so
/// nothing is promised of it.
#[verifier::external_body]
pub fn fresh_id() -> u128 {
    uuid::Uuid::new_v4().as_u128()
}

} // verus!
