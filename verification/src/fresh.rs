//! Fresh identifiers, drawn from the generators of the `uuid` and `ulid`
//! crates.

use vstd::prelude::*;

verus! {

/// Calls `uuid::Uuid::new_v4` and hands back its 128-bit value. The value is
/// random, so nothing is claimed of it.
#[verifier::external_body]
pub(crate) fn fresh_uuid() -> (value: u128) {
    uuid::Uuid::new_v4().as_u128()
}

/// Calls `ulid::Ulid::generate` and hands back its 128-bit value. The value
/// is made of the current time and of random bits, so nothing is claimed of
/// it.
#[verifier::external_body]
pub(crate) fn fresh_ulid() -> (value: u128) {
    ulid::Ulid::generate().0
}

} // verus!
