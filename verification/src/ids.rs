//! Generation of fresh entity identifiers.

use vstd::prelude::*;

verus! {

/// Relies on `uuid::Uuid::new_v4` and `uuid::Uuid::as_u128`: a freshly
/// generated random version-4 UUID, as its 128-bit value. The result is
/// random, so nothing is promised of it; callers check it against the
/// identifiers already in use before trusting its uniqueness.
#[verifier::external_body]
pub(crate) fn fresh_uuid() -> u128 {
    uuid::Uuid::new_v4().as_u128()
}

} // verus!
