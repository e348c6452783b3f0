use vstd::prelude::*;

verus! {

/// Relies on uuid::Uuid::new_v4 for a fresh random identifier, read out as its
/// 128 bits by Uuid::as_u128. Nothing is promised of the value.
#[verifier::external_body]
pub(crate) fn new_uuid() -> (r: u128) {
    uuid::Uuid::new_v4().as_u128()
}

} // verus!
