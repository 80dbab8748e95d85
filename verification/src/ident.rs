//! Identifiers of tasks, categories and tags.
use vstd::prelude::*;
use uuid::Uuid;

verus! {

/// `uuid::Uuid`, an identifier of 128 bits. It is held and handed on; nothing
/// here looks into it.
#[verifier::external_type_specification]
#[verifier::external_body]
pub struct ExUuid(uuid::Uuid);

/// A new identifier from `Uuid::new_v4`, which draws it at random: nothing is
/// claimed of its value, nor that two calls give different ones.
#[verifier::external_body]
pub(crate) fn fresh_id() -> (id: Uuid) {
    Uuid::new_v4()
}

} // verus!
