use vstd::prelude::*;

verus! {

/// `Uuid::new_v4` of uuid, written out with `to_string`: a random
/// identifier. Nothing is promised of it, not even that it is new.
#[verifier::external_body]
pub(crate) fn new_id() -> (r: String) {
    uuid::Uuid::new_v4().to_string()
}

} // verus!
