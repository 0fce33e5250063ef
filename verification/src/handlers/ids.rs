//! Fresh identifiers for the database demos.

use vstd::prelude::*;

verus! {

/// Relies on uuid's `Uuid::new_v4` and its `Display` form: a random
/// version-4 UUID printed as 36 hyphenated lowercase hex characters.
/// The value is random, so nothing beyond its length is promised.
#[verifier::external_body]
pub(crate) fn fresh_uuid() -> (r: String)
    ensures
        r@.len() == 36,
{
    uuid::Uuid::new_v4().to_string()
}

} // verus!
