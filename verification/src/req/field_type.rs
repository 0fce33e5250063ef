//! The field-type discriminator for request access.

use vstd::prelude::*;

verus! {

/// Which request sub-resource a key addresses. The numeric wire codes are
/// part of the external contract and must not be renumbered.
pub enum FieldType {
    Meta,
    Body,
    Header,
    Params,
    State,
    Query,
}

impl FieldType {
    /// The fixed wire code of each field type.
    pub open spec fn spec_code(&self) -> i32 {
        match self {
            FieldType::Meta => 0,
            FieldType::Body => 1,
            FieldType::Header => 2,
            FieldType::Params => 3,
            FieldType::State => 4,
            FieldType::Query => 5,
        }
    }

    /// The wire code, as sent across the boundary.
    #[verifier::when_used_as_spec(spec_code)]
    pub fn code(&self) -> (c: i32)
        ensures
            c == self.spec_code(),
    {
        match self {
            FieldType::Meta => 0,
            FieldType::Body => 1,
            FieldType::Header => 2,
            FieldType::Params => 3,
            FieldType::State => 4,
            FieldType::Query => 5,
        }
    }
}

} // verus!
