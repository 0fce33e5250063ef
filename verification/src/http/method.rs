//! The HTTP method codes.

use vstd::prelude::*;

verus! {

/// An HTTP request method. The numeric wire codes are part of the external
/// contract and must not be renumbered.
#[allow(clippy::upper_case_acronyms)]
pub enum Method {
    GET,
    HEAD,
    OPTIONS,
    POST,
    PUT,
    PATCH,
    DELETE,
}

impl Method {
    /// The fixed wire code of each method.
    pub open spec fn spec_code(&self) -> i32 {
        match self {
            Method::GET => 0,
            Method::HEAD => 1,
            Method::OPTIONS => 2,
            Method::POST => 3,
            Method::PUT => 4,
            Method::PATCH => 5,
            Method::DELETE => 6,
        }
    }

    /// The wire code, as sent across the boundary.
    #[verifier::when_used_as_spec(spec_code)]
    pub fn code(&self) -> (c: i32)
        ensures
            c == self.spec_code(),
    {
        match self {
            Method::GET => 0,
            Method::HEAD => 1,
            Method::OPTIONS => 2,
            Method::POST => 3,
            Method::PUT => 4,
            Method::PATCH => 5,
            Method::DELETE => 6,
        }
    }
}

} // verus!
