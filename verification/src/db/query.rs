//! Named arguments and operation modes for prepared statements.

use vstd::prelude::*;

use vstd::string::StringExecFns;

verus! {

/// One named argument for a prepared statement.
#[derive(Clone)]
pub struct QueryArg {
    pub name: String,
    pub value: String,
}

impl QueryArg {
    pub fn new(name: &str, value: &str) -> (a: QueryArg)
        ensures
            a.name@ == name@,
            a.value@ == value@,
    {
        QueryArg { name: String::from_str(name), value: String::from_str(value) }
    }
}

/// The execution mode of a prepared statement. The numeric wire codes are
/// part of the external contract and must not be renumbered.
#[allow(clippy::upper_case_acronyms)]
pub enum QueryType {
    SELECT,
    INSERT,
    UPDATE,
    DELETE,
}

impl QueryType {
    /// The fixed wire code of each mode.
    pub open spec fn spec_code(&self) -> i32 {
        match self {
            QueryType::INSERT => 0,
            QueryType::SELECT => 1,
            QueryType::UPDATE => 2,
            QueryType::DELETE => 3,
        }
    }

    /// The wire code, as sent across the boundary.
    #[verifier::when_used_as_spec(spec_code)]
    pub fn code(&self) -> (c: i32)
        ensures
            c == self.spec_code(),
    {
        match self {
            QueryType::INSERT => 0,
            QueryType::SELECT => 1,
            QueryType::UPDATE => 2,
            QueryType::DELETE => 3,
        }
    }
}

} // verus!
