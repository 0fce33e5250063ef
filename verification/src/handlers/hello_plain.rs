//! The greeting handler in its plain entry form: fed the raw input
//! directly, no capabilities used.

use vstd::prelude::*;

use crate::util;
use crate::util::chars_of;
use vstd::string::StringExecFns;
use vstd::utf8::encode_utf8;

verus! {

/// `"hello "` followed by the input read as text.
pub fn run(input: Vec<u8>) -> (r: Option<Vec<u8>>)
    ensures
        r matches Some(v) && v@ == encode_utf8("hello "@ + chars_of(input@)),
{
    let mut s = String::from_str("hello ");
    s.append(util::to_string(input).as_str());
    Some(util::to_vec(s))
}

} // verus!
