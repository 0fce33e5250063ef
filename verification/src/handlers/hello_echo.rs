//! Echoes the input back with a greeting.

use vstd::prelude::*;

use crate::host::HostRuntime;
use crate::runnable::RunErr;
use crate::runnable::Runnable;
use crate::util;
use crate::util::chars_of;
use crate::Ctx;
use vstd::string::StringExecFns;
use vstd::utf8::encode_utf8;

verus! {

/// Answers `"hello "` followed by the input read as text.
pub struct HelloEcho {}

impl<H: HostRuntime> Runnable<H> for HelloEcho {
    fn run(&self, ctx: &mut Ctx<H>, input: Vec<u8>) -> (r: Result<Vec<u8>, RunErr>)
        ensures
            *final(ctx) == *old(ctx),
            r matches Ok(v) && v@ == encode_utf8("hello "@ + chars_of(input@)),
    {
        let mut s = String::from_str("hello ");
        s.append(util::to_string(input).as_str());
        Ok(util::to_vec(s))
    }
}

} // verus!
