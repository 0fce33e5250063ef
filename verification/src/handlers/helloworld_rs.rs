//! Greets the request body rather than the raw input.

use vstd::prelude::*;

use crate::host::HostRuntime;
use crate::req;
use crate::req::field_key;
use crate::req::only_read;
use crate::runnable::RunErr;
use crate::runnable::Runnable;
use crate::util;
use crate::util::chars_of;
use crate::Ctx;
use vstd::string::StringExecFns;
use vstd::utf8::encode_utf8;

verus! {

/// Answers `"hello "` followed by the request body read as text; a
/// missing or unreadable body greets nothing.
pub struct HelloworldRs {}

impl<H: HostRuntime> Runnable<H> for HelloworldRs {
    fn run(&self, ctx: &mut Ctx<H>, input: Vec<u8>) -> (r: Result<Vec<u8>, RunErr>)
        ensures
            only_read(old(ctx), final(ctx)),
            r matches Ok(v) && (v@ == encode_utf8(
                "hello "@ + chars_of(old(ctx).host.fields()[field_key(0, "body"@)]),
            ) || v@ == encode_utf8("hello "@ + chars_of(Seq::<u8>::empty()))),
    {
        let body = req::body_raw(ctx);
        let mut s = String::from_str("hello ");
        s.append(util::to_string(body).as_str());
        Ok(util::to_vec(s))
    }
}

} // verus!
