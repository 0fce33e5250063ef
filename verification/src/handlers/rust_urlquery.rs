//! Greets the query-string parameter `message`.

use vstd::prelude::*;

use crate::host::HostRuntime;
use crate::req;
use crate::req::field_type::FieldType;
use crate::req::lossy_field_read;
use crate::req::only_read;
use crate::runnable::RunErr;
use crate::runnable::Runnable;
use crate::util;
use crate::Ctx;
use vstd::string::StringExecFns;
use vstd::utf8::encode_utf8;

verus! {

/// Answers `"hello "` followed by the `message` query parameter.
pub struct RustUrlquery {}

impl<H: HostRuntime> Runnable<H> for RustUrlquery {
    fn run(&self, ctx: &mut Ctx<H>, input: Vec<u8>) -> (r: Result<Vec<u8>, RunErr>)
        ensures
            only_read(old(ctx), final(ctx)),
            r matches Ok(v) && exists|q: Seq<char>|
                lossy_field_read(
                    &old(ctx).host,
                    FieldType::Query.code() as int,
                    "message"@,
                    q,
                ) && v@ == encode_utf8("hello "@ + q),
    {
        let q = req::query_param(ctx, "message");
        let mut s = String::from_str("hello ");
        s.append(q.as_str());
        Ok(util::to_vec(s))
    }
}

} // verus!
