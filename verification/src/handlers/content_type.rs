//! Sets the response content type before answering.

use vstd::prelude::*;

use crate::host::same_stores;
use crate::host::HostRuntime;
use crate::resp;
use crate::runnable::RunErr;
use crate::runnable::Runnable;
use crate::util;
use crate::util::chars_of;
use crate::Ctx;
use vstd::string::StringExecFns;
use vstd::utf8::encode_utf8;

verus! {

/// Marks the response as JSON and answers the greeting.
pub struct ContentType {}

impl<H: HostRuntime> Runnable<H> for ContentType {
    fn run(&self, ctx: &mut Ctx<H>, input: Vec<u8>) -> (r: Result<Vec<u8>, RunErr>)
        ensures
            final(ctx).arena@ == old(ctx).arena@,
            same_stores(&old(ctx).host, &final(ctx).host),
            final(ctx).host.headers() == old(ctx).host.headers().push(
                (encode_utf8("Content-Type"@), encode_utf8("application/json"@)),
            ),
            final(ctx).host.log() == old(ctx).host.log(),
            final(ctx).host.execs() == old(ctx).host.execs(),
            final(ctx).host.fetches() == old(ctx).host.fetches(),
            final(ctx).host.queries() == old(ctx).host.queries(),
            final(ctx).host.sent() == old(ctx).host.sent(),
            final(ctx).host.vars() == old(ctx).host.vars(),
            r matches Ok(v) && v@ == encode_utf8("hello "@ + chars_of(input@)),
    {
        resp::content_type(ctx, "application/json");
        let mut s = String::from_str("hello ");
        s.append(util::to_string(input).as_str());
        Ok(util::to_vec(s))
    }
}

} // verus!
