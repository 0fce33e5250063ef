//! Marks the response as JSON and hands the body straight back, so the
//! host stores it in state.

use vstd::prelude::*;

use crate::host::same_stores;
use crate::host::HostRuntime;
use crate::resp;
use crate::runnable::RunErr;
use crate::runnable::Runnable;
use crate::Ctx;
use vstd::utf8::encode_utf8;

verus! {

/// Marks the response as JSON and echoes the request body untouched.
pub struct SetArray {}

impl<H: HostRuntime> Runnable<H> for SetArray {
    fn run(&self, ctx: &mut Ctx<H>, body: Vec<u8>) -> (r: Result<Vec<u8>, RunErr>)
        ensures
            final(ctx).arena@ == old(ctx).arena@,
            same_stores(&old(ctx).host, &final(ctx).host),
            final(ctx).host.headers() == old(ctx).host.headers().push(
                (encode_utf8("Content-Type"@), encode_utf8("application/json"@)),
            ),
            final(ctx).host.log() == old(ctx).host.log(),
            final(ctx).host.execs() == old(ctx).host.execs(),
            final(ctx).host.fetches() == old(ctx).host.fetches(),
            final(ctx).host.queries() == old(ctx).host.queries(),
            final(ctx).host.sent() == old(ctx).host.sent(),
            final(ctx).host.vars() == old(ctx).host.vars(),
            r matches Ok(v) && v@ == body@,
    {
        resp::content_type(ctx, "application/json");
        Ok(body)
    }
}

} // verus!
