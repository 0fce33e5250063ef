//! Logs a state entry, then fetches the URL another state entry names.

use vstd::prelude::*;

use crate::host::HostRuntime;
use crate::http;
use crate::http::method::Method;
use crate::log;
use crate::req;
use crate::runnable::RunErr;
use crate::runnable::Runnable;
use crate::Ctx;

verus! {

/// Logs the `logme` state entry, GETs the URL in the `url` state entry,
/// and answers the response.
pub struct FetchTest {}

impl<H: HostRuntime> Runnable<H> for FetchTest {
    fn run(&self, ctx: &mut Ctx<H>, input: Vec<u8>) -> (r: Result<Vec<u8>, RunErr>)
        ensures
            final(ctx).arena@ == old(ctx).arena@,
            crate::host::same_stores(&old(ctx).host, &final(ctx).host),
            final(ctx).host.headers() == old(ctx).host.headers(),
            final(ctx).host.log().len() == old(ctx).host.log().len() + 1,
            final(ctx).host.execs() == old(ctx).host.execs(),
            final(ctx).host.queries() == old(ctx).host.queries(),
            final(ctx).host.sent() == old(ctx).host.sent(),
            final(ctx).host.vars() == old(ctx).host.vars(),
            final(ctx).host.fetches().len() == old(ctx).host.fetches().len() + 1,
            final(ctx).host.fetches().last().0 == Method::GET.code() as int,
            final(ctx).host.fetches().last().2 == Seq::<u8>::empty(),
            r matches Err(e) ==> e.code == 500,
            r matches Ok(v) ==> v@ == final(ctx).host.pending(),
    {
        let msg = match req::state(ctx, "logme") {
            Some(s) => s,
            None => String::new(),
        };
        log::info(ctx, msg.as_str());

        let url = match req::state(ctx, "url") {
            Some(s) => s,
            None => String::new(),
        };

        match http::get(ctx, url.as_str(), None) {
            Ok(data) => Ok(data),
            Err(e) => Err(RunErr::new(500, e.message.as_str())),
        }
    }
}

} // verus!
