//! Logs the input, notes scheduled runs, and answers the greeting.

use vstd::prelude::*;

use crate::host::same_stores;
use crate::host::HostRuntime;
use crate::log;
use crate::req;
use crate::runnable::RunErr;
use crate::runnable::Runnable;
use crate::util;
use crate::util::bytes_eq;
use crate::util::chars_of;
use crate::Ctx;
use vstd::string::StringExecFns;
use vstd::utf8::encode_utf8;

verus! {

/// Logs the input at info severity — plus a note when the request method
/// says the run is scheduled — and answers the greeting.
pub struct LogIt {}

impl<H: HostRuntime> Runnable<H> for LogIt {
    fn run(&self, ctx: &mut Ctx<H>, input: Vec<u8>) -> (r: Result<Vec<u8>, RunErr>)
        ensures
            final(ctx).arena@ == old(ctx).arena@,
            same_stores(&old(ctx).host, &final(ctx).host),
            final(ctx).host.headers() == old(ctx).host.headers(),
            final(ctx).host.log().len() == old(ctx).host.log().len() + 1 || final(
                ctx).host.log().len() == old(ctx).host.log().len() + 2,
            final(ctx).host.log()[old(ctx).host.log().len() as int] == (
                3int,
                encode_utf8(chars_of(input@)),
            ),
            final(ctx).host.execs() == old(ctx).host.execs(),
            final(ctx).host.fetches() == old(ctx).host.fetches(),
            final(ctx).host.queries() == old(ctx).host.queries(),
            final(ctx).host.sent() == old(ctx).host.sent(),
            final(ctx).host.vars() == old(ctx).host.vars(),
            r matches Ok(v) && v@ == encode_utf8("hello "@ + chars_of(input@)),
    {
        let in_string = util::to_string(input);
        log::info(ctx, in_string.as_str());
        let method = req::method(ctx);
        if bytes_eq(method.as_str().as_bytes(), "SCHED".as_bytes()) {
            log::info(ctx, "running on a schedule");
        }
        let mut s = String::from_str("hello ");
        s.append(in_string.as_str());
        Ok(util::to_vec(s))
    }
}

} // verus!
