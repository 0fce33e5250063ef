//! Fetches the URL carried in the request body.

use vstd::prelude::*;

use crate::host::HostRuntime;
use crate::http;
use crate::http::method::Method;
use crate::http::only_fetched;
use crate::req;
use crate::runnable::RunErr;
use crate::runnable::Runnable;
use crate::util;
use crate::Ctx;

verus! {

/// Issues a GET for the URL in the request body and answers the
/// response.
pub struct Fetch {}

impl<H: HostRuntime> Runnable<H> for Fetch {
    fn run(&self, ctx: &mut Ctx<H>, input: Vec<u8>) -> (r: Result<Vec<u8>, RunErr>)
        ensures
            only_fetched(old(ctx), final(ctx)),
            final(ctx).host.fetches().len() == old(ctx).host.fetches().len() + 1,
            final(ctx).host.fetches().last().0 == Method::GET.code() as int,
            final(ctx).host.fetches().last().2 == Seq::<u8>::empty(),
            r matches Err(e) ==> e.code == 1,
            r matches Ok(v) ==> v@ == final(ctx).host.pending(),
    {
        let url = req::body_raw(ctx);
        let url_string = util::to_string(url);
        match http::get(ctx, url_string.as_str(), None) {
            Ok(res) => Ok(res),
            Err(e) => Err(RunErr::new(1, e.message.as_str())),
        }
    }
}

} // verus!
