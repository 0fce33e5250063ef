//! Serves a cached value named by a URL parameter.

use vstd::prelude::*;

use crate::cache;
use crate::host::same_stores;
use crate::host::HostRuntime;
use crate::log;
use crate::req;
use crate::runnable::RunErr;
use crate::runnable::Runnable;
use crate::Ctx;
use vstd::string::StringExecFns;

verus! {

/// Looks up the cache under the `key` URL parameter and answers the
/// stored bytes — empty for a key that holds nothing.
pub struct CacheGet {}

impl<H: HostRuntime> Runnable<H> for CacheGet {
    fn run(&self, ctx: &mut Ctx<H>, input: Vec<u8>) -> (r: Result<Vec<u8>, RunErr>)
        ensures
            final(ctx).arena@ == old(ctx).arena@,
            same_stores(&old(ctx).host, &final(ctx).host),
            final(ctx).host.headers() == old(ctx).host.headers(),
            final(ctx).host.log().len() == old(ctx).host.log().len() + 1,
            final(ctx).host.execs() == old(ctx).host.execs(),
            final(ctx).host.fetches() == old(ctx).host.fetches(),
            final(ctx).host.queries() == old(ctx).host.queries(),
            final(ctx).host.sent() == old(ctx).host.sent(),
            final(ctx).host.vars() == old(ctx).host.vars(),
            r matches Ok(v) && ((exists|k: Seq<u8>|
                old(ctx).host.cache().contains_key(k) && v@ == old(ctx).host.cache()[k])
                || v@ == Seq::<u8>::empty()),
    {
        let key = req::url_param(ctx, "key");
        let mut msg = String::from_str("getting cache value ");
        msg.append(key.as_str());
        log::info(ctx, msg.as_str());
        let val = cache::get(ctx, key.as_str());
        Ok(val)
    }
}

} // verus!
