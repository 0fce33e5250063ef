//! Stores the request input in the cache under a URL parameter.

use vstd::prelude::*;

use crate::cache;
use crate::host::same_stores;
use crate::host::HostRuntime;
use crate::log;
use crate::req;
use crate::runnable::RunErr;
use crate::runnable::Runnable;
use crate::Ctx;
use vstd::string::StringExecFns;

verus! {

/// Writes the input bytes to the cache under the `key` URL parameter and
/// answers nothing.
pub struct CacheSet {}

impl<H: HostRuntime> Runnable<H> for CacheSet {
    fn run(&self, ctx: &mut Ctx<H>, input: Vec<u8>) -> (r: Result<Vec<u8>, RunErr>)
        ensures
            final(ctx).arena@ == old(ctx).arena@,
            (exists|k: Seq<u8>|
                final(ctx).host.cache() == old(ctx).host.cache().insert(k, input@)) || final(
                ctx).host.cache() == old(ctx).host.cache(),
            final(ctx).host.fields() == old(ctx).host.fields(),
            final(ctx).host.files() == old(ctx).host.files(),
            final(ctx).host.headers() == old(ctx).host.headers(),
            final(ctx).host.log().len() == old(ctx).host.log().len() + 1,
            final(ctx).host.execs() == old(ctx).host.execs(),
            final(ctx).host.fetches() == old(ctx).host.fetches(),
            final(ctx).host.queries() == old(ctx).host.queries(),
            final(ctx).host.sent() == old(ctx).host.sent(),
            final(ctx).host.vars() == old(ctx).host.vars(),
            r matches Ok(v) && v@ == Seq::<u8>::empty(),
    {
        let key = req::url_param(ctx, "key");
        let mut msg = String::from_str("setting cache value ");
        msg.append(key.as_str());
        log::info(ctx, msg.as_str());
        cache::set(ctx, key.as_str(), input, 0);
        Ok(Vec::new())
    }
}

} // verus!
