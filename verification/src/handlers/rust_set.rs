//! Stores the request input under the fixed cache key `important`.

use vstd::prelude::*;

use crate::cache;
use crate::host::HostRuntime;
use crate::runnable::RunErr;
use crate::runnable::Runnable;
use crate::Ctx;
use vstd::utf8::encode_utf8;

verus! {

/// Caches the input under `important` and answers `"hello"`.
pub struct RustSet {}

impl<H: HostRuntime> Runnable<H> for RustSet {
    fn run(&self, ctx: &mut Ctx<H>, input: Vec<u8>) -> (r: Result<Vec<u8>, RunErr>)
        ensures
            final(ctx).arena@ == old(ctx).arena@,
            final(ctx).host.cache() == old(ctx).host.cache().insert(
                encode_utf8("important"@),
                input@,
            ) || final(ctx).host.cache() == old(ctx).host.cache(),
            final(ctx).host.fields() == old(ctx).host.fields(),
            final(ctx).host.files() == old(ctx).host.files(),
            final(ctx).host.headers() == old(ctx).host.headers(),
            final(ctx).host.log() == old(ctx).host.log(),
            final(ctx).host.execs() == old(ctx).host.execs(),
            final(ctx).host.fetches() == old(ctx).host.fetches(),
            final(ctx).host.queries() == old(ctx).host.queries(),
            final(ctx).host.sent() == old(ctx).host.sent(),
            final(ctx).host.vars() == old(ctx).host.vars(),
            r matches Ok(v) && v@ == encode_utf8("hello"@),
    {
        cache::set(ctx, "important", input, 0);
        Ok(crate::util::str_to_vec("hello"))
    }
}

} // verus!
