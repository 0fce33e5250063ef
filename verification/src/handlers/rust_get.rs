//! Serves the cached value under the fixed key `name`.

use vstd::prelude::*;

use crate::cache;
use crate::host::HostRuntime;
use crate::req::only_read;
use crate::runnable::RunErr;
use crate::runnable::Runnable;
use crate::Ctx;
use vstd::utf8::encode_utf8;

verus! {

/// Answers whatever the cache holds under `name` — empty if nothing.
pub struct RustGet {}

impl<H: HostRuntime> Runnable<H> for RustGet {
    fn run(&self, ctx: &mut Ctx<H>, input: Vec<u8>) -> (r: Result<Vec<u8>, RunErr>)
        ensures
            only_read(old(ctx), final(ctx)),
            r matches Ok(v) && ((old(ctx).host.cache().contains_key(encode_utf8("name"@)) && v@
                == old(ctx).host.cache()[encode_utf8("name"@)]) || v@ == Seq::<u8>::empty()),
    {
        let val = cache::get(ctx, "name");
        Ok(val)
    }
}

} // verus!
