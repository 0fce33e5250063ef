//! The static-file capability.

use vstd::prelude::*;

use crate::ffi;
use crate::host::same_records;
use crate::host::same_stores;
use crate::host::HostRuntime;
use crate::Ctx;
use vstd::utf8::encode_utf8;

verus! {

/// Fetch the static file bundled under `name`. An absent file — and any
/// transport failure — comes back as `None`; the error message, if the
/// host sent one, is deliberately discarded.
pub fn get_static<H: HostRuntime>(ctx: &mut Ctx<H>, name: &str) -> (r: Option<Vec<u8>>)
    ensures
        final(ctx).ident == old(ctx).ident,
        final(ctx).arena@ == old(ctx).arena@,
        same_stores(&old(ctx).host, &final(ctx).host),
        same_records(&old(ctx).host, &final(ctx).host),
        final(ctx).host.vars() == old(ctx).host.vars(),
        r matches Some(v) ==> old(ctx).host.files().contains_key(encode_utf8(name@)) && v@ == old(
            ctx,
        ).host.files()[encode_utf8(name@)],
        !old(ctx).host.files().contains_key(encode_utf8(name@)) ==> r is None,
{
    let s = ctx.host.get_static_file(name.as_bytes(), ctx.ident);
    match ffi::result(ctx, s) {
        Ok(v) => Some(v),
        Err(_) => None,
    }
}

} // verus!
