//! The response-header capability: void, fire-and-forget, observed by the
//! host in call order.

use vstd::prelude::*;

use crate::host::same_stores;
use crate::host::HostRuntime;
use crate::Ctx;
use vstd::utf8::encode_utf8;

verus! {

/// Set one response header.
pub fn set_header<H: HostRuntime>(ctx: &mut Ctx<H>, key: &str, val: &str)
    ensures
        final(ctx).ident == old(ctx).ident,
        final(ctx).arena@ == old(ctx).arena@,
        same_stores(&old(ctx).host, &final(ctx).host),
        final(ctx).host.headers() == old(ctx).host.headers().push(
            (encode_utf8(key@), encode_utf8(val@)),
        ),
        final(ctx).host.log() == old(ctx).host.log(),
        final(ctx).host.execs() == old(ctx).host.execs(),
        final(ctx).host.fetches() == old(ctx).host.fetches(),
        final(ctx).host.queries() == old(ctx).host.queries(),
        final(ctx).host.sent() == old(ctx).host.sent(),
        final(ctx).host.pending() == old(ctx).host.pending(),
        final(ctx).host.vars() == old(ctx).host.vars(),
{
    ctx.host.resp_set_header(key.as_bytes(), val.as_bytes(), ctx.ident);
}

/// Set the response's Content-Type header.
pub fn content_type<H: HostRuntime>(ctx: &mut Ctx<H>, ctype: &str)
    ensures
        final(ctx).ident == old(ctx).ident,
        final(ctx).arena@ == old(ctx).arena@,
        same_stores(&old(ctx).host, &final(ctx).host),
        final(ctx).host.headers() == old(ctx).host.headers().push(
            (encode_utf8("Content-Type"@), encode_utf8(ctype@)),
        ),
        final(ctx).host.log() == old(ctx).host.log(),
        final(ctx).host.execs() == old(ctx).host.execs(),
        final(ctx).host.fetches() == old(ctx).host.fetches(),
        final(ctx).host.queries() == old(ctx).host.queries(),
        final(ctx).host.sent() == old(ctx).host.sent(),
        final(ctx).host.pending() == old(ctx).host.pending(),
        final(ctx).host.vars() == old(ctx).host.vars(),
{
    set_header(ctx, "Content-Type", ctype);
}

} // verus!
