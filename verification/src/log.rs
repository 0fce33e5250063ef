//! The logging capability: one import, multiplexed by severity code.

use vstd::prelude::*;

use crate::host::same_stores;
use crate::host::HostRuntime;
use crate::Ctx;
use vstd::utf8::encode_utf8;

verus! {

/// Everything but the log is as it was.
pub open spec fn only_logged<H: HostRuntime>(a: &Ctx<H>, b: &Ctx<H>) -> bool {
    &&& b.ident == a.ident
    &&& b.arena@ == a.arena@
    &&& same_stores(&a.host, &b.host)
    &&& b.host.headers() == a.host.headers()
    &&& b.host.execs() == a.host.execs()
    &&& b.host.fetches() == a.host.fetches()
    &&& b.host.queries() == a.host.queries()
    &&& b.host.sent() == a.host.sent()
    &&& b.host.pending() == a.host.pending()
    &&& b.host.vars() == a.host.vars()
}

/// Log a message at debug severity (code 4).
pub fn debug<H: HostRuntime>(ctx: &mut Ctx<H>, msg: &str)
    ensures
        only_logged(old(ctx), final(ctx)),
        final(ctx).host.log() == old(ctx).host.log().push((4int, encode_utf8(msg@))),
{
    log_at_level(ctx, msg, 4)
}

/// Log a message at info severity (code 3).
pub fn info<H: HostRuntime>(ctx: &mut Ctx<H>, msg: &str)
    ensures
        only_logged(old(ctx), final(ctx)),
        final(ctx).host.log() == old(ctx).host.log().push((3int, encode_utf8(msg@))),
{
    log_at_level(ctx, msg, 3)
}

/// Log a message at warn severity (code 2).
pub fn warn<H: HostRuntime>(ctx: &mut Ctx<H>, msg: &str)
    ensures
        only_logged(old(ctx), final(ctx)),
        final(ctx).host.log() == old(ctx).host.log().push((2int, encode_utf8(msg@))),
{
    log_at_level(ctx, msg, 2)
}

/// Log a message at error severity (code 1).
pub fn error<H: HostRuntime>(ctx: &mut Ctx<H>, msg: &str)
    ensures
        only_logged(old(ctx), final(ctx)),
        final(ctx).host.log() == old(ctx).host.log().push((1int, encode_utf8(msg@))),
{
    log_at_level(ctx, msg, 1)
}

fn log_at_level<H: HostRuntime>(ctx: &mut Ctx<H>, msg: &str, level: i32)
    ensures
        only_logged(old(ctx), final(ctx)),
        final(ctx).host.log() == old(ctx).host.log().push((level as int, encode_utf8(msg@))),
{
    ctx.host.log_msg(msg.as_bytes(), level, ctx.ident)
}

} // verus!
