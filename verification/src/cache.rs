//! The cache capability.
//!
//! `set` is fire-and-forget. `get` runs the two-step retrieval, and any
//! transport failure collapses to an empty buffer rather than surfacing an
//! error — a caller cannot tell "not found" from "transport failure", which
//! is this capability's documented trade-off.

use vstd::prelude::*;

use crate::ffi;
use crate::host::same_records;
use crate::host::same_stores;
use crate::host::HostRuntime;
use crate::Ctx;
use vstd::utf8::encode_utf8;

verus! {

/// Store `val` under `key`, with a time-to-live hint in seconds (`0` for
/// no expiry). The host either records exactly this value or drops the
/// request whole; nothing is reported back.
pub fn set<H: HostRuntime>(ctx: &mut Ctx<H>, key: &str, val: Vec<u8>, ttl: i32)
    ensures
        final(ctx).ident == old(ctx).ident,
        final(ctx).arena@ == old(ctx).arena@,
        final(ctx).host.cache() == old(ctx).host.cache().insert(encode_utf8(key@), val@)
            || final(ctx).host.cache() == old(ctx).host.cache(),
        final(ctx).host.fields() == old(ctx).host.fields(),
        final(ctx).host.files() == old(ctx).host.files(),
        final(ctx).host.pending() == old(ctx).host.pending(),
        same_records(&old(ctx).host, &final(ctx).host),
        final(ctx).host.vars() == old(ctx).host.vars(),
{
    let _status: i32 = ctx.host.cache_set(key.as_bytes(), val.as_slice(), ttl, ctx.ident);
}

/// Look `key` up. A key that holds nothing — and any transport failure —
/// comes back as an empty buffer; in particular a key never set always
/// yields a zero-length buffer, never an error.
pub fn get<H: HostRuntime>(ctx: &mut Ctx<H>, key: &str) -> (r: Vec<u8>)
    ensures
        final(ctx).ident == old(ctx).ident,
        final(ctx).arena@ == old(ctx).arena@,
        same_stores(&old(ctx).host, &final(ctx).host),
        same_records(&old(ctx).host, &final(ctx).host),
        final(ctx).host.vars() == old(ctx).host.vars(),
        (old(ctx).host.cache().contains_key(encode_utf8(key@)) && r@ == old(ctx).host.cache()[
            encode_utf8(key@)
        ]) || r@ == Seq::<u8>::empty(),
        !old(ctx).host.cache().contains_key(encode_utf8(key@)) ==> r@ == Seq::<u8>::empty(),
{
    let s = ctx.host.cache_get(key.as_bytes(), ctx.ident);
    match ffi::result(ctx, s) {
        Ok(v) => v,
        Err(_) => Vec::new(),
    }
}

} // verus!
