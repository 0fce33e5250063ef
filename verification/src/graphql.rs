//! The GraphQL capability. Endpoint and query each have a dedicated
//! argument slot on the wire, so no encoding trick is needed.

use vstd::prelude::*;

use crate::ffi;
use crate::ffi::unknown_err;
use crate::host::same_stores;
use crate::host::HostRuntime;
use crate::runnable::HostErr;
use crate::util::chars_of;
use crate::Ctx;
use vstd::utf8::encode_utf8;

verus! {

/// Send `query_text` to the GraphQL endpoint at `endpoint`. The host sees
/// exactly these two strings; on success the payload is exactly the
/// response the host prepared.
pub fn query<H: HostRuntime>(ctx: &mut Ctx<H>, endpoint: &str, query_text: &str) -> (r: Result<
    Vec<u8>,
    HostErr,
>)
    ensures
        final(ctx).ident == old(ctx).ident,
        final(ctx).arena@ == old(ctx).arena@,
        same_stores(&old(ctx).host, &final(ctx).host),
        final(ctx).host.queries() == old(ctx).host.queries().push(
            (encode_utf8(endpoint@), encode_utf8(query_text@)),
        ),
        final(ctx).host.headers() == old(ctx).host.headers(),
        final(ctx).host.log() == old(ctx).host.log(),
        final(ctx).host.execs() == old(ctx).host.execs(),
        final(ctx).host.fetches() == old(ctx).host.fetches(),
        final(ctx).host.sent() == old(ctx).host.sent(),
        final(ctx).host.vars() == old(ctx).host.vars(),
        r matches Ok(d) ==> d@ == final(ctx).host.pending(),
        r matches Err(e) ==> e.message@ == unknown_err() || e.message@ == chars_of(
            final(ctx).host.pending(),
        ),
{
    let s = ctx.host.graphql_query(endpoint.as_bytes(), query_text.as_bytes(), ctx.ident);
    ffi::result(ctx, s)
}

} // verus!
