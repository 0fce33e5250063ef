//! Queries a GraphQL endpoint and logs the response.

use vstd::prelude::*;

use crate::graphql;
use crate::host::HostRuntime;
use crate::log;
use crate::runnable::RunErr;
use crate::runnable::Runnable;
use crate::util;
use crate::Ctx;
use vstd::slice::slice_to_vec;
use vstd::utf8::encode_utf8;

verus! {

/// Sends one fixed repository query and answers the response.
pub struct RsGraphql {}

impl<H: HostRuntime> Runnable<H> for RsGraphql {
    fn run(&self, ctx: &mut Ctx<H>, input: Vec<u8>) -> (r: Result<Vec<u8>, RunErr>)
        ensures
            final(ctx).arena@ == old(ctx).arena@,
            crate::host::same_stores(&old(ctx).host, &final(ctx).host),
            final(ctx).host.headers() == old(ctx).host.headers(),
            final(ctx).host.log().len() == old(ctx).host.log().len() + 1,
            final(ctx).host.execs() == old(ctx).host.execs(),
            final(ctx).host.fetches() == old(ctx).host.fetches(),
            final(ctx).host.sent() == old(ctx).host.sent(),
            final(ctx).host.vars() == old(ctx).host.vars(),
            final(ctx).host.queries().len() == old(ctx).host.queries().len() + 1,
            final(ctx).host.queries().last().0 == encode_utf8("https://api.github.com/graphql"@),
            r matches Err(e) ==> e.code == 1,
            r matches Ok(v) ==> v@ == final(ctx).host.pending(),
    {
        match graphql::query(
            ctx,
            "https://api.github.com/graphql",
            "{ repository (owner: \"suborbital\", name: \"reactr\") { name, nameWithOwner }}",
        ) {
            Ok(response) => {
                let text = util::to_string(slice_to_vec(response.as_slice()));
                log::info(ctx, text.as_str());
                Ok(response)
            },
            Err(e) => {
                log::error(ctx, e.message.as_str());
                Err(RunErr::new(1, e.message.as_str()))
            },
        }
    }
}

} // verus!
