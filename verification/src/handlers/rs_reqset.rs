//! Writes a request header and reports how it went to the log.

use vstd::prelude::*;

use crate::host::HostRuntime;
use crate::log;
use crate::req;
use crate::req::field_key;
use crate::req::field_type::FieldType;
use crate::runnable::RunErr;
use crate::runnable::Runnable;
use crate::Ctx;
use vstd::utf8::encode_utf8;

verus! {

/// Sets the request header `X-REACTR-TEST`, logs the outcome, and answers
/// nothing.
pub struct RsReqset {}

impl<H: HostRuntime> Runnable<H> for RsReqset {
    fn run(&self, ctx: &mut Ctx<H>, input: Vec<u8>) -> (r: Result<Vec<u8>, RunErr>)
        ensures
            final(ctx).arena@ == old(ctx).arena@,
            final(ctx).host.fields() == old(ctx).host.fields().insert(
                field_key(FieldType::Header.code() as int, "X-REACTR-TEST"@),
                encode_utf8("test successful!"@),
            ) || final(ctx).host.fields() == old(ctx).host.fields(),
            final(ctx).host.cache() == old(ctx).host.cache(),
            final(ctx).host.files() == old(ctx).host.files(),
            final(ctx).host.headers() == old(ctx).host.headers(),
            final(ctx).host.log().len() == old(ctx).host.log().len() + 1,
            final(ctx).host.execs() == old(ctx).host.execs(),
            final(ctx).host.fetches() == old(ctx).host.fetches(),
            final(ctx).host.queries() == old(ctx).host.queries(),
            final(ctx).host.sent() == old(ctx).host.sent(),
            final(ctx).host.vars() == old(ctx).host.vars(),
            r matches Ok(v) && v@ == Seq::<u8>::empty(),
    {
        match req::set_header(ctx, "X-REACTR-TEST", "test successful!") {
            Err(e) => log::error(ctx, e.message.as_str()),
            Ok(_) => log::info(ctx, "header set!"),
        }
        Ok(Vec::new())
    }
}

} // verus!
