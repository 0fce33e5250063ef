//! Fetches the URL the input names, then posts a test payload with
//! headers to an echo service.

use vstd::prelude::*;

use crate::host::HostRuntime;
use crate::http;
use crate::http::method::Method;
use crate::http::spec_insert;
use crate::http::full_url;
use crate::http::Headers;
use crate::log;
use crate::runnable::RunErr;
use crate::runnable::Runnable;
use crate::util;
use crate::util::chars_of;
use crate::Ctx;
use vstd::slice::slice_to_vec;
use vstd::utf8::encode_utf8;

verus! {

/// The header set the echo post carries.
pub open spec fn echo_headers() -> Seq<(Seq<char>, Seq<char>)> {
    spec_insert(
        spec_insert(
            Seq::<(Seq<char>, Seq<char>)>::empty(),
            "Content-Type"@,
            "application/json"@,
        ),
        "X-ATMO-TEST"@,
        "testvalgoeshere"@,
    )
}

/// Issues a GET for the input's URL and, if it answers, a POST with a
/// fixed JSON payload and two headers folded into the URL.
pub struct Fetch {}

impl<H: HostRuntime> Runnable<H> for Fetch {
    fn run(&self, ctx: &mut Ctx<H>, input: Vec<u8>) -> (r: Result<Vec<u8>, RunErr>)
        ensures
            final(ctx).arena@ == old(ctx).arena@,
            crate::host::same_stores(&old(ctx).host, &final(ctx).host),
            final(ctx).host.headers() == old(ctx).host.headers(),
            final(ctx).host.execs() == old(ctx).host.execs(),
            final(ctx).host.queries() == old(ctx).host.queries(),
            final(ctx).host.sent() == old(ctx).host.sent(),
            final(ctx).host.vars() == old(ctx).host.vars(),
            final(ctx).host.fetches().len() == old(ctx).host.fetches().len() + 1 || final(
                ctx).host.fetches().len() == old(ctx).host.fetches().len() + 2,
            final(ctx).host.fetches()[old(ctx).host.fetches().len() as int] == (
                Method::GET.code() as int,
                encode_utf8(chars_of(input@)),
                Seq::<u8>::empty(),
            ),
            final(ctx).host.fetches().len() == old(ctx).host.fetches().len() + 2 ==> final(
                ctx).host.fetches().last() == (
                Method::POST.code() as int,
                encode_utf8(full_url("https://postman-echo.com/post"@, Some(echo_headers()))),
                encode_utf8("{\"message\": \"testing the echo!\"}"@),
            ),
            r matches Err(e) ==> e.code == 1,
            r matches Ok(v) ==> v@ == final(ctx).host.pending(),
    {
        let url = util::to_string(input);

        let first = match http::get(ctx, url.as_str(), None) {
            Ok(res) => res,
            Err(e) => {
                return Err(RunErr::new(1, e.message.as_str()));
            },
        };
        let _unused = first;

        let mut headers = Headers::new();
        headers.insert("Content-Type", "application/json");
        headers.insert("X-ATMO-TEST", "testvalgoeshere");

        let body = util::str_to_vec("{\"message\": \"testing the echo!\"}");

        match http::post(ctx, "https://postman-echo.com/post", Some(body), Some(&headers)) {
            Ok(res) => {
                let text = util::to_string(slice_to_vec(res.as_slice()));
                log::info(ctx, text.as_str());
                Ok(res)
            },
            Err(e) => Err(RunErr::new(1, e.message.as_str())),
        }
    }
}

} // verus!
