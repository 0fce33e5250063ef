//! The fetch demo in its plain entry form: a JSON request describing what
//! to fetch, the fetched bytes as the answer.

use vstd::prelude::*;

use crate::handlers::jsonio;
use crate::handlers::jsonio::json_state_str_field;
use crate::handlers::jsonio::json_str_field;
use crate::host::HostRuntime;
use crate::http;
use crate::http::method::Method;
use crate::http::only_fetched;
use crate::util;
use crate::Ctx;
use vstd::utf8::encode_utf8;

verus! {

/// What one request asks for, parsed out of the JSON body.
pub struct Request {
    pub url: String,
    pub body: String,
    pub modify_url: String,
}

/// Parse a request: the strings under `url` and `body`, and the one under
/// `state.modify-url`, which names what to fetch. `None` when any of the
/// three is missing or not a string.
pub fn request(input: Vec<u8>) -> (r: Option<Request>)
    ensures
        r matches Some(q) ==> {
            &&& json_str_field(input@, "url"@) == Some(q.url@)
            &&& json_str_field(input@, "body"@) == Some(q.body@)
            &&& json_state_str_field(input@, "modify-url"@) == Some(q.modify_url@)
        },
        r is None ==> json_str_field(input@, "url"@) is None || json_str_field(input@, "body"@)
            is None || json_state_str_field(input@, "modify-url"@) is None,
{
    let url = match jsonio::json_string_field(input.as_slice(), "url") {
        Some(u) => u,
        None => {
            return None;
        },
    };
    let body = match jsonio::json_string_field(input.as_slice(), "body") {
        Some(b) => b,
        None => {
            return None;
        },
    };
    let modify_url = match jsonio::json_state_string_field(input.as_slice(), "modify-url") {
        Some(m) => m,
        None => {
            return None;
        },
    };
    Some(Request { url, body, modify_url })
}

/// Fetch what `state.modify-url` points at and answer the response; a
/// request that does not parse — or a failed fetch — answers `"failed"`.
pub fn run<H: HostRuntime>(ctx: &mut Ctx<H>, input: Vec<u8>) -> (r: Option<Vec<u8>>)
    ensures
        only_fetched(old(ctx), final(ctx)),
        final(ctx).host.fetches() == old(ctx).host.fetches() || (final(ctx).host.fetches().len()
            == old(ctx).host.fetches().len() + 1 && final(ctx).host.fetches().last().0
            == Method::GET.code() as int),
        r matches Some(v) && (v@ == encode_utf8("failed"@) || v@ == final(ctx).host.pending()),
{
    let req = match request(input) {
        Some(q) => q,
        None => {
            return Some(util::str_to_vec("failed"));
        },
    };

    match http::get(ctx, req.modify_url.as_str(), None) {
        Ok(data) => Some(data),
        Err(_) => Some(util::str_to_vec("failed")),
    }
}

} // verus!
