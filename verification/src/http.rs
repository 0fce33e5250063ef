//! The HTTP capability.
//!
//! The wire import takes a method code, url bytes and body bytes — there
//! is no argument slot for headers. They ride inside the url instead:
//! serialized as `key:value` pairs joined by the `"::"` delimiter, in
//! ascending key order, and appended to the URL after a `"::"` separator.
//! The `Headers` type keeps its entries in exactly the order they are
//! serialized in.

pub mod method;

use vstd::prelude::*;

use crate::ffi;
use crate::ffi::unknown_err;
use crate::host::same_stores;
use crate::host::HostRuntime;
use crate::http::method::Method;
use crate::runnable::HostErr;
use crate::util::bytes_lt;
use crate::util::bytes_three_way;
use crate::util::chars_of;
use crate::util::lemma_bytes_lt_asymmetric;
use crate::Ctx;
use vstd::string::StringExecFns;
use vstd::utf8::encode_utf8;
use vstd::utf8::encode_utf8_decode_utf8;

verus! {

/// The order header keys are serialized in: lexicographic on their UTF-8
/// bytes.
pub open spec fn key_lt(a: Seq<char>, b: Seq<char>) -> bool {
    bytes_lt(encode_utf8(a), encode_utf8(b))
}

/// Keys strictly ascending.
pub open spec fn sorted_keys(s: Seq<(Seq<char>, Seq<char>)>) -> bool {
    forall|i: int| 0 <= i && i + 1 < s.len() ==> key_lt(#[trigger] s[i].0, s[i + 1].0)
}

/// Where a new entry lands in an ordered header list: before the first
/// existing key it sorts under, replacing an equal key.
pub open spec fn spec_insert(s: Seq<(Seq<char>, Seq<char>)>, k: Seq<char>, v: Seq<char>) -> Seq<
    (Seq<char>, Seq<char>),
>
    decreases s.len(),
{
    if s.len() == 0 {
        seq![(k, v)]
    } else if key_lt(k, s[0].0) {
        seq![(k, v)] + s
    } else if k == s[0].0 {
        seq![(k, v)] + s.drop_first()
    } else {
        seq![s[0]] + spec_insert(s.drop_first(), k, v)
    }
}

/// The entries of a plain list, read as character sequences.
pub open spec fn entries_view(entries: Seq<(String, String)>) -> Seq<(Seq<char>, Seq<char>)> {
    entries.map_values(|e: (String, String)| (e.0@, e.1@))
}

/// A set of request headers, kept in ascending key order — the order the
/// wire serialization expects.
pub struct Headers {
    entries: Vec<(String, String)>,
}

impl View for Headers {
    type V = Seq<(Seq<char>, Seq<char>)>;

    closed spec fn view(&self) -> Seq<(Seq<char>, Seq<char>)> {
        entries_view(self.entries@)
    }
}

impl Headers {
    /// Keys strictly ascending; established by `new` and kept by `insert`.
    pub open spec fn wf(&self) -> bool {
        sorted_keys(self@)
    }

    /// No headers.
    pub fn new() -> (h: Headers)
        ensures
            h@ == Seq::<(Seq<char>, Seq<char>)>::empty(),
            h.wf(),
    {
        let h = Headers { entries: Vec::new() };
        proof {
            assert(h@ =~= Seq::<(Seq<char>, Seq<char>)>::empty());
        }
        h
    }

    /// Add a header, replacing any existing value under the same key and
    /// keeping the ascending order.
    pub fn insert(&mut self, key: &str, val: &str)
        requires
            old(self).wf(),
        ensures
            final(self)@ == spec_insert(old(self)@, key@, val@),
            final(self).wf(),
    {
        let mut tmp: Vec<(String, String)> = Vec::new();
        core::mem::swap(&mut tmp, &mut self.entries);
        self.entries = insert_rec(tmp, String::from_str(key), String::from_str(val));
    }
}

/// Insert into an ordered entry list, recursively: the structure of the
/// code is the structure of `spec_insert`.
fn insert_rec(rest: Vec<(String, String)>, key: String, val: String) -> (r: Vec<(String, String)>)
    requires
        sorted_keys(entries_view(rest@)),
    ensures
        entries_view(r@) == spec_insert(entries_view(rest@), key@, val@),
        sorted_keys(entries_view(r@)),
    decreases rest@.len(),
{
    let ghost orig = entries_view(rest@);
    let mut rest = rest;
    if rest.len() == 0 {
        rest.push((key, val));
        proof {
            assert(entries_view(rest@) =~= seq![(key@, val@)]);
        }
        rest
    } else {
        let c = bytes_three_way(key.as_str().as_bytes(), rest[0].0.as_str().as_bytes());
        if c == -1 {
            rest.insert(0, (key, val));
            proof {
                assert(entries_view(rest@) =~= seq![(key@, val@)] + orig);
            }
            rest
        } else if c == 0 {
            proof {
                encode_utf8_decode_utf8(key@);
                encode_utf8_decode_utf8(orig[0].0);
            }
            rest[0] = (key, val);
            proof {
                assert(entries_view(rest@) =~= seq![(key@, val@)] + orig.drop_first());
            }
            rest
        } else {
            proof {
                lemma_bytes_lt_asymmetric(encode_utf8(orig[0].0), encode_utf8(key@));
                assert forall|i: int| 0 <= i && i + 1 < orig.drop_first().len() implies key_lt(
                    #[trigger] orig.drop_first()[i].0,
                    orig.drop_first()[i + 1].0,
                ) by {
                    assert(key_lt(orig[i + 1].0, orig[i + 2].0));
                }
            }
            let head = rest.remove(0);
            proof {
                assert(entries_view(rest@) =~= orig.drop_first());
            }
            let mut r = insert_rec(rest, key, val);
            let ghost tail_ins = entries_view(r@);
            r.insert(0, head);
            proof {
                assert(entries_view(r@) =~= seq![orig[0]] + tail_ins);
                // the recursive result starts with either the new key or
                // the old second entry; the removed head sorts under both
                if orig.drop_first().len() == 0 {
                    assert(tail_ins == seq![(key@, val@)]);
                } else {
                    assert(key_lt(orig[0].0, orig.drop_first()[0].0));
                }
                assert(key_lt(orig[0].0, tail_ins[0].0));
                assert forall|i: int| 0 <= i && i + 1 < entries_view(r@).len() implies key_lt(
                    #[trigger] entries_view(r@)[i].0,
                    entries_view(r@)[i + 1].0,
                ) by {
                    if i > 0 {
                        assert(key_lt(tail_ins[i - 1].0, tail_ins[i].0));
                    }
                }
            }
            r
        }
    }
}

/// One serialized header: `key:value`.
pub open spec fn render_entry(e: (Seq<char>, Seq<char>)) -> Seq<char> {
    e.0 + ":"@ + e.1
}

/// Headers serialized in stored order: entries joined by the `"::"`
/// delimiter, with no trailing delimiter.
pub open spec fn rendered(s: Seq<(Seq<char>, Seq<char>)>) -> Seq<char>
    decreases s.len(),
{
    if s.len() == 0 {
        Seq::<char>::empty()
    } else if s.len() == 1 {
        render_entry(s[0])
    } else {
        render_entry(s[0]) + "::"@ + rendered(s.drop_first())
    }
}

/// Serialize the entries from position `i` on.
fn render_from(entries: &Vec<(String, String)>, i: usize) -> (r: String)
    requires
        i <= entries@.len(),
    ensures
        r@ == rendered(entries_view(entries@).skip(i as int)),
    decreases entries@.len() - i,
{
    let ghost v = entries_view(entries@);
    if i == entries.len() {
        proof {
            assert(v.skip(i as int) =~= Seq::<(Seq<char>, Seq<char>)>::empty());
        }
        String::new()
    } else {
        let mut s = entries[i].0.clone();
        s.append(":");
        s.append(entries[i].1.as_str());
        proof {
            assert(v.skip(i as int)[0] == v[i as int]);
            assert(s@ == render_entry(v.skip(i as int)[0]));
        }
        if i + 1 < entries.len() {
            s.append("::");
            let restr = render_from(entries, i + 1);
            s.append(restr.as_str());
            proof {
                assert(v.skip(i as int).drop_first() =~= v.skip(i as int + 1));
            }
        } else {
            proof {
                assert(v.skip(i as int).len() == 1);
            }
        }
        s
    }
}

/// Serialize an optional header set. `None` stays `None`; a present set —
/// even an empty one — becomes the joined `key:value` string.
fn render_header_string(headers: Option<&Headers>) -> (r: Option<String>)
    ensures
        r is None <==> headers is None,
        r matches Some(s) ==> (headers matches Some(h) && s@ == rendered(h@)),
{
    match headers {
        None => None,
        Some(h) => {
            let s = render_from(&h.entries, 0);
            proof {
                assert(entries_view(h.entries@).skip(0) =~= h@);
            }
            Some(s)
        },
    }
}

/// The URL actually placed on the wire: given headers (even zero of them),
/// their serialization rides behind the URL after a `"::"` separator.
pub open spec fn full_url(url: Seq<char>, headers: Option<Seq<(Seq<char>, Seq<char>)>>) -> Seq<
    char,
> {
    match headers {
        None => url,
        Some(hs) => url + "::"@ + rendered(hs),
    }
}

/// The body bytes placed on the wire: an absent body is empty.
pub open spec fn body_bytes(body: Option<Vec<u8>>) -> Seq<u8> {
    match body {
        Some(b) => b@,
        None => Seq::<u8>::empty(),
    }
}

/// The view of an optional header set.
pub open spec fn headers_view(headers: Option<&Headers>) -> Option<
    Seq<(Seq<char>, Seq<char>)>,
> {
    match headers {
        Some(h) => Some(h@),
        None => None,
    }
}

/// Everything except the fetch record and the prepared result is as it
/// was.
pub open spec fn only_fetched<H: HostRuntime>(a: &Ctx<H>, b: &Ctx<H>) -> bool {
    &&& b.ident == a.ident
    &&& b.arena@ == a.arena@
    &&& same_stores(&a.host, &b.host)
    &&& b.host.headers() == a.host.headers()
    &&& b.host.log() == a.host.log()
    &&& b.host.execs() == a.host.execs()
    &&& b.host.queries() == a.host.queries()
    &&& b.host.sent() == a.host.sent()
    &&& b.host.vars() == a.host.vars()
}

/// Issue one request and run the retrieval protocol on its answer. The
/// host sees exactly the full url (headers folded in) and the body bytes.
fn do_request<H: HostRuntime>(
    ctx: &mut Ctx<H>,
    method: i32,
    url: &str,
    body: Option<Vec<u8>>,
    headers: Option<&Headers>,
) -> (r: Result<Vec<u8>, HostErr>)
    ensures
        only_fetched(old(ctx), final(ctx)),
        final(ctx).host.fetches() == old(ctx).host.fetches().push(
            (
                method as int,
                encode_utf8(full_url(url@, headers_view(headers))),
                body_bytes(body),
            ),
        ),
        r matches Ok(d) ==> d@ == final(ctx).host.pending(),
        r matches Err(e) ==> e.message@ == unknown_err() || e.message@ == chars_of(
            final(ctx).host.pending(),
        ),
{
    let url_string: String = match render_header_string(headers) {
        Some(h) => {
            let mut s = String::from_str(url);
            s.append("::");
            s.append(h.as_str());
            s
        },
        None => String::from_str(url),
    };
    let s = match &body {
        Some(b) => ctx.host.fetch_url(
            method,
            url_string.as_str().as_bytes(),
            b.as_slice(),
            ctx.ident,
        ),
        None => {
            let empty: Vec<u8> = Vec::new();
            ctx.host.fetch_url(method, url_string.as_str().as_bytes(), empty.as_slice(), ctx.ident)
        },
    };
    ffi::result(ctx, s)
}

/// A GET request; absent headers leave the URL untouched.
pub fn get<H: HostRuntime>(ctx: &mut Ctx<H>, url: &str, headers: Option<&Headers>) -> (r: Result<
    Vec<u8>,
    HostErr,
>)
    ensures
        only_fetched(old(ctx), final(ctx)),
        final(ctx).host.fetches() == old(ctx).host.fetches().push(
            (
                Method::GET.code() as int,
                encode_utf8(full_url(url@, headers_view(headers))),
                Seq::<u8>::empty(),
            ),
        ),
        r matches Ok(d) ==> d@ == final(ctx).host.pending(),
        r matches Err(e) ==> e.message@ == unknown_err() || e.message@ == chars_of(
            final(ctx).host.pending(),
        ),
{
    do_request(ctx, Method::GET.code(), url, None, headers)
}

/// A HEAD request.
pub fn head<H: HostRuntime>(ctx: &mut Ctx<H>, url: &str, headers: Option<&Headers>) -> (r: Result<
    Vec<u8>,
    HostErr,
>)
    ensures
        only_fetched(old(ctx), final(ctx)),
        final(ctx).host.fetches() == old(ctx).host.fetches().push(
            (
                Method::HEAD.code() as int,
                encode_utf8(full_url(url@, headers_view(headers))),
                Seq::<u8>::empty(),
            ),
        ),
        r matches Ok(d) ==> d@ == final(ctx).host.pending(),
        r matches Err(e) ==> e.message@ == unknown_err() || e.message@ == chars_of(
            final(ctx).host.pending(),
        ),
{
    do_request(ctx, Method::HEAD.code(), url, None, headers)
}

/// An OPTIONS request.
pub fn options<H: HostRuntime>(ctx: &mut Ctx<H>, url: &str, headers: Option<&Headers>) -> (r:
    Result<Vec<u8>, HostErr>)
    ensures
        only_fetched(old(ctx), final(ctx)),
        final(ctx).host.fetches() == old(ctx).host.fetches().push(
            (
                Method::OPTIONS.code() as int,
                encode_utf8(full_url(url@, headers_view(headers))),
                Seq::<u8>::empty(),
            ),
        ),
        r matches Ok(d) ==> d@ == final(ctx).host.pending(),
        r matches Err(e) ==> e.message@ == unknown_err() || e.message@ == chars_of(
            final(ctx).host.pending(),
        ),
{
    do_request(ctx, Method::OPTIONS.code(), url, None, headers)
}

/// A POST request with an optional body.
pub fn post<H: HostRuntime>(
    ctx: &mut Ctx<H>,
    url: &str,
    body: Option<Vec<u8>>,
    headers: Option<&Headers>,
) -> (r: Result<Vec<u8>, HostErr>)
    ensures
        only_fetched(old(ctx), final(ctx)),
        final(ctx).host.fetches() == old(ctx).host.fetches().push(
            (
                Method::POST.code() as int,
                encode_utf8(full_url(url@, headers_view(headers))),
                body_bytes(body),
            ),
        ),
        r matches Ok(d) ==> d@ == final(ctx).host.pending(),
        r matches Err(e) ==> e.message@ == unknown_err() || e.message@ == chars_of(
            final(ctx).host.pending(),
        ),
{
    do_request(ctx, Method::POST.code(), url, body, headers)
}

/// A PUT request with an optional body.
pub fn put<H: HostRuntime>(
    ctx: &mut Ctx<H>,
    url: &str,
    body: Option<Vec<u8>>,
    headers: Option<&Headers>,
) -> (r: Result<Vec<u8>, HostErr>)
    ensures
        only_fetched(old(ctx), final(ctx)),
        final(ctx).host.fetches() == old(ctx).host.fetches().push(
            (
                Method::PUT.code() as int,
                encode_utf8(full_url(url@, headers_view(headers))),
                body_bytes(body),
            ),
        ),
        r matches Ok(d) ==> d@ == final(ctx).host.pending(),
        r matches Err(e) ==> e.message@ == unknown_err() || e.message@ == chars_of(
            final(ctx).host.pending(),
        ),
{
    do_request(ctx, Method::PUT.code(), url, body, headers)
}

/// A PATCH request with an optional body.
pub fn patch<H: HostRuntime>(
    ctx: &mut Ctx<H>,
    url: &str,
    body: Option<Vec<u8>>,
    headers: Option<&Headers>,
) -> (r: Result<Vec<u8>, HostErr>)
    ensures
        only_fetched(old(ctx), final(ctx)),
        final(ctx).host.fetches() == old(ctx).host.fetches().push(
            (
                Method::PATCH.code() as int,
                encode_utf8(full_url(url@, headers_view(headers))),
                body_bytes(body),
            ),
        ),
        r matches Ok(d) ==> d@ == final(ctx).host.pending(),
        r matches Err(e) ==> e.message@ == unknown_err() || e.message@ == chars_of(
            final(ctx).host.pending(),
        ),
{
    do_request(ctx, Method::PATCH.code(), url, body, headers)
}

/// A DELETE request.
pub fn delete<H: HostRuntime>(ctx: &mut Ctx<H>, url: &str, headers: Option<&Headers>) -> (r:
    Result<Vec<u8>, HostErr>)
    ensures
        only_fetched(old(ctx), final(ctx)),
        final(ctx).host.fetches() == old(ctx).host.fetches().push(
            (
                Method::DELETE.code() as int,
                encode_utf8(full_url(url@, headers_view(headers))),
                Seq::<u8>::empty(),
            ),
        ),
        r matches Ok(d) ==> d@ == final(ctx).host.pending(),
        r matches Err(e) ==> e.message@ == unknown_err() || e.message@ == chars_of(
            final(ctx).host.pending(),
        ),
{
    do_request(ctx, Method::DELETE.code(), url, None, headers)
}

} // verus!
