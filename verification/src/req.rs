//! The request-field capability: generic get/set access to the current
//! request's sub-resources, multiplexed over one import pair by a
//! field-type code.
//!
//! Reads are lossy on purpose for most field types: a missing key or a
//! transport failure collapses to an empty string. Only the `State` field
//! type keeps the difference between a missing key and a present empty
//! value, by answering with an `Option`.

pub mod field_type;

use vstd::prelude::*;

use crate::ffi;
use crate::host::same_records;
use crate::host::same_stores;
use crate::host::HostRuntime;
use crate::req::field_type::FieldType;
use crate::runnable::HostErr;
use crate::util;
use crate::util::chars_of;
use crate::Ctx;
use vstd::utf8::encode_utf8;

verus! {

/// The host-side key a field-type code and a key string address.
pub open spec fn field_key(ft: int, key: Seq<char>) -> (int, Seq<u8>) {
    (ft, encode_utf8(key))
}

/// A read left everything as it was.
pub open spec fn only_read<H: HostRuntime>(a: &Ctx<H>, b: &Ctx<H>) -> bool {
    &&& b.ident == a.ident
    &&& b.arena@ == a.arena@
    &&& same_stores(&a.host, &b.host)
    &&& same_records(&a.host, &b.host)
    &&& b.host.vars() == a.host.vars()
}

/// A write touched at most the request fields.
pub open spec fn only_wrote_fields<H: HostRuntime>(a: &Ctx<H>, b: &Ctx<H>) -> bool {
    &&& b.ident == a.ident
    &&& b.arena@ == a.arena@
    &&& b.host.cache() == a.host.cache()
    &&& b.host.files() == a.host.files()
    &&& same_records(&a.host, &b.host)
    &&& b.host.vars() == a.host.vars()
}

/// Read one raw field. `Some` is exactly the host's value for that field;
/// a missing field — and any transport failure — is `None`.
fn get_field<H: HostRuntime>(ctx: &mut Ctx<H>, field_type: i32, key: &str) -> (r: Option<Vec<u8>>)
    ensures
        only_read(old(ctx), final(ctx)),
        r matches Some(v) ==> old(ctx).host.fields().contains_key(
            field_key(field_type as int, key@),
        ) && v@ == old(ctx).host.fields()[field_key(field_type as int, key@)],
        !old(ctx).host.fields().contains_key(field_key(field_type as int, key@)) ==> r is None,
{
    let s = ctx.host.request_get_field(field_type, key.as_bytes(), ctx.ident);
    match ffi::result(ctx, s) {
        Ok(v) => Some(v),
        Err(_) => None,
    }
}

/// Write one raw field. `Ok` means the host now holds exactly this value
/// under the field's key; on an error the write may or may not have taken
/// effect, and nothing else changed either way.
fn set_field<H: HostRuntime>(ctx: &mut Ctx<H>, field_type: i32, key: &str, val: &str) -> (r: Result<
    (),
    HostErr,
>)
    ensures
        only_wrote_fields(old(ctx), final(ctx)),
        r is Ok ==> final(ctx).host.fields() == old(ctx).host.fields().insert(
            field_key(field_type as int, key@),
            encode_utf8(val@),
        ),
        final(ctx).host.fields() == old(ctx).host.fields().insert(
            field_key(field_type as int, key@),
            encode_utf8(val@),
        ) || final(ctx).host.fields() == old(ctx).host.fields(),
{
    let s = ctx.host.request_set_field(field_type, key.as_bytes(), val.as_bytes(), ctx.ident);
    match ffi::result(ctx, s) {
        Ok(_) => Ok(()),
        Err(e) => Err(e),
    }
}

/// What a lossy string read of a field can come back as: the field's value
/// read as characters, or the empty string (missing key, transport
/// failure, or invalid UTF-8).
pub open spec fn lossy_field_read<H: HostRuntime>(
    h: &H,
    ft: int,
    key: Seq<char>,
    r: Seq<char>,
) -> bool {
    &&& h.fields().contains_key(field_key(ft, key)) ==> (r == chars_of(
        h.fields()[field_key(ft, key)],
    ) || r == Seq::<char>::empty())
    &&& !h.fields().contains_key(field_key(ft, key)) ==> r == Seq::<char>::empty()
}

/// The request method (meta field "method").
pub fn method<H: HostRuntime>(ctx: &mut Ctx<H>) -> (r: String)
    ensures
        only_read(old(ctx), final(ctx)),
        lossy_field_read(&old(ctx).host, FieldType::Meta.code() as int, "method"@, r@),
{
    match get_field(ctx, FieldType::Meta.code(), "method") {
        Some(v) => util::to_string(v),
        None => String::new(),
    }
}

/// Overwrite the request method (meta field "method").
pub fn set_method<H: HostRuntime>(ctx: &mut Ctx<H>, val: &str) -> (r: Result<(), HostErr>)
    ensures
        only_wrote_fields(old(ctx), final(ctx)),
        r is Ok ==> final(ctx).host.fields() == old(ctx).host.fields().insert(
            field_key(FieldType::Meta.code() as int, "method"@),
            encode_utf8(val@),
        ),
        final(ctx).host.fields() == old(ctx).host.fields().insert(
            field_key(FieldType::Meta.code() as int, "method"@),
            encode_utf8(val@),
        ) || final(ctx).host.fields() == old(ctx).host.fields(),
{
    set_field(ctx, FieldType::Meta.code(), "method", val)
}

/// The request URL (meta field "url").
pub fn url<H: HostRuntime>(ctx: &mut Ctx<H>) -> (r: String)
    ensures
        only_read(old(ctx), final(ctx)),
        lossy_field_read(&old(ctx).host, FieldType::Meta.code() as int, "url"@, r@),
{
    match get_field(ctx, FieldType::Meta.code(), "url") {
        Some(v) => util::to_string(v),
        None => String::new(),
    }
}

/// Overwrite the request URL (meta field "url").
pub fn set_url<H: HostRuntime>(ctx: &mut Ctx<H>, val: &str) -> (r: Result<(), HostErr>)
    ensures
        only_wrote_fields(old(ctx), final(ctx)),
        r is Ok ==> final(ctx).host.fields() == old(ctx).host.fields().insert(
            field_key(FieldType::Meta.code() as int, "url"@),
            encode_utf8(val@),
        ),
        final(ctx).host.fields() == old(ctx).host.fields().insert(
            field_key(FieldType::Meta.code() as int, "url"@),
            encode_utf8(val@),
        ) || final(ctx).host.fields() == old(ctx).host.fields(),
{
    set_field(ctx, FieldType::Meta.code(), "url", val)
}

/// The request's correlation id (meta field "id").
pub fn id<H: HostRuntime>(ctx: &mut Ctx<H>) -> (r: String)
    ensures
        only_read(old(ctx), final(ctx)),
        lossy_field_read(&old(ctx).host, FieldType::Meta.code() as int, "id"@, r@),
{
    match get_field(ctx, FieldType::Meta.code(), "id") {
        Some(v) => util::to_string(v),
        None => String::new(),
    }
}

/// The raw request body (meta field "body"); missing collapses to empty.
pub fn body_raw<H: HostRuntime>(ctx: &mut Ctx<H>) -> (r: Vec<u8>)
    ensures
        only_read(old(ctx), final(ctx)),
        old(ctx).host.fields().contains_key(
            field_key(FieldType::Meta.code() as int, "body"@),
        ) ==> (r@ == old(ctx).host.fields()[field_key(FieldType::Meta.code() as int, "body"@)]
            || r@ == Seq::<u8>::empty()),
        !old(ctx).host.fields().contains_key(
            field_key(FieldType::Meta.code() as int, "body"@),
        ) ==> r@ == Seq::<u8>::empty(),
{
    match get_field(ctx, FieldType::Meta.code(), "body") {
        Some(v) => v,
        None => Vec::new(),
    }
}

/// Overwrite the request body (body field "body").
pub fn set_body<H: HostRuntime>(ctx: &mut Ctx<H>, val: &str) -> (r: Result<(), HostErr>)
    ensures
        only_wrote_fields(old(ctx), final(ctx)),
        r is Ok ==> final(ctx).host.fields() == old(ctx).host.fields().insert(
            field_key(FieldType::Body.code() as int, "body"@),
            encode_utf8(val@),
        ),
        final(ctx).host.fields() == old(ctx).host.fields().insert(
            field_key(FieldType::Body.code() as int, "body"@),
            encode_utf8(val@),
        ) || final(ctx).host.fields() == old(ctx).host.fields(),
{
    set_field(ctx, FieldType::Body.code(), "body", val)
}

/// One field parsed out of the request body.
pub fn body_field<H: HostRuntime>(ctx: &mut Ctx<H>, key: &str) -> (r: String)
    ensures
        only_read(old(ctx), final(ctx)),
        lossy_field_read(&old(ctx).host, FieldType::Body.code() as int, key@, r@),
{
    match get_field(ctx, FieldType::Body.code(), key) {
        Some(v) => util::to_string(v),
        None => String::new(),
    }
}

/// Write one field of the request body.
pub fn set_body_field<H: HostRuntime>(ctx: &mut Ctx<H>, key: &str, val: &str) -> (r: Result<
    (),
    HostErr,
>)
    ensures
        only_wrote_fields(old(ctx), final(ctx)),
        r is Ok ==> final(ctx).host.fields() == old(ctx).host.fields().insert(
            field_key(FieldType::Body.code() as int, key@),
            encode_utf8(val@),
        ),
        final(ctx).host.fields() == old(ctx).host.fields().insert(
            field_key(FieldType::Body.code() as int, key@),
            encode_utf8(val@),
        ) || final(ctx).host.fields() == old(ctx).host.fields(),
{
    set_field(ctx, FieldType::Body.code(), key, val)
}

/// One request header; missing collapses to the empty string.
pub fn header<H: HostRuntime>(ctx: &mut Ctx<H>, key: &str) -> (r: String)
    ensures
        only_read(old(ctx), final(ctx)),
        lossy_field_read(&old(ctx).host, FieldType::Header.code() as int, key@, r@),
{
    match get_field(ctx, FieldType::Header.code(), key) {
        Some(v) => util::to_string(v),
        None => String::new(),
    }
}

/// Write one request header.
pub fn set_header<H: HostRuntime>(ctx: &mut Ctx<H>, key: &str, val: &str) -> (r: Result<
    (),
    HostErr,
>)
    ensures
        only_wrote_fields(old(ctx), final(ctx)),
        r is Ok ==> final(ctx).host.fields() == old(ctx).host.fields().insert(
            field_key(FieldType::Header.code() as int, key@),
            encode_utf8(val@),
        ),
        final(ctx).host.fields() == old(ctx).host.fields().insert(
            field_key(FieldType::Header.code() as int, key@),
            encode_utf8(val@),
        ) || final(ctx).host.fields() == old(ctx).host.fields(),
{
    set_field(ctx, FieldType::Header.code(), key, val)
}

/// One URL parameter; missing collapses to the empty string.
pub fn url_param<H: HostRuntime>(ctx: &mut Ctx<H>, key: &str) -> (r: String)
    ensures
        only_read(old(ctx), final(ctx)),
        lossy_field_read(&old(ctx).host, FieldType::Params.code() as int, key@, r@),
{
    match get_field(ctx, FieldType::Params.code(), key) {
        Some(v) => util::to_string(v),
        None => String::new(),
    }
}

/// Write one URL parameter.
pub fn set_url_param<H: HostRuntime>(ctx: &mut Ctx<H>, key: &str, val: &str) -> (r: Result<
    (),
    HostErr,
>)
    ensures
        only_wrote_fields(old(ctx), final(ctx)),
        r is Ok ==> final(ctx).host.fields() == old(ctx).host.fields().insert(
            field_key(FieldType::Params.code() as int, key@),
            encode_utf8(val@),
        ),
        final(ctx).host.fields() == old(ctx).host.fields().insert(
            field_key(FieldType::Params.code() as int, key@),
            encode_utf8(val@),
        ) || final(ctx).host.fields() == old(ctx).host.fields(),
{
    set_field(ctx, FieldType::Params.code(), key, val)
}

/// One state entry, as a string. Unlike the other field types, state keeps
/// the difference between a missing key (`None`) and a present empty value
/// (`Some` of an empty string).
pub fn state<H: HostRuntime>(ctx: &mut Ctx<H>, key: &str) -> (r: Option<String>)
    ensures
        only_read(old(ctx), final(ctx)),
        r matches Some(s) ==> old(ctx).host.fields().contains_key(
            field_key(FieldType::State.code() as int, key@),
        ) && s@ == chars_of(
            old(ctx).host.fields()[field_key(FieldType::State.code() as int, key@)],
        ),
        !old(ctx).host.fields().contains_key(
            field_key(FieldType::State.code() as int, key@),
        ) ==> r is None,
{
    match get_field(ctx, FieldType::State.code(), key) {
        Some(v) => Some(util::to_string(v)),
        None => None,
    }
}

/// Write one state entry.
pub fn set_state<H: HostRuntime>(ctx: &mut Ctx<H>, key: &str, val: &str) -> (r: Result<
    (),
    HostErr,
>)
    ensures
        only_wrote_fields(old(ctx), final(ctx)),
        r is Ok ==> final(ctx).host.fields() == old(ctx).host.fields().insert(
            field_key(FieldType::State.code() as int, key@),
            encode_utf8(val@),
        ),
        final(ctx).host.fields() == old(ctx).host.fields().insert(
            field_key(FieldType::State.code() as int, key@),
            encode_utf8(val@),
        ) || final(ctx).host.fields() == old(ctx).host.fields(),
{
    set_field(ctx, FieldType::State.code(), key, val)
}

/// One state entry, raw. `None` is a missing key, `Some` the exact bytes.
pub fn state_raw<H: HostRuntime>(ctx: &mut Ctx<H>, key: &str) -> (r: Option<Vec<u8>>)
    ensures
        only_read(old(ctx), final(ctx)),
        r matches Some(v) ==> old(ctx).host.fields().contains_key(
            field_key(FieldType::State.code() as int, key@),
        ) && v@ == old(ctx).host.fields()[field_key(FieldType::State.code() as int, key@)],
        !old(ctx).host.fields().contains_key(
            field_key(FieldType::State.code() as int, key@),
        ) ==> r is None,
{
    get_field(ctx, FieldType::State.code(), key)
}

/// One query-string parameter; missing collapses to the empty string.
pub fn query_param<H: HostRuntime>(ctx: &mut Ctx<H>, key: &str) -> (r: String)
    ensures
        only_read(old(ctx), final(ctx)),
        lossy_field_read(&old(ctx).host, FieldType::Query.code() as int, key@, r@),
{
    match get_field(ctx, FieldType::Query.code(), key) {
        Some(v) => util::to_string(v),
        None => String::new(),
    }
}

} // verus!
