//! The imported-operation contract: everything the guest assumes of the
//! embedding host.
//!
//! Each method is one import of the wire protocol. The spec functions are
//! the host-side state those imports act on; a method's contract says how
//! one call moves that state, and which parts it leaves alone. Results of
//! variable length are never returned directly: a size-returning import
//! prepares them host-side (`pending`), and `get_ffi_result` copies them
//! into a guest buffer — the two-step retrieval protocol.
//!
//! Every size-returning import signals failure through its sign: `-1` means
//! an unknown error with nothing prepared, any other negative value means an
//! error message of that many bytes is prepared. Every status-returning
//! import returns `0` for success and any non-zero value for an opaque
//! failure.

pub mod model;

use vstd::prelude::*;

use crate::mem::Arena;

verus! {

/// Byte count named by a size-returning import: the magnitude of the size.
pub open spec fn abs_size(s: int) -> int {
    if s < 0 {
        -s
    } else {
        s
    }
}

/// The host connection, as the guest is allowed to reason about it.
///
/// An implementation may fail any call at any time (statuses and sizes are
/// its to choose), but whenever it reports success it must have done what
/// the contract says. `MemHost` is an in-memory reference implementation.
pub trait HostRuntime: Sized {
    /// Result bytes prepared for the next copy call.
    spec fn pending(&self) -> Seq<u8>;

    /// The key-value cache.
    spec fn cache(&self) -> Map<Seq<u8>, Seq<u8>>;

    /// Request fields: (field-type wire code, key) -> value.
    spec fn fields(&self) -> Map<(int, Seq<u8>), Seq<u8>>;

    /// Static files served by the host.
    spec fn files(&self) -> Map<Seq<u8>, Seq<u8>>;

    /// Response headers observed so far, in call order.
    spec fn headers(&self) -> Seq<(Seq<u8>, Seq<u8>)>;

    /// Log lines observed so far: (level code, message), in call order.
    spec fn log(&self) -> Seq<(int, Seq<u8>)>;

    /// Named arguments staged for the next database operation.
    spec fn vars(&self) -> Seq<(Seq<u8>, Seq<u8>)>;

    /// Database operations issued: (query-type code, statement name, staged
    /// arguments at the time of the call), in call order.
    spec fn execs(&self) -> Seq<(int, Seq<u8>, Seq<(Seq<u8>, Seq<u8>)>)>;

    /// HTTP requests issued: (method code, url bytes, body bytes), in call
    /// order.
    spec fn fetches(&self) -> Seq<(int, Seq<u8>, Seq<u8>)>;

    /// GraphQL queries issued: (endpoint, query), in call order.
    spec fn queries(&self) -> Seq<(Seq<u8>, Seq<u8>)>;

    /// The outcome delivered for the current invocation, if any:
    /// a success payload or an error (code, message).
    spec fn sent(&self) -> Option<Result<Seq<u8>, (int, Seq<u8>)>>;

    /// Copy the prepared result into the guest allocation at `h`, which the
    /// guest must have sized to fit it exactly. Non-zero status is failure;
    /// the buffer keeps its size either way, but its contents are only
    /// known on success.
    fn get_ffi_result(&mut self, arena: &mut Arena, h: usize, ident: i32) -> (status: i32)
        requires
            old(arena)@.contains_key(h as int),
            old(arena)@[h as int].len() == old(self).pending().len(),
        ensures
            final(arena)@.dom() == old(arena)@.dom(),
            final(arena)@[h as int].len() == old(arena)@[h as int].len(),
            forall|k: int|
                k != h as int && old(arena)@.contains_key(k) ==> final(arena)@[k] == old(
                    arena,
                )@[k],
            status == 0 ==> final(arena)@ == old(arena)@.insert(h as int, old(self).pending()),
            final(self).pending() == old(self).pending(),
            final(self).cache() == old(self).cache(),
            final(self).fields() == old(self).fields(),
            final(self).files() == old(self).files(),
            final(self).headers() == old(self).headers(),
            final(self).log() == old(self).log(),
            final(self).execs() == old(self).execs(),
            final(self).fetches() == old(self).fetches(),
            final(self).queries() == old(self).queries(),
            final(self).sent() == old(self).sent(),
            final(self).vars() == old(self).vars(),
    ;

    /// Stage one named argument for the next database operation.
    fn add_ffi_var(&mut self, name: &[u8], value: &[u8], ident: i32) -> (status: i32)
        ensures
            status == 0 ==> final(self).vars() == old(self).vars().push((name@, value@)),
            status != 0 ==> final(self).vars() == old(self).vars(),
            final(self).pending() == old(self).pending(),
            final(self).cache() == old(self).cache(),
            final(self).fields() == old(self).fields(),
            final(self).files() == old(self).files(),
            final(self).headers() == old(self).headers(),
            final(self).log() == old(self).log(),
            final(self).execs() == old(self).execs(),
            final(self).fetches() == old(self).fetches(),
            final(self).queries() == old(self).queries(),
            final(self).sent() == old(self).sent(),
    ;

    /// Issue an HTTP request. The headers travel inside the url bytes,
    /// appended by the caller; the host sees exactly what is passed here.
    fn fetch_url(&mut self, method: i32, url: &[u8], body: &[u8], ident: i32) -> (s: i32)
        ensures
            s > i32::MIN,
            s != -1 ==> final(self).pending().len() == abs_size(s as int),
            final(self).fetches() == old(self).fetches().push((method as int, url@, body@)),
            final(self).cache() == old(self).cache(),
            final(self).fields() == old(self).fields(),
            final(self).files() == old(self).files(),
            final(self).headers() == old(self).headers(),
            final(self).log() == old(self).log(),
            final(self).execs() == old(self).execs(),
            final(self).queries() == old(self).queries(),
            final(self).sent() == old(self).sent(),
            final(self).vars() == old(self).vars(),
    ;

    /// Store a value in the host's cache under `key`, with a time-to-live
    /// hint.
    fn cache_set(&mut self, key: &[u8], value: &[u8], ttl: i32, ident: i32) -> (status: i32)
        ensures
            status == 0 ==> final(self).cache() == old(self).cache().insert(key@, value@),
            status != 0 ==> final(self).cache() == old(self).cache(),
            final(self).fields() == old(self).fields(),
            final(self).files() == old(self).files(),
            final(self).pending() == old(self).pending(),
            final(self).headers() == old(self).headers(),
            final(self).log() == old(self).log(),
            final(self).execs() == old(self).execs(),
            final(self).fetches() == old(self).fetches(),
            final(self).queries() == old(self).queries(),
            final(self).sent() == old(self).sent(),
            final(self).vars() == old(self).vars(),
    ;

    /// Look a key up in the host's cache. On success the prepared bytes are
    /// the cached value, or empty if the key holds nothing.
    fn cache_get(&mut self, key: &[u8], ident: i32) -> (s: i32)
        ensures
            s > i32::MIN,
            s != -1 ==> final(self).pending().len() == abs_size(s as int),
            s >= 0 ==> final(self).pending() == if old(self).cache().contains_key(key@) {
                old(self).cache()[key@]
            } else {
                Seq::<u8>::empty()
            },
            final(self).cache() == old(self).cache(),
            final(self).fields() == old(self).fields(),
            final(self).files() == old(self).files(),
            final(self).headers() == old(self).headers(),
            final(self).log() == old(self).log(),
            final(self).execs() == old(self).execs(),
            final(self).fetches() == old(self).fetches(),
            final(self).queries() == old(self).queries(),
            final(self).sent() == old(self).sent(),
            final(self).vars() == old(self).vars(),
    ;

    /// Run the pre-loaded statement named `name` in mode `query_type`, with
    /// the staged arguments; staging is consumed by the call.
    fn db_exec(&mut self, query_type: i32, name: &[u8], ident: i32) -> (s: i32)
        ensures
            s > i32::MIN,
            s != -1 ==> final(self).pending().len() == abs_size(s as int),
            final(self).execs() == old(self).execs().push(
                (query_type as int, name@, old(self).vars()),
            ),
            final(self).vars() == Seq::<(Seq<u8>, Seq<u8>)>::empty(),
            final(self).cache() == old(self).cache(),
            final(self).fields() == old(self).fields(),
            final(self).files() == old(self).files(),
            final(self).headers() == old(self).headers(),
            final(self).log() == old(self).log(),
            final(self).fetches() == old(self).fetches(),
            final(self).queries() == old(self).queries(),
            final(self).sent() == old(self).sent(),
    ;

    /// Fetch a static file bundled with the module. On success the prepared
    /// bytes are that file's contents; an absent name is never a success.
    fn get_static_file(&mut self, name: &[u8], ident: i32) -> (s: i32)
        ensures
            s > i32::MIN,
            s != -1 ==> final(self).pending().len() == abs_size(s as int),
            s >= 0 ==> old(self).files().contains_key(name@) && final(self).pending() == old(
                self).files()[name@],
            final(self).cache() == old(self).cache(),
            final(self).fields() == old(self).fields(),
            final(self).files() == old(self).files(),
            final(self).headers() == old(self).headers(),
            final(self).log() == old(self).log(),
            final(self).execs() == old(self).execs(),
            final(self).fetches() == old(self).fetches(),
            final(self).queries() == old(self).queries(),
            final(self).sent() == old(self).sent(),
            final(self).vars() == old(self).vars(),
    ;

    /// Send a GraphQL query to `endpoint`.
    fn graphql_query(&mut self, endpoint: &[u8], query: &[u8], ident: i32) -> (s: i32)
        ensures
            s > i32::MIN,
            s != -1 ==> final(self).pending().len() == abs_size(s as int),
            final(self).queries() == old(self).queries().push((endpoint@, query@)),
            final(self).cache() == old(self).cache(),
            final(self).fields() == old(self).fields(),
            final(self).files() == old(self).files(),
            final(self).headers() == old(self).headers(),
            final(self).log() == old(self).log(),
            final(self).execs() == old(self).execs(),
            final(self).fetches() == old(self).fetches(),
            final(self).sent() == old(self).sent(),
            final(self).vars() == old(self).vars(),
    ;

    /// Read one request field. On success the prepared bytes are the field's
    /// value; an absent field is never a success, which is what lets the
    /// guest tell a missing key from a present empty one.
    fn request_get_field(&mut self, field_type: i32, key: &[u8], ident: i32) -> (s: i32)
        ensures
            s > i32::MIN,
            s != -1 ==> final(self).pending().len() == abs_size(s as int),
            s >= 0 ==> old(self).fields().contains_key((field_type as int, key@)) && final(
                self).pending() == old(self).fields()[(field_type as int, key@)],
            final(self).cache() == old(self).cache(),
            final(self).fields() == old(self).fields(),
            final(self).files() == old(self).files(),
            final(self).headers() == old(self).headers(),
            final(self).log() == old(self).log(),
            final(self).execs() == old(self).execs(),
            final(self).fetches() == old(self).fetches(),
            final(self).queries() == old(self).queries(),
            final(self).sent() == old(self).sent(),
            final(self).vars() == old(self).vars(),
    ;

    /// Write one request field. The write took effect exactly when the call
    /// reports a size rather than an error.
    fn request_set_field(&mut self, field_type: i32, key: &[u8], value: &[u8], ident: i32) -> (s:
        i32)
        ensures
            s > i32::MIN,
            s != -1 ==> final(self).pending().len() == abs_size(s as int),
            s >= 0 ==> final(self).fields() == old(self).fields().insert(
                (field_type as int, key@),
                value@,
            ),
            s < 0 ==> final(self).fields() == old(self).fields(),
            final(self).cache() == old(self).cache(),
            final(self).files() == old(self).files(),
            final(self).headers() == old(self).headers(),
            final(self).log() == old(self).log(),
            final(self).execs() == old(self).execs(),
            final(self).fetches() == old(self).fetches(),
            final(self).queries() == old(self).queries(),
            final(self).sent() == old(self).sent(),
            final(self).vars() == old(self).vars(),
    ;

    /// Set one response header; observed by the host in call order.
    fn resp_set_header(&mut self, key: &[u8], value: &[u8], ident: i32)
        ensures
            final(self).headers() == old(self).headers().push((key@, value@)),
            final(self).pending() == old(self).pending(),
            final(self).cache() == old(self).cache(),
            final(self).fields() == old(self).fields(),
            final(self).files() == old(self).files(),
            final(self).log() == old(self).log(),
            final(self).execs() == old(self).execs(),
            final(self).fetches() == old(self).fetches(),
            final(self).queries() == old(self).queries(),
            final(self).sent() == old(self).sent(),
            final(self).vars() == old(self).vars(),
    ;

    /// Emit one log line at the given severity code.
    fn log_msg(&mut self, msg: &[u8], level: i32, ident: i32)
        ensures
            final(self).log() == old(self).log().push((level as int, msg@)),
            final(self).pending() == old(self).pending(),
            final(self).cache() == old(self).cache(),
            final(self).fields() == old(self).fields(),
            final(self).files() == old(self).files(),
            final(self).headers() == old(self).headers(),
            final(self).execs() == old(self).execs(),
            final(self).fetches() == old(self).fetches(),
            final(self).queries() == old(self).queries(),
            final(self).sent() == old(self).sent(),
            final(self).vars() == old(self).vars(),
    ;

    /// Deliver the invocation's success payload.
    fn return_result(&mut self, data: &[u8], ident: i32)
        ensures
            final(self).sent() == Some(Result::<Seq<u8>, (int, Seq<u8>)>::Ok(data@)),
            final(self).pending() == old(self).pending(),
            final(self).cache() == old(self).cache(),
            final(self).fields() == old(self).fields(),
            final(self).files() == old(self).files(),
            final(self).headers() == old(self).headers(),
            final(self).log() == old(self).log(),
            final(self).execs() == old(self).execs(),
            final(self).fetches() == old(self).fetches(),
            final(self).queries() == old(self).queries(),
            final(self).vars() == old(self).vars(),
    ;

    /// Deliver the invocation's error: a code and a message.
    fn return_error(&mut self, code: i32, msg: &[u8], ident: i32)
        ensures
            final(self).sent() == Some(
                Result::<Seq<u8>, (int, Seq<u8>)>::Err((code as int, msg@)),
            ),
            final(self).pending() == old(self).pending(),
            final(self).cache() == old(self).cache(),
            final(self).fields() == old(self).fields(),
            final(self).files() == old(self).files(),
            final(self).headers() == old(self).headers(),
            final(self).log() == old(self).log(),
            final(self).execs() == old(self).execs(),
            final(self).fetches() == old(self).fetches(),
            final(self).queries() == old(self).queries(),
            final(self).vars() == old(self).vars(),
    ;

}

/// The host's persistent stores are as they were in `a`.
pub open spec fn same_stores<H: HostRuntime>(a: &H, b: &H) -> bool {
    &&& b.cache() == a.cache()
    &&& b.fields() == a.fields()
    &&& b.files() == a.files()
}

/// Nothing new was issued to the host since `a`: response headers, log
/// lines, database operations, fetches, queries, and the delivered result
/// are all as they were.
pub open spec fn same_records<H: HostRuntime>(a: &H, b: &H) -> bool {
    &&& b.headers() == a.headers()
    &&& b.log() == a.log()
    &&& b.execs() == a.execs()
    &&& b.fetches() == a.fetches()
    &&& b.queries() == a.queries()
    &&& b.sent() == a.sent()
}

} // verus!
