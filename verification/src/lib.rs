//! Guest-side support for modules loaded into a host-controlled execution
//! engine. The host delivers each request through an exported entry point
//! and supplies a fixed set of capabilities (network fetch, cache, database,
//! static files, GraphQL, request/response field access, logging); results
//! of variable length travel back through a two-step size-then-copy
//! protocol over an explicitly managed buffer arena.

use vstd::prelude::*;

pub mod cache;
pub mod db;
pub mod ffi;
pub mod file;
pub mod graphql;
pub mod handlers;
pub mod host;
pub mod http;
pub mod log;
pub mod mem;
pub mod req;
mod runnable;
pub mod resp;
pub mod util;

pub use crate::host::model::MemHost;
pub use crate::host::HostRuntime;
pub use crate::mem::Arena;
pub use crate::runnable::Guest;
pub use crate::runnable::HostErr;
pub use crate::runnable::RunErr;
pub use crate::runnable::Runnable;

verus! {

/// Everything one invocation threads through its capability calls: the host
/// connection, the guest memory arena, and the correlation identifier that
/// the entry point binds before the handler runs.
pub struct Ctx<H> {
    pub host: H,
    pub arena: Arena,
    pub ident: i32,
}

impl<H: HostRuntime> Ctx<H> {
    /// A fresh context around a host connection; no correlation identifier
    /// is bound yet.
    pub fn new(host: H) -> (c: Ctx<H>)
        ensures
            c.host == host,
            c.arena@ == Map::<int, Seq<u8>>::empty(),
            c.ident == 0,
    {
        Ctx { host, arena: Arena::new(), ident: 0 }
    }
}

} // verus!
