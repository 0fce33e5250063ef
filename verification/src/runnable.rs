//! The handler interface and the exported entry points the host calls.

use vstd::prelude::*;

use crate::host::same_stores;
use crate::host::HostRuntime;
use crate::Ctx;
use vstd::utf8::encode_utf8;
use vstd::string::StringExecFns;

verus! {

/// A structured application error: numeric code plus message. Terminates
/// the invocation and is reported to the host as-is.
#[derive(Debug)]
pub struct RunErr {
    pub code: i32,
    pub message: String,
}

impl RunErr {
    pub fn new(code: i32, msg: &str) -> (e: RunErr)
        ensures
            e.code == code,
            e.message@ == msg@,
    {
        RunErr { code, message: String::from_str(msg) }
    }
}

/// A message-only error produced by a failed transport call; never
/// escalated to a fault.
#[derive(Debug)]
pub struct HostErr {
    pub message: String,
}

impl HostErr {
    pub fn new(msg: &str) -> (e: HostErr)
        ensures
            e.message@ == msg@,
    {
        HostErr { message: String::from_str(msg) }
    }
}

/// The single user-supplied unit of logic, registered once per module
/// lifetime and invoked per request. A handler may issue any capability
/// calls through the context, but must leave the bound correlation
/// identifier alone.
pub trait Runnable<H: HostRuntime>: Sized {
    fn run(&self, ctx: &mut Ctx<H>, input: Vec<u8>) -> (r: Result<Vec<u8>, RunErr>)
        ensures
            final(ctx).ident == old(ctx).ident,
    ;
}

/// The guest module as the host drives it: the invocation context plus the
/// registered handler.
pub struct Guest<H, R> {
    pub ctx: Ctx<H>,
    pub runnable: Option<R>,
}

impl<H: HostRuntime, R: Runnable<H>> Guest<H, R> {
    /// A fresh guest around a host connection; no handler yet.
    pub fn new(host: H) -> (g: Guest<H, R>)
        ensures
            g.ctx.host == host,
            g.ctx.arena@ == Map::<int, Seq<u8>>::empty(),
            g.ctx.ident == 0,
            g.runnable is None,
    {
        Guest { ctx: Ctx::new(host), runnable: None }
    }

    /// Register the process-lifetime handler. Meant to be called once,
    /// right after load; calling it again replaces the handler (observed
    /// last-write-wins, not a promise of the wire contract).
    pub fn use_runnable(&mut self, runnable: R)
        ensures
            final(self).runnable == Some(runnable),
            final(self).ctx == old(self).ctx,
    {
        self.runnable = Some(runnable);
    }

    /// Exported: reserve `size` bytes of guest memory for the host to
    /// write into. The host must reclaim the handle through `deallocate`
    /// with the identical size, or hand it back through `run_e`.
    pub fn allocate(&mut self, size: i32) -> (h: usize)
        requires
            0 <= size,
        ensures
            !old(self).ctx.arena@.contains_key(h as int),
            final(self).ctx.arena@ == old(self).ctx.arena@.insert(
                h as int,
                Seq::new(size as nat, |i: int| 0u8),
            ),
            final(self).ctx.host == old(self).ctx.host,
            final(self).ctx.ident == old(self).ctx.ident,
            final(self).runnable == old(self).runnable,
    {
        self.ctx.arena.allocate(size)
    }

    /// The host's write into an allocation it was handed: the buffer must
    /// be sized to fit the data exactly.
    pub fn write(&mut self, h: usize, data: Vec<u8>)
        requires
            old(self).ctx.arena@.contains_key(h as int),
            old(self).ctx.arena@[h as int].len() == data@.len(),
        ensures
            final(self).ctx.arena@ == old(self).ctx.arena@.insert(h as int, data@),
            final(self).ctx.host == old(self).ctx.host,
            final(self).ctx.ident == old(self).ctx.ident,
            final(self).runnable == old(self).runnable,
    {
        self.ctx.arena.write(h, data)
    }

    /// Exported: reclaim an allocation, which must have been made with
    /// this exact size.
    pub fn deallocate(&mut self, h: usize, size: i32)
        requires
            old(self).ctx.arena@.contains_key(h as int),
            old(self).ctx.arena@[h as int].len() == size,
        ensures
            final(self).ctx.arena@ == old(self).ctx.arena@.remove(h as int),
            final(self).ctx.host == old(self).ctx.host,
            final(self).ctx.ident == old(self).ctx.ident,
            final(self).runnable == old(self).runnable,
    {
        let _reclaimed = self.ctx.arena.deallocate(h, size);
    }

    /// Exported: the main dispatch. Binds `ident` for the whole
    /// invocation, takes ownership of the input buffer at `address` (so
    /// the host does not deallocate it separately), runs the registered
    /// handler, and delivers its payload or error back to the host. With
    /// no handler registered nothing is invoked, and the host receives
    /// exactly the sentinel error: code `-1`, message `"No runnable set"`.
    pub fn run_e(&mut self, address: usize, size: i32, ident: i32)
        requires
            old(self).ctx.arena@.contains_key(address as int),
            old(self).ctx.arena@[address as int].len() == size,
        ensures
            final(self).ctx.ident == ident,
            final(self).runnable == old(self).runnable,
            final(self).ctx.host.sent() is Some,
            old(self).runnable is None ==> {
                &&& final(self).ctx.host.sent() == Some(
                    Result::<Seq<u8>, (int, Seq<u8>)>::Err(
                        (-1int, encode_utf8("No runnable set"@)),
                    ),
                )
                &&& final(self).ctx.arena@ == old(self).ctx.arena@.remove(address as int)
                &&& same_stores(&old(self).ctx.host, &final(self).ctx.host)
                &&& final(self).ctx.host.headers() == old(self).ctx.host.headers()
                &&& final(self).ctx.host.log() == old(self).ctx.host.log()
                &&& final(self).ctx.host.execs() == old(self).ctx.host.execs()
                &&& final(self).ctx.host.fetches() == old(self).ctx.host.fetches()
                &&& final(self).ctx.host.queries() == old(self).ctx.host.queries()
                &&& final(self).ctx.host.vars() == old(self).ctx.host.vars()
            },
    {
        self.ctx.ident = ident;
        let input = self.ctx.arena.deallocate(address, size);
        let outcome = execute_runnable(&self.runnable, &mut self.ctx, input);
        deliver(&mut self.ctx, outcome);
    }
}

/// Run the handler if one is registered; with none, the outcome is the
/// fixed sentinel error — code `-1`, message `"No runnable set"` — and
/// nothing is invoked.
fn execute_runnable<H: HostRuntime, R: Runnable<H>>(
    runnable: &Option<R>,
    ctx: &mut Ctx<H>,
    data: Vec<u8>,
) -> (r: Result<Vec<u8>, RunErr>)
    ensures
        final(ctx).ident == old(ctx).ident,
        runnable is None ==> {
            &&& r matches Err(e) && e.code == -1 && e.message@ == "No runnable set"@
            &&& *final(ctx) == *old(ctx)
        },
{
    match runnable {
        Some(r) => r.run(ctx, data),
        None => Err(RunErr::new(-1, "No runnable set")),
    }
}

/// Report one outcome to the host: the payload through the result import,
/// or the code and message through the error import.
fn deliver<H: HostRuntime>(ctx: &mut Ctx<H>, outcome: Result<Vec<u8>, RunErr>)
    ensures
        final(ctx).ident == old(ctx).ident,
        final(ctx).arena@ == old(ctx).arena@,
        same_stores(&old(ctx).host, &final(ctx).host),
        final(ctx).host.pending() == old(ctx).host.pending(),
        final(ctx).host.vars() == old(ctx).host.vars(),
        final(ctx).host.headers() == old(ctx).host.headers(),
        final(ctx).host.log() == old(ctx).host.log(),
        final(ctx).host.execs() == old(ctx).host.execs(),
        final(ctx).host.fetches() == old(ctx).host.fetches(),
        final(ctx).host.queries() == old(ctx).host.queries(),
        outcome matches Ok(d) ==> final(ctx).host.sent() == Some(
            Result::<Seq<u8>, (int, Seq<u8>)>::Ok(d@),
        ),
        outcome matches Err(e) ==> final(ctx).host.sent() == Some(
            Result::<Seq<u8>, (int, Seq<u8>)>::Err((e.code as int, encode_utf8(e.message@))),
        ),
{
    match outcome {
        Ok(data) => ctx.host.return_result(data.as_slice(), ctx.ident),
        Err(e) => ctx.host.return_error(e.code, e.message.as_str().as_bytes(), ctx.ident),
    }
}

} // verus!
