//! The two-step result-retrieval protocol.
//!
//! Every capability that returns variable-length data goes through the same
//! motions: an initiating import answers an integer `size`; unless that is
//! the `-1` sentinel, the guest allocates `abs(size)` bytes and asks the
//! host to copy the prepared result into them; the sign of `size` then
//! decides whether those bytes are the payload or an error message. The
//! host computes the result's length before the guest can size a buffer for
//! it, which is why the retrieval cannot be collapsed into a single call.

use vstd::prelude::*;

use crate::host::abs_size;
use crate::host::same_records;
use crate::host::same_stores;
use crate::host::HostRuntime;
use crate::runnable::HostErr;
use crate::util;
use crate::util::chars_of;
use crate::Ctx;
use vstd::utf8::encode_utf8;

verus! {

/// The fixed message for a transport failure whose cause the host did not
/// report: the initiating call answered `-1`, or the copy call failed.
pub open spec fn unknown_err() -> Seq<char> {
    "unknown error returned from host"@
}

/// The fixed transport error, ready to hand out.
pub fn unknown_host_err() -> (e: HostErr)
    ensures
        e.message@ == unknown_err(),
{
    HostErr::new("unknown error returned from host")
}

/// Decide the outcome of one retrieval, given the initiating call's `size`
/// and the copy call's `status` and copied bytes. This is the whole
/// error-signalling convention in one place: a non-zero copy status is the
/// fixed unknown error no matter what `size` said; otherwise a
/// non-negative `size` means success with the copied bytes as payload, and
/// a negative one means failure with those bytes read as the message.
pub fn interpret_result(size: i32, status: i32, data: Vec<u8>) -> (r: Result<Vec<u8>, HostErr>)
    ensures
        status != 0 ==> (r matches Err(e) && e.message@ == unknown_err()),
        status == 0 && size >= 0 ==> (r matches Ok(d) && d@ == data@),
        status == 0 && size < 0 ==> (r matches Err(e) && e.message@ == chars_of(data@)),
{
    if status != 0 {
        Err(unknown_host_err())
    } else if size >= 0 {
        Ok(data)
    } else {
        Err(HostErr { message: util::to_string(data) })
    }
}

/// One full run of the retrieval protocol, after an initiating import
/// answered `size`. Succeeds exactly when `size` was non-negative and the
/// copy call went through, and then hands back precisely the bytes the
/// host had prepared; every failure is either the fixed unknown error or,
/// for `size < -1`, the prepared bytes read as a message.
pub fn result<H: HostRuntime>(ctx: &mut Ctx<H>, size: i32) -> (r: Result<Vec<u8>, HostErr>)
    requires
        size > i32::MIN,
        size != -1 ==> old(ctx).host.pending().len() == abs_size(size as int),
    ensures
        final(ctx).ident == old(ctx).ident,
        final(ctx).arena@ == old(ctx).arena@,
        final(ctx).host.pending() == old(ctx).host.pending(),
        same_stores(&old(ctx).host, &final(ctx).host),
        same_records(&old(ctx).host, &final(ctx).host),
        final(ctx).host.vars() == old(ctx).host.vars(),
        size == -1 ==> (r matches Err(e) && e.message@ == unknown_err()),
        size < 0 ==> r is Err,
        r matches Ok(d) ==> (size >= 0 && d@ == old(ctx).host.pending() && d@.len() == abs_size(
            size as int,
        )),
        r matches Err(e) ==> e.message@ == unknown_err() || (size < -1 && e.message@ == chars_of(
            old(ctx).host.pending(),
        )),
{
    if size == -1 {
        return Err(unknown_host_err());
    }
    let n: i32 = if size < 0 {
        -size
    } else {
        size
    };
    let h = ctx.arena.allocate(n);
    let status = ctx.host.get_ffi_result(&mut ctx.arena, h, ctx.ident);
    let data = ctx.arena.deallocate(h, n);
    proof {
        assert(ctx.arena@ =~= old(ctx).arena@);
    }
    interpret_result(size, status, data)
}

/// Stage one named argument for the next database operation. A failure of
/// the staging import is not reported back; the operation call that
/// follows simply runs with fewer arguments staged.
pub fn add_var<H: HostRuntime>(ctx: &mut Ctx<H>, name: &str, value: &str)
    ensures
        final(ctx).ident == old(ctx).ident,
        final(ctx).arena@ == old(ctx).arena@,
        final(ctx).host.pending() == old(ctx).host.pending(),
        same_stores(&old(ctx).host, &final(ctx).host),
        same_records(&old(ctx).host, &final(ctx).host),
        final(ctx).host.vars() == old(ctx).host.vars().push(
            (encode_utf8(name@), encode_utf8(value@)),
        ) || final(ctx).host.vars() == old(ctx).host.vars(),
{
    let _status: i32 = ctx.host.add_ffi_var(name.as_bytes(), value.as_bytes(), ctx.ident);
}

} // verus!
