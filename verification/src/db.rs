//! The database capability.
//!
//! Named arguments are staged one at a time through the variable-staging
//! import *before* the operation call; the operation call itself carries
//! only an operation-type code and a prepared-statement name, and consumes
//! whatever is staged. The result shape depends on the operation: an
//! insert answers `{"lastInsertID": …}`, an update or delete answers
//! `{"rowsAffected": …}`, and a select answers an array of row objects
//! keyed by column name.

pub mod query;

use vstd::prelude::*;

use crate::db::query::QueryArg;
use crate::db::query::QueryType;
use crate::ffi;
use crate::ffi::unknown_err;
use crate::host::same_stores;
use crate::host::HostRuntime;
use crate::runnable::HostErr;
use crate::util::chars_of;
use crate::Ctx;
use vstd::utf8::encode_utf8;

verus! {

/// The wire form of a list of query arguments.
pub open spec fn args_view(args: Seq<QueryArg>) -> Seq<(Seq<u8>, Seq<u8>)> {
    args.map_values(|a: QueryArg| (encode_utf8(a.name@), encode_utf8(a.value@)))
}

/// `staged` is `attempted` with zero or more elements dropped and the
/// order kept: what the staging area can hold after best-effort adds.
pub open spec fn subsequence_of(
    staged: Seq<(Seq<u8>, Seq<u8>)>,
    attempted: Seq<(Seq<u8>, Seq<u8>)>,
) -> bool
    decreases attempted.len(),
{
    if staged.len() == 0 {
        true
    } else if attempted.len() == 0 {
        false
    } else if staged[0] == attempted[0] {
        subsequence_of(staged.drop_first(), attempted.drop_first())
    } else {
        subsequence_of(staged, attempted.drop_first())
    }
}

/// Every sequence is a subsequence of itself.
proof fn lemma_subsequence_refl(s: Seq<(Seq<u8>, Seq<u8>)>)
    ensures
        subsequence_of(s, s),
    decreases s.len(),
{
    if s.len() > 0 {
        lemma_subsequence_refl(s.drop_first());
    }
}

/// Appending the same element to both sides keeps the relation.
proof fn lemma_subsequence_push_both(
    staged: Seq<(Seq<u8>, Seq<u8>)>,
    attempted: Seq<(Seq<u8>, Seq<u8>)>,
    x: (Seq<u8>, Seq<u8>),
)
    requires
        subsequence_of(staged, attempted),
    ensures
        subsequence_of(staged.push(x), attempted.push(x)),
    decreases attempted.len(),
{
    let s2 = staged.push(x);
    let a2 = attempted.push(x);
    if staged.len() == 0 {
        if attempted.len() == 0 {
            assert(s2 =~= a2);
            lemma_subsequence_refl(s2);
        } else {
            assert(s2[0] == x);
            assert(a2[0] == attempted[0]);
            assert(a2.drop_first() =~= attempted.drop_first().push(x));
            if x == attempted[0] {
                assert(s2.drop_first() =~= staged);
                assert(subsequence_of(s2.drop_first(), a2.drop_first()));
            } else {
                lemma_subsequence_push_both(staged, attempted.drop_first(), x);
            }
            assert(subsequence_of(s2, a2));
        }
    } else {
        assert(s2[0] == staged[0]);
        assert(a2[0] == attempted[0]);
        assert(a2.drop_first() =~= attempted.drop_first().push(x));
        if staged[0] == attempted[0] {
            lemma_subsequence_push_both(staged.drop_first(), attempted.drop_first(), x);
            assert(s2.drop_first() =~= staged.drop_first().push(x));
        } else {
            lemma_subsequence_push_both(staged, attempted.drop_first(), x);
        }
        assert(subsequence_of(s2, a2));
    }
}

/// Appending to the attempted side alone keeps the relation.
proof fn lemma_subsequence_push_right(
    staged: Seq<(Seq<u8>, Seq<u8>)>,
    attempted: Seq<(Seq<u8>, Seq<u8>)>,
    x: (Seq<u8>, Seq<u8>),
)
    requires
        subsequence_of(staged, attempted),
    ensures
        subsequence_of(staged, attempted.push(x)),
    decreases attempted.len(),
{
    if staged.len() == 0 {
    } else if attempted.len() == 0 {
    } else {
        assert(attempted.push(x)[0] == attempted[0]);
        if staged[0] == attempted[0] {
            lemma_subsequence_push_right(staged.drop_first(), attempted.drop_first(), x);
            assert(attempted.push(x).drop_first() =~= attempted.drop_first().push(x));
        } else {
            lemma_subsequence_push_right(staged, attempted.drop_first(), x);
            assert(attempted.push(x).drop_first() =~= attempted.drop_first().push(x));
        }
    }
}

/// Everything except the database record, the staging area and the
/// prepared result is as it was.
pub open spec fn only_db<H: HostRuntime>(a: &Ctx<H>, b: &Ctx<H>) -> bool {
    &&& b.ident == a.ident
    &&& b.arena@ == a.arena@
    &&& same_stores(&a.host, &b.host)
    &&& b.host.headers() == a.host.headers()
    &&& b.host.log() == a.host.log()
    &&& b.host.fetches() == a.host.fetches()
    &&& b.host.queries() == a.host.queries()
    &&& b.host.sent() == a.host.sent()
}

/// One database operation was issued: the statement named `name`, in mode
/// `code`, with the previously staged arguments plus a best-effort staging
/// of `args`, in order; the staging area is consumed.
pub open spec fn issued_db_op<H: HostRuntime>(
    a: &Ctx<H>,
    b: &Ctx<H>,
    code: int,
    name: Seq<char>,
    args: Seq<QueryArg>,
) -> bool {
    &&& b.host.execs().len() == a.host.execs().len() + 1
    &&& b.host.execs().drop_last() == a.host.execs()
    &&& b.host.execs().last().0 == code
    &&& b.host.execs().last().1 == encode_utf8(name)
    &&& subsequence_of(b.host.execs().last().2, a.host.vars() + args_view(args))
    &&& b.host.vars() == Seq::<(Seq<u8>, Seq<u8>)>::empty()
}

/// Stage `args` in order, then run the statement named `name` in mode
/// `query_type`, and retrieve its result.
fn run_query<H: HostRuntime>(
    ctx: &mut Ctx<H>,
    query_type: i32,
    name: &str,
    args: Vec<QueryArg>,
) -> (r: Result<Vec<u8>, HostErr>)
    ensures
        only_db(old(ctx), final(ctx)),
        issued_db_op(old(ctx), final(ctx), query_type as int, name@, args@),
        r matches Ok(d) ==> d@ == final(ctx).host.pending(),
        r matches Err(e) ==> e.message@ == unknown_err() || e.message@ == chars_of(
            final(ctx).host.pending(),
        ),
{
    proof {
        lemma_subsequence_refl(old(ctx).host.vars());
        assert(old(ctx).host.vars() + args_view(args@.take(0)) =~= old(ctx).host.vars());
    }
    let mut i: usize = 0;
    while i < args.len()
        invariant
            i <= args.len(),
            ctx.ident == old(ctx).ident,
            ctx.arena@ == old(ctx).arena@,
            ctx.host.pending() == old(ctx).host.pending(),
            same_stores(&old(ctx).host, &ctx.host),
            ctx.host.headers() == old(ctx).host.headers(),
            ctx.host.log() == old(ctx).host.log(),
            ctx.host.execs() == old(ctx).host.execs(),
            ctx.host.fetches() == old(ctx).host.fetches(),
            ctx.host.queries() == old(ctx).host.queries(),
            ctx.host.sent() == old(ctx).host.sent(),
            subsequence_of(ctx.host.vars(), old(ctx).host.vars() + args_view(args@.take(i as int))),
        decreases args.len() - i,
    {
        let ghost pre_vars = ctx.host.vars();
        let ghost attempted = old(ctx).host.vars() + args_view(args@.take(i as int));
        ffi::add_var(ctx, args[i].name.as_str(), args[i].value.as_str());
        proof {
            let pair = (encode_utf8(args@[i as int].name@), encode_utf8(args@[i as int].value@));
            assert(old(ctx).host.vars() + args_view(args@.take(i as int + 1)) =~= attempted.push(
                pair,
            ));
            if ctx.host.vars() == pre_vars.push(pair) {
                lemma_subsequence_push_both(pre_vars, attempted, pair);
            } else {
                lemma_subsequence_push_right(pre_vars, attempted, pair);
            }
        }
        i = i + 1;
    }
    proof {
        assert(args@.take(args@.len() as int) =~= args@);
    }
    let s = ctx.host.db_exec(query_type, name.as_bytes(), ctx.ident);
    let r = ffi::result(ctx, s);
    proof {
        assert(ctx.host.execs().drop_last() =~= old(ctx).host.execs());
    }
    r
}

/// Run the pre-loaded insert statement named `name` with `args`. The
/// result, on success, is the inserted auto-increment id formatted as
/// JSON under the key `lastInsertID`.
pub fn insert<H: HostRuntime>(ctx: &mut Ctx<H>, name: &str, args: Vec<QueryArg>) -> (r: Result<
    Vec<u8>,
    HostErr,
>)
    ensures
        only_db(old(ctx), final(ctx)),
        issued_db_op(old(ctx), final(ctx), QueryType::INSERT.code() as int, name@, args@),
        r matches Ok(d) ==> d@ == final(ctx).host.pending(),
        r matches Err(e) ==> e.message@ == unknown_err() || e.message@ == chars_of(
            final(ctx).host.pending(),
        ),
{
    run_query(ctx, QueryType::INSERT.code(), name, args)
}

/// Run the pre-loaded update statement named `name` with `args`. The
/// result, on success, is the affected row count formatted as JSON under
/// the key `rowsAffected`.
pub fn update<H: HostRuntime>(ctx: &mut Ctx<H>, name: &str, args: Vec<QueryArg>) -> (r: Result<
    Vec<u8>,
    HostErr,
>)
    ensures
        only_db(old(ctx), final(ctx)),
        issued_db_op(old(ctx), final(ctx), QueryType::UPDATE.code() as int, name@, args@),
        r matches Ok(d) ==> d@ == final(ctx).host.pending(),
        r matches Err(e) ==> e.message@ == unknown_err() || e.message@ == chars_of(
            final(ctx).host.pending(),
        ),
{
    run_query(ctx, QueryType::UPDATE.code(), name, args)
}

/// Run the pre-loaded delete statement named `name` with `args`. The
/// result, on success, is the affected row count formatted as JSON under
/// the key `rowsAffected`.
pub fn delete<H: HostRuntime>(ctx: &mut Ctx<H>, name: &str, args: Vec<QueryArg>) -> (r: Result<
    Vec<u8>,
    HostErr,
>)
    ensures
        only_db(old(ctx), final(ctx)),
        issued_db_op(old(ctx), final(ctx), QueryType::DELETE.code() as int, name@, args@),
        r matches Ok(d) ==> d@ == final(ctx).host.pending(),
        r matches Err(e) ==> e.message@ == unknown_err() || e.message@ == chars_of(
            final(ctx).host.pending(),
        ),
{
    run_query(ctx, QueryType::DELETE.code(), name, args)
}

/// Run the pre-loaded select statement named `name` with `args`. The
/// result, on success, is the matching rows formatted as a JSON array,
/// with each column name as a key.
pub fn select<H: HostRuntime>(ctx: &mut Ctx<H>, name: &str, args: Vec<QueryArg>) -> (r: Result<
    Vec<u8>,
    HostErr,
>)
    ensures
        only_db(old(ctx), final(ctx)),
        issued_db_op(old(ctx), final(ctx), QueryType::SELECT.code() as int, name@, args@),
        r matches Ok(d) ==> d@ == final(ctx).host.pending(),
        r matches Err(e) ==> e.message@ == unknown_err() || e.message@ == chars_of(
            final(ctx).host.pending(),
        ),
{
    run_query(ctx, QueryType::SELECT.code(), name, args)
}

} // verus!
