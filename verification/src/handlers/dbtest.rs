//! Inserts a row, updates it, and answers what a select finds.

use vstd::prelude::*;

use crate::db;
use crate::db::query::QueryArg;
use crate::db::query::QueryType;
use crate::handlers::ids;
use crate::host::HostRuntime;
use crate::log;
use crate::runnable::RunErr;
use crate::runnable::Runnable;
use crate::Ctx;
use vstd::utf8::encode_utf8;

verus! {

/// Inserts a fresh user row, updates it by key, and answers the rows the
/// select for that key finds; any operation error fails the run with
/// code 500.
pub struct RsDbtest {}

impl<H: HostRuntime> Runnable<H> for RsDbtest {
    fn run(&self, ctx: &mut Ctx<H>, input: Vec<u8>) -> (r: Result<Vec<u8>, RunErr>)
        ensures
            final(ctx).arena@ == old(ctx).arena@,
            crate::host::same_stores(&old(ctx).host, &final(ctx).host),
            final(ctx).host.headers() == old(ctx).host.headers(),
            final(ctx).host.fetches() == old(ctx).host.fetches(),
            final(ctx).host.queries() == old(ctx).host.queries(),
            final(ctx).host.sent() == old(ctx).host.sent(),
            final(ctx).host.execs().len() > old(ctx).host.execs().len(),
            final(ctx).host.execs().len() <= old(ctx).host.execs().len() + 3,
            final(ctx).host.execs()[old(ctx).host.execs().len() as int].0
                == QueryType::INSERT.code() as int,
            final(ctx).host.execs()[old(ctx).host.execs().len() as int].1 == encode_utf8(
                "InsertUser"@,
            ),
            r matches Err(e) ==> e.code == 500,
            r matches Ok(v) ==> v@ == final(ctx).host.pending(),
    {
        let uuid = ids::fresh_uuid();

        let mut args: Vec<QueryArg> = Vec::new();
        args.push(QueryArg::new("uuid", uuid.as_str()));
        args.push(QueryArg::new("email", "connor@suborbital.dev"));

        match db::insert(ctx, "InsertUser", args) {
            Ok(_) => log::info(ctx, "insert successful"),
            Err(e) => {
                return Err(RunErr::new(500, e.message.as_str()));
            },
        }

        let mut args2: Vec<QueryArg> = Vec::new();
        args2.push(QueryArg::new("uuid", uuid.as_str()));

        match db::update(ctx, "UpdateUserWithUUID", args2) {
            Ok(_) => log::info(ctx, "update successful"),
            Err(e) => {
                return Err(RunErr::new(500, e.message.as_str()));
            },
        }

        let mut args3: Vec<QueryArg> = Vec::new();
        args3.push(QueryArg::new("uuid", uuid.as_str()));

        match db::select(ctx, "SelectUserWithUUID", args3) {
            Ok(result) => Ok(result),
            Err(e) => Err(RunErr::new(500, e.message.as_str())),
        }
    }
}

} // verus!
