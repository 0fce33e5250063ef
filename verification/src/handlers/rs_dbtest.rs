//! Walks a row through the database: insert, update, select, delete,
//! then proves it gone.

use vstd::prelude::*;

use crate::db;
use crate::db::query::QueryArg;
use crate::db::query::QueryType;
use crate::handlers::ids;
use crate::host::HostRuntime;
use crate::log;
use crate::runnable::RunErr;
use crate::runnable::Runnable;
use crate::util;
use crate::util::bytes_eq;
use crate::Ctx;
use vstd::string::StringExecFns;
use vstd::utf8::encode_utf8;

verus! {

/// The two columns a fresh user row carries.
fn user_args(uuid: &str) -> (v: Vec<QueryArg>)
    ensures
        v@.len() == 2,
{
    let mut v: Vec<QueryArg> = Vec::new();
    v.push(QueryArg::new("uuid", uuid));
    v.push(QueryArg::new("email", "connor@suborbital.dev"));
    v
}

/// The single key column the later statements go by.
fn uuid_args(uuid: &str) -> (v: Vec<QueryArg>)
    ensures
        v@.len() == 1,
{
    let mut v: Vec<QueryArg> = Vec::new();
    v.push(QueryArg::new("uuid", uuid));
    v
}

/// Inserts a fresh row, updates, selects and deletes it, then expects the
/// final select to come back empty; any operation error fails the run
/// with code 500.
pub struct RsDbtest {}

impl<H: HostRuntime> Runnable<H> for RsDbtest {
    fn run(&self, ctx: &mut Ctx<H>, input: Vec<u8>) -> (r: Result<Vec<u8>, RunErr>)
        ensures
            final(ctx).arena@ == old(ctx).arena@,
            crate::host::same_stores(&old(ctx).host, &final(ctx).host),
            final(ctx).host.headers() == old(ctx).host.headers(),
            final(ctx).host.fetches() == old(ctx).host.fetches(),
            final(ctx).host.queries() == old(ctx).host.queries(),
            final(ctx).host.sent() == old(ctx).host.sent(),
            final(ctx).host.execs().len() > old(ctx).host.execs().len(),
            final(ctx).host.execs().len() <= old(ctx).host.execs().len() + 5,
            final(ctx).host.execs()[old(ctx).host.execs().len() as int].0
                == QueryType::INSERT.code() as int,
            final(ctx).host.execs()[old(ctx).host.execs().len() as int].1 == encode_utf8(
                "PGInsertUser"@,
            ),
            r matches Err(e) ==> e.code == 500,
    {
        let uuid = ids::fresh_uuid();

        match db::insert(ctx, "PGInsertUser", user_args(uuid.as_str())) {
            Ok(_) => log::info(ctx, "insert successful"),
            Err(e) => {
                return Err(RunErr::new(500, e.message.as_str()));
            },
        }

        match db::update(ctx, "PGUpdateUserWithUUID", uuid_args(uuid.as_str())) {
            Ok(rows) => {
                let mut m = String::from_str("update: ");
                m.append(util::to_string(rows).as_str());
                log::info(ctx, m.as_str());
            },
            Err(e) => {
                return Err(RunErr::new(500, e.message.as_str()));
            },
        }

        match db::select(ctx, "PGSelectUserWithUUID", uuid_args(uuid.as_str())) {
            Ok(result) => {
                let mut m = String::from_str("select: ");
                m.append(util::to_string(result).as_str());
                log::info(ctx, m.as_str());
            },
            Err(e) => {
                return Err(RunErr::new(500, e.message.as_str()));
            },
        }

        match db::delete(ctx, "PGDeleteUserWithUUID", uuid_args(uuid.as_str())) {
            Ok(rows) => {
                let mut m = String::from_str("delete: ");
                m.append(util::to_string(rows).as_str());
                log::info(ctx, m.as_str());
            },
            Err(e) => {
                return Err(RunErr::new(500, e.message.as_str()));
            },
        }

        // this one should come back empty
        match db::select(ctx, "PGSelectUserWithUUID", uuid_args(uuid.as_str())) {
            Ok(result) => {
                let result_str = util::to_string(result);
                if !bytes_eq(result_str.as_str().as_bytes(), "[]".as_bytes()) {
                    let mut m = String::from_str(
                        "select should have returning nothing, but didn't, got: ",
                    );
                    m.append(result_str.as_str());
                    return Err(RunErr::new(500, m.as_str()));
                }
                Ok(util::str_to_vec("all good!"))
            },
            Err(e) => Ok(util::to_vec(e.message)),
        }
    }
}

} // verus!
