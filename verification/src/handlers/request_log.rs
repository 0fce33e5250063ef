//! Logs the request from every angle, then greets the `hello` state
//! entry.

use vstd::prelude::*;

use crate::host::same_stores;
use crate::host::HostRuntime;
use crate::log;
use crate::req;
use crate::runnable::RunErr;
use crate::runnable::Runnable;
use crate::util;
use crate::util::chars_of;
use crate::Ctx;
use vstd::string::StringExecFns;
use vstd::utf8::encode_utf8;

verus! {

/// Logs the input, the request method, body, two body fields, url and id
/// — eight info lines in all — and answers `"hello "` followed by the
/// `hello` state entry.
pub struct Log {}

impl<H: HostRuntime> Runnable<H> for Log {
    fn run(&self, ctx: &mut Ctx<H>, input: Vec<u8>) -> (r: Result<Vec<u8>, RunErr>)
        ensures
            final(ctx).arena@ == old(ctx).arena@,
            same_stores(&old(ctx).host, &final(ctx).host),
            final(ctx).host.headers() == old(ctx).host.headers(),
            final(ctx).host.log().len() == old(ctx).host.log().len() + 8,
            final(ctx).host.log()[old(ctx).host.log().len() as int] == (
                3int,
                encode_utf8(chars_of(input@)),
            ),
            forall|k: int|
                old(ctx).host.log().len() <= k < final(ctx).host.log().len() ==> (
                #[trigger] final(ctx).host.log()[k]).0 == 3,
            final(ctx).host.execs() == old(ctx).host.execs(),
            final(ctx).host.fetches() == old(ctx).host.fetches(),
            final(ctx).host.queries() == old(ctx).host.queries(),
            final(ctx).host.sent() == old(ctx).host.sent(),
            final(ctx).host.vars() == old(ctx).host.vars(),
            r matches Ok(v) && exists|greeted: Seq<char>|
                v@ == encode_utf8(#[trigger] ("hello "@ + greeted)),
    {
        let in_string = util::to_string(input);
        log::info(ctx, in_string.as_str());

        let method = req::method(ctx);
        log::info(ctx, method.as_str());
        let body = util::to_string(req::body_raw(ctx));
        log::info(ctx, body.as_str());
        let username = req::body_field(ctx, "username");
        log::info(ctx, username.as_str());
        // a field that does not exist still logs, as the empty string
        let baz = req::body_field(ctx, "baz");
        log::info(ctx, baz.as_str());
        let url = req::url(ctx);
        log::info(ctx, url.as_str());
        let id = req::id(ctx);
        log::info(ctx, id.as_str());

        let hello = match req::state(ctx, "hello") {
            Some(s) => s,
            None => String::new(),
        };
        log::info(ctx, hello.as_str());

        let mut s = String::from_str("hello ");
        s.append(hello.as_str());
        Ok(util::to_vec(s))
    }
}

} // verus!
