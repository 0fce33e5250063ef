//! Rewrites a URL: the body's URL — or the `url` state entry when one is
//! set — with a fixed path segment appended.

use vstd::prelude::*;

use crate::host::HostRuntime;
use crate::req;
use crate::req::only_read;
use crate::runnable::RunErr;
use crate::runnable::Runnable;
use crate::util;
use crate::Ctx;
use vstd::string::StringExecFns;
use vstd::utf8::encode_utf8;

verus! {

/// Answers the chosen URL with `"/suborbital"` appended.
pub struct ModifyUrl {}

impl<H: HostRuntime> Runnable<H> for ModifyUrl {
    fn run(&self, ctx: &mut Ctx<H>, input: Vec<u8>) -> (r: Result<Vec<u8>, RunErr>)
        ensures
            only_read(old(ctx), final(ctx)),
            r matches Ok(v) && exists|base: Seq<char>|
                v@ == encode_utf8(#[trigger] (base + "/suborbital"@)),
    {
        let mut url = req::body_raw(ctx);
        match req::state(ctx, "url") {
            Some(val) => {
                if !val.as_str().is_empty() {
                    url = util::to_vec(val);
                }
            },
            None => {},
        }
        let mut s = util::to_string(url);
        s.append("/suborbital");
        Ok(util::to_vec(s))
    }
}

} // verus!
