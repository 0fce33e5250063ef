//! Serves a static file named by a URL parameter, falling back to state.

use vstd::prelude::*;

use crate::file;
use crate::host::HostRuntime;
use crate::req;
use crate::req::only_read;
use crate::runnable::RunErr;
use crate::runnable::Runnable;
use crate::Ctx;
use vstd::utf8::encode_utf8;

verus! {

/// Answers the contents of the static file named by the `file` URL
/// parameter — or, when that is empty, by the `file` state entry — and
/// `"failed"` when there is no such file.
pub struct GetFile {}

impl<H: HostRuntime> Runnable<H> for GetFile {
    fn run(&self, ctx: &mut Ctx<H>, input: Vec<u8>) -> (r: Result<Vec<u8>, RunErr>)
        ensures
            only_read(old(ctx), final(ctx)),
            r matches Ok(v) && ((exists|n: Seq<u8>|
                old(ctx).host.files().contains_key(n) && v@ == old(ctx).host.files()[n]) || v@
                == encode_utf8("failed"@)),
    {
        let from_param = req::url_param(ctx, "file");
        let filename = if from_param.as_str().is_empty() {
            match req::state(ctx, "file") {
                Some(s) => s,
                None => String::new(),
            }
        } else {
            from_param
        };
        match file::get_static(ctx, filename.as_str()) {
            Some(f) => Ok(f),
            None => Ok(crate::util::str_to_vec("failed")),
        }
    }
}

} // verus!
