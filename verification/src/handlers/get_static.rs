//! Serves the static file named by the request input.

use vstd::prelude::*;

use crate::file;
use crate::host::HostRuntime;
use crate::req::only_read;
use crate::runnable::RunErr;
use crate::runnable::Runnable;
use crate::util;
use crate::util::chars_of;
use crate::Ctx;
use vstd::utf8::encode_utf8;

verus! {

/// Answers the contents of the static file whose name is the input read
/// as text — empty when there is no such file.
pub struct GetStatic {}

impl<H: HostRuntime> Runnable<H> for GetStatic {
    fn run(&self, ctx: &mut Ctx<H>, input: Vec<u8>) -> (r: Result<Vec<u8>, RunErr>)
        ensures
            only_read(old(ctx), final(ctx)),
            r matches Ok(v) && ((old(ctx).host.files().contains_key(
                encode_utf8(chars_of(input@)),
            ) && v@ == old(ctx).host.files()[encode_utf8(chars_of(input@))]) || v@
                == Seq::<u8>::empty()),
    {
        let in_string = util::to_string(input);
        match file::get_static(ctx, in_string.as_str()) {
            Some(f) => Ok(f),
            None => Ok(Vec::new()),
        }
    }
}

} // verus!
