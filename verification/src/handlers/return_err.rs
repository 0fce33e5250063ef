//! Fails every invocation, for exercising the error path end to end.

use vstd::prelude::*;

use crate::host::HostRuntime;
use crate::runnable::RunErr;
use crate::runnable::Runnable;
use crate::Ctx;

verus! {

/// Always answers the application error `400: job failed`.
pub struct ReturnErr {}

impl<H: HostRuntime> Runnable<H> for ReturnErr {
    fn run(&self, ctx: &mut Ctx<H>, input: Vec<u8>) -> (r: Result<Vec<u8>, RunErr>)
        ensures
            *final(ctx) == *old(ctx),
            r matches Err(e) && e.code == 400 && e.message@ == "job failed"@,
    {
        Err(RunErr::new(400, "job failed"))
    }
}

} // verus!
