//! Greets the element handed over in state, JSON in and JSON out.

use vstd::prelude::*;

use crate::handlers::jsonio;
use crate::handlers::jsonio::json_name_obj;
use crate::handlers::jsonio::json_str_field;
use crate::host::HostRuntime;
use crate::req;
use crate::req::field_key;
use crate::req::field_type::FieldType;
use crate::req::only_read;
use crate::runnable::RunErr;
use crate::runnable::Runnable;
use crate::Ctx;
use vstd::string::StringExecFns;

verus! {

/// Reads `{"name": X}` from the `__elem` state entry and answers
/// `{"name": "Hello X"}`; input that does not parse that way fails with
/// code 500.
pub struct RunEach {}

impl<H: HostRuntime> Runnable<H> for RunEach {
    fn run(&self, ctx: &mut Ctx<H>, input: Vec<u8>) -> (r: Result<Vec<u8>, RunErr>)
        ensures
            only_read(old(ctx), final(ctx)),
            r matches Err(e) ==> e.code == 500 && e.message@ == "failed to from_slice"@,
            r matches Ok(v) ==> exists|raw: Seq<u8>, name: Seq<char>|
                #![trigger json_str_field(raw, "name"@), json_name_obj("Hello "@ + name)]
                {
                    &&& raw == old(ctx).host.fields()[
                        field_key(FieldType::State.code() as int, "__elem"@)
                    ] || raw == Seq::<u8>::empty()
                    &&& json_str_field(raw, "name"@) == Some(name)
                    &&& v@ == json_name_obj("Hello "@ + name)
                },
    {
        let elem_json = match req::state_raw(ctx, "__elem") {
            Some(v) => v,
            None => Vec::new(),
        };

        match jsonio::json_string_field(elem_json.as_slice(), "name") {
            None => Err(RunErr::new(500, "failed to from_slice")),
            Some(name) => {
                let mut greeting = String::from_str("Hello ");
                greeting.append(name.as_str());
                Ok(jsonio::json_name_object(greeting.as_str()))
            },
        }
    }
}

} // verus!
