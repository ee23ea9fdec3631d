//! What the host tells a plugin about itself.
use vstd::prelude::*;
use crate::result_code::{tresult_code, TResult};
use crate::text::{encode_string128, string128_units};

verus! {

/// The name under which the host presents itself to plugins.
pub const HOST_NAME: &'static str = "Host Application";

/// The `String128` buffer that the host hands a plugin asking for its name:
/// the units of `HOST_NAME`, one per character, taken as a 128-unit array.
/// `HOST_NAME` has 16 characters, not 128, so there is no such array:
/// the result is always `None` (and a host asked for its name stops).
pub fn host_name_units() -> (r: Option<Vec<u16>>)
    ensures
        r is Some <==> HOST_NAME@.len() == 128,
        r matches Some(units) ==> units@ == string128_units(HOST_NAME@),
        r is None,
{
    proof {
        reveal_strlit("Host Application");
    }
    encode_string128(HOST_NAME)
}

/// The code that the host returns when a plugin asks it for its name.
pub fn name_request_result() -> (r: i32)
    ensures
        r == tresult_code(TResult::KResultOk),
{
    TResult::KResultOk.to_i32()
}

/// The code that the host returns when a plugin asks it to create an
/// instance: the host creates none and answers `kResultFalse`.
pub fn create_instance_result() -> (r: i32)
    ensures
        r == tresult_code(TResult::KResultFalse),
{
    TResult::KResultFalse.to_i32()
}

} // verus!
