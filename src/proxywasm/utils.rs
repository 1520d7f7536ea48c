//! Diagnostics for the host's statistics.
use vstd::prelude::*;

verus! {

/// Saves `value` as the user diagnostic message through `call`, the host's
/// primitive, which returns its status. It documents only status 0; the
/// caller aborts on any other before returning it.
pub fn set_user_diag<F: FnOnce(&str) -> u32>(value: &str, call: F)
    requires
        forall|v: &str| call.requires((v,)),
        forall|v: &str, status: u32| call.ensures((v,), status) ==> status == 0,
    ensures
        exists|status: u32| call.ensures((value,), status) && status == 0,
{
    let _status: u32 = call(value);
}

} // verus!
