//! The secret store. Its calls document status 0 (success) and 1 (no such
//! secret); any other status is fatal, and the caller aborts on it before
//! handing the reply on.
use vstd::prelude::*;
use crate::host::bytes_view;

verus! {

/// What a secret lookup gives for the host's documented `status` and adopted
/// buffer.
pub open spec fn secret_outcome(status: u32, buf: Option<Vec<u8>>, r: Result<Option<Vec<u8>>, u32>) -> bool {
    if status == 0 {
        r matches Ok(v) && bytes_view(&v) == bytes_view(&buf)
    } else {
        r matches Ok(v) && v is None
    }
}

/// Decides the outcome of a secret lookup: on success the adopted buffer, or
/// `None` where the host left the pointer null; `None` where the secret does
/// not exist.
pub fn get_reply(status: u32, buf: Option<Vec<u8>>) -> (r: Result<Option<Vec<u8>>, u32>)
    requires
        status <= 1,
    ensures
        r is Ok,
        secret_outcome(status, buf, r),
{
    if status == 0 {
        Ok(buf)
    } else {
        Ok(None)
    }
}

/// The secret value under `key` effective now, read through `call`, the
/// host's primitive given the key, which reports only documented statuses.
pub fn get<F: FnOnce(&str) -> (u32, Option<Vec<u8>>)>(key: &str, call: F) -> (r: Result<
    Option<Vec<u8>>,
    u32,
>)
    requires
        forall|k: &str| call.requires((k,)),
        forall|k: &str, out: (u32, Option<Vec<u8>>)| call.ensures((k,), out) ==> out.0 <= 1,
    ensures
        r is Ok,
        exists|status: u32, buf: Option<Vec<u8>>|
            call.ensures((key,), (status, buf)) && secret_outcome(status, buf, r),
{
    let (status, buf) = call(key);
    let ghost given = buf;
    let r = get_reply(status, buf);
    assert(secret_outcome(status, given, r));
    r
}

/// The secret value under `key` effective at the timestamp `at` (seconds),
/// read through `call`, the host's primitive given the key and the timestamp,
/// which reports only documented statuses.
pub fn get_effective_at<F: FnOnce(&str, u32) -> (u32, Option<Vec<u8>>)>(
    key: &str,
    at: u32,
    call: F,
) -> (r: Result<Option<Vec<u8>>, u32>)
    requires
        forall|k: &str, t: u32| call.requires((k, t)),
        forall|k: &str, t: u32, out: (u32, Option<Vec<u8>>)|
            call.ensures((k, t), out) ==> out.0 <= 1,
    ensures
        r is Ok,
        exists|status: u32, buf: Option<Vec<u8>>|
            call.ensures((key, at), (status, buf)) && secret_outcome(status, buf, r),
{
    let (status, buf) = call(key, at);
    let ghost given = buf;
    let r = get_reply(status, buf);
    assert(secret_outcome(status, given, r));
    r
}

} // verus!
