//! The dictionary: text values by key. Its call documents status 0 (success)
//! and 1 (no such key); any other status is fatal, and the caller aborts on
//! it before handing the reply on.
use vstd::prelude::*;
use vstd::utf8::{decode_utf8, valid_utf8};

verus! {

/// Relies on `String::from_utf8`, which accepts exactly valid UTF-8.
#[verifier::external_body]
fn utf8_string(bytes: Vec<u8>) -> (r: Option<String>)
    ensures
        r is Some <==> valid_utf8(bytes@),
        r matches Some(s) ==> s@ == decode_utf8(bytes@),
{
    String::from_utf8(bytes).ok()
}

/// What a dictionary lookup gives for the host's documented `status` and
/// adopted buffer: the value as text, `None` where it is absent or not UTF-8.
pub open spec fn dictionary_outcome(status: u32, buf: Option<Seq<u8>>, r: Option<String>) -> bool {
    if status == 0 {
        match buf {
            Some(b) => if valid_utf8(b) {
                r matches Some(s) && s@ == decode_utf8(b)
            } else {
                r is None
            },
            None => r is None,
        }
    } else {
        r is None
    }
}

/// Decides the outcome of a dictionary lookup.
pub fn get_reply(status: u32, buf: Option<Vec<u8>>) -> (r: Option<String>)
    requires
        status <= 1,
    ensures
        dictionary_outcome(status, crate::host::bytes_view(&buf), r),
{
    if status == 0 {
        match buf {
            Some(data) => utf8_string(data),
            None => None,
        }
    } else {
        None
    }
}

/// The value under `key`, read through `call`, the host's primitive given the
/// key, which reports only documented statuses.
pub fn get<F: FnOnce(&str) -> (u32, Option<Vec<u8>>)>(key: &str, call: F) -> (r: Option<String>)
    requires
        forall|k: &str| call.requires((k,)),
        forall|k: &str, out: (u32, Option<Vec<u8>>)| call.ensures((k,), out) ==> out.0 <= 1,
    ensures
        exists|status: u32, buf: Option<Vec<u8>>|
            call.ensures((key,), (status, buf)) && dictionary_outcome(
                status,
                crate::host::bytes_view(&buf),
                r,
            ),
{
    let (status, buf) = call(key);
    let ghost given = buf;
    let r = get_reply(status, buf);
    assert(dictionary_outcome(status, crate::host::bytes_view(&given), r));
    r
}

} // verus!
