//! The entry point: a host request in, a host response out, whatever the
//! user's handler does.
use vstd::prelude::*;
use vstd::utf8::encode_utf8;
use crate::bridge::{host_of_response, request_from_host, request_of_host, response_to_host};
use crate::host;
use crate::message::{Request, Response};

verus! {

/// The response that reports an internal failure with the text `body`.
pub open spec fn internal_error_view(body: Seq<char>) -> host::ResponseView {
    host::ResponseView { status: 500, headers: Some(seq![]), body: Some(encode_utf8(body)) }
}

/// What the host receives for the handler's outcome `out`: the response, an
/// internal failure with the handler's error text, or an internal failure
/// where the response cannot be encoded.
pub open spec fn reply_view(out: Result<Response, String>) -> host::ResponseView {
    match out {
        Err(text) => internal_error_view(text@),
        Ok(s) => match host_of_response(s@) {
            Ok(h) => h,
            Err(_) => internal_error_view("http response encode error"@),
        },
    }
}

/// A status-500 response whose body is the UTF-8 text `body`.
pub fn internal_error(body: &str) -> (r: host::Response)
    ensures
        r@ == internal_error_view(body@),
{
    let headers: Vec<(String, String)> = Vec::new();
    assert(headers.deep_view() =~= seq![]);
    host::Response {
        status: 500,
        headers: Some(headers),
        body: Some(vstd::slice::slice_to_vec(body.as_bytes())),
    }
}

/// The host response for the handler's outcome.
pub fn reply(out: Result<Response, String>) -> (r: host::Response)
    ensures
        r@ == reply_view(out),
{
    match out {
        Err(text) => internal_error(text.as_str()),
        Ok(res) => match response_to_host(&res) {
            Ok(h) => h,
            Err(_) => internal_error("http response encode error"),
        },
    }
}

/// Serves one host request with `handler`, which returns a response or the
/// text of its error. A request that cannot be decoded never reaches the
/// handler.
pub fn process<F: FnOnce(Request) -> Result<Response, String>>(req: host::Request, handler: F) -> (r:
    host::Response)
    requires
        forall|q: Request| handler.requires((q,)),
    ensures
        request_of_host(req@) is Err ==> r@ == internal_error_view("http request decode error"@),
        request_of_host(req@) matches Ok(v) ==> exists|q: Request, out: Result<Response, String>|
            q@ == v && handler.ensures((q,), out) && r@ == reply_view(out),
{
    let request = match request_from_host(req) {
        Ok(q) => q,
        Err(_) => return internal_error("http request decode error"),
    };
    let ghost q = request;
    let out = handler(request);
    let r = reply(out);
    assert(handler.ensures((q,), out));
    r
}

} // verus!
