//! Outbound HTTP calls through the host.
use vstd::prelude::*;
use crate::Error;
use crate::bridge::{host_of_request, request_to_host, response_from_host, response_of_host};
use crate::host;
use crate::message::{Request, Response, ResponseView};

verus! {

/// The outcome of an outbound call whose host reply is `reply`: the host's
/// failure, or the response decoded from its record.
pub open spec fn reply_result(reply: Result<host::Response, String>) -> Result<ResponseView, Error> {
    match reply {
        Err(detail) => Err(Error::BindgenHttpError(detail)),
        Ok(h) => response_of_host(h@),
    }
}

/// Turns the host's reply to an outbound call into the ergonomic response.
pub fn translate_http_client_to_response(reply: Result<host::Response, String>) -> (r: Result<
    Response,
    Error,
>)
    ensures
        match reply_result(reply) {
            Ok(v) => r matches Ok(s) && s@ == v,
            Err(e) => r matches Err(x) && x == e,
        },
{
    match reply {
        Err(detail) => Err(Error::BindgenHttpError(detail)),
        Ok(h) => response_from_host(h),
    }
}

/// Sends `req` through `call`, the host's outbound primitive, which returns
/// the host's response record or the text of its failure. A request that
/// the host cannot carry is refused before any call.
pub fn send_request<F: FnOnce(host::Request) -> Result<host::Response, String>>(
    req: Request,
    call: F,
) -> (r: Result<Response, Error>)
    requires
        forall|h: host::Request| call.requires((h,)),
    ensures
        host_of_request(req@) matches Err(e) ==> r matches Err(x) && x == e,
        host_of_request(req@) matches Ok(v) ==> exists|h: host::Request, reply: Result<host::Response, String>|
            h@ == v && call.ensures((h,), reply) && match reply_result(reply) {
                Ok(s) => r matches Ok(x) && x@ == s,
                Err(e) => r matches Err(x) && x == e,
            },
{
    let request = match request_to_host(&req) {
        Ok(h) => h,
        Err(e) => return Err(e),
    };
    let ghost h = request;
    let reply = call(request);
    let ghost given = reply;
    let r = translate_http_client_to_response(reply);
    assert(call.ensures((h,), given));
    r
}

} // verus!
