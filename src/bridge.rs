//! Conversions between the ergonomic messages and the host's flat records.
use vstd::prelude::*;
use crate::Error;
use crate::body::{Body, BodyView, octet_stream, text_plain};
use crate::host;
use crate::message::{
    Method, Request, RequestView, Response, ResponseView, copy_headers, headers_ok,
    headers_valid, status_ok, status_valid, uri_ok,
};

verus! {

/// The host's tag for `m`, if the host carries it.
pub open spec fn host_method_of(m: Method) -> Option<host::Method> {
    match m {
        Method::Get => Some(host::Method::Get),
        Method::Post => Some(host::Method::Post),
        Method::Put => Some(host::Method::Put),
        Method::Delete => Some(host::Method::Delete),
        Method::Head => Some(host::Method::Head),
        Method::Patch => Some(host::Method::Patch),
        Method::Options => Some(host::Method::Options),
        Method::Connect => None,
        Method::Trace => None,
    }
}

/// The method that the host's tag `m` stands for.
pub open spec fn method_of_host(m: host::Method) -> Method {
    match m {
        host::Method::Get => Method::Get,
        host::Method::Post => Method::Post,
        host::Method::Put => Method::Put,
        host::Method::Delete => Method::Delete,
        host::Method::Head => Method::Head,
        host::Method::Patch => Method::Patch,
        host::Method::Options => Method::Options,
    }
}

/// The body made from the host's optional bytes: an absent body is the empty
/// text body.
pub open spec fn body_of_host(body: Option<Seq<u8>>) -> BodyView {
    match body {
        None => BodyView { content_type: text_plain(), bytes: seq![] },
        Some(bytes) => BodyView { content_type: octet_stream(), bytes },
    }
}

/// The ergonomic request made from the host's record; `InvalidBody` where its
/// URI or a header is refused.
pub open spec fn request_of_host(h: host::RequestView) -> Result<RequestView, Error> {
    let r = RequestView {
        method: method_of_host(h.method),
        uri: h.uri,
        headers: h.headers,
        body: body_of_host(h.body),
    };
    if r.valid() {
        Ok(r)
    } else {
        Err(Error::InvalidBody)
    }
}

/// The host's record of the ergonomic request `r`; `UnsupportedMethod` where
/// the host does not carry its method, else `InvalidBody` where its URI or a
/// header is refused.
pub open spec fn host_of_request(r: RequestView) -> Result<host::RequestView, Error> {
    match host_method_of(r.method) {
        None => Err(Error::UnsupportedMethod(r.method)),
        Some(_) if !r.valid() => Err(Error::InvalidBody),
        Some(m) => Ok(
            host::RequestView { method: m, uri: r.uri, headers: r.headers, body: Some(r.body.bytes) },
        ),
    }
}

/// The host's record of the ergonomic response `s`: no headers are sent as
/// absent headers; `InvalidStatusCode` for a status out of range, else
/// `InvalidBody` where a header is refused.
pub open spec fn host_of_response(s: ResponseView) -> Result<host::ResponseView, Error> {
    if !status_valid(s.status) {
        Err(Error::InvalidStatusCode(s.status))
    } else if !headers_valid(s.headers) {
        Err(Error::InvalidBody)
    } else {
        Ok(
            host::ResponseView {
                status: s.status,
                headers: if s.headers.len() == 0 {
                    None
                } else {
                    Some(s.headers)
                },
                body: Some(s.body.bytes),
            },
        )
    }
}

/// The ergonomic response made from the host's record: the status is checked
/// first, then the headers; absent headers are no headers.
pub open spec fn response_of_host(h: host::ResponseView) -> Result<ResponseView, Error> {
    let headers = match h.headers {
        None => seq![],
        Some(hs) => hs,
    };
    if !status_valid(h.status) {
        Err(Error::InvalidStatusCode(h.status))
    } else if !headers_valid(headers) {
        Err(Error::InvalidBody)
    } else {
        Ok(ResponseView { status: h.status, headers, body: body_of_host(h.body) })
    }
}

/// The host's tag for `method`, or `UnsupportedMethod` carrying it.
pub fn to_http_client_method(method: &Method) -> (r: Result<host::Method, Error>)
    ensures
        match host_method_of(*method) {
            Some(m) => r == Ok::<host::Method, Error>(m),
            None => r == Err::<host::Method, Error>(Error::UnsupportedMethod(*method)),
        },
{
    match method {
        Method::Get => Ok(host::Method::Get),
        Method::Post => Ok(host::Method::Post),
        Method::Put => Ok(host::Method::Put),
        Method::Delete => Ok(host::Method::Delete),
        Method::Head => Ok(host::Method::Head),
        Method::Patch => Ok(host::Method::Patch),
        Method::Options => Ok(host::Method::Options),
        _ => Err(Error::UnsupportedMethod(*method)),
    }
}

/// The method that the host's tag stands for.
pub fn method_from_host(method: host::Method) -> (r: Method)
    ensures
        r == method_of_host(method),
{
    match method {
        host::Method::Get => Method::Get,
        host::Method::Post => Method::Post,
        host::Method::Put => Method::Put,
        host::Method::Delete => Method::Delete,
        host::Method::Head => Method::Head,
        host::Method::Patch => Method::Patch,
        host::Method::Options => Method::Options,
    }
}

fn body_from_host(body: Option<Vec<u8>>) -> (r: Body)
    ensures
        r@ == body_of_host(host::bytes_view(&body)),
{
    match body {
        None => Body::empty(),
        Some(bytes) => Body::from_bytes(bytes),
    }
}

/// Builds the ergonomic request from the host's record.
pub fn request_from_host(req: host::Request) -> (r: Result<Request, Error>)
    ensures
        match request_of_host(req@) {
            Ok(v) => r matches Ok(q) && q@ == v,
            Err(e) => r matches Err(x) && x == e,
        },
{
    let host::Request { method, uri, headers, body } = req;
    if !uri_ok(uri.as_str()) || !headers_ok(&headers) {
        return Err(Error::InvalidBody);
    }
    Ok(Request { method: method_from_host(method), uri, headers, body: body_from_host(body) })
}

/// Builds the host's record of an ergonomic request, body always present;
/// a request that `http` could not hold is refused.
pub fn request_to_host(req: &Request) -> (r: Result<host::Request, Error>)
    ensures
        match host_of_request(req@) {
            Ok(v) => r matches Ok(h) && h@ == v,
            Err(e) => r matches Err(x) && x == e,
        },
{
    let method = match to_http_client_method(&req.method) {
        Ok(m) => m,
        Err(e) => return Err(e),
    };
    if !uri_ok(req.uri.as_str()) || !headers_ok(&req.headers) {
        return Err(Error::InvalidBody);
    }
    Ok(
        host::Request {
            method,
            uri: req.uri.clone(),
            headers: copy_headers(&req.headers),
            body: Some(req.body.to_vec()),
        },
    )
}

/// Builds the host's record of an ergonomic response; a response that `http`
/// could not hold is refused.
pub fn response_to_host(res: &Response) -> (r: Result<host::Response, Error>)
    ensures
        match host_of_response(res@) {
            Ok(v) => r matches Ok(h) && h@ == v,
            Err(e) => r matches Err(x) && x == e,
        },
{
    if !status_ok(res.status) {
        return Err(Error::InvalidStatusCode(res.status));
    }
    if !headers_ok(&res.headers) {
        return Err(Error::InvalidBody);
    }
    let headers = if res.headers.len() == 0 {
        None
    } else {
        Some(copy_headers(&res.headers))
    };
    Ok(host::Response { status: res.status, headers, body: Some(res.body.to_vec()) })
}

/// Builds the ergonomic response from the host's record.
pub fn response_from_host(res: host::Response) -> (r: Result<Response, Error>)
    ensures
        match response_of_host(res@) {
            Ok(v) => r matches Ok(s) && s@ == v,
            Err(e) => r matches Err(x) && x == e,
        },
{
    let host::Response { status, headers, body } = res;
    if !status_ok(status) {
        return Err(Error::InvalidStatusCode(status));
    }
    let ghost given = res@.headers;
    let headers = match headers {
        None => Vec::new(),
        Some(h) => h,
    };
    assert(headers.deep_view() =~= match given {
        None => seq![],
        Some(hs) => hs,
    });
    if !headers_ok(&headers) {
        return Err(Error::InvalidBody);
    }
    Ok(Response { status, headers, body: body_from_host(body) })
}

/// Every method that the host carries comes back to itself through the
/// host's tag, and every host tag comes back to itself through its method;
/// the other methods have no tag.
pub proof fn lemma_method_bijection(m: Method, h: host::Method)
    ensures
        host_method_of(method_of_host(h)) == Some(h),
        host_method_of(m) == Some(h) ==> method_of_host(h) == m,
        host_method_of(m) is None <==> (m == Method::Connect || m == Method::Trace),
{
}

/// A request that `http` could hold, with a method that the host carries,
/// comes back from the host's record with its method, URI, headers in order
/// and body bytes.
pub proof fn lemma_request_round_trip(r: RequestView)
    requires
        r.valid(),
        host_method_of(r.method) is Some,
    ensures
        host_of_request(r) matches Ok(h) && request_of_host(h) matches Ok(d) && d.method
            == r.method && d.uri == r.uri && d.headers == r.headers && d.body.bytes
            == r.body.bytes,
{
}

/// A valid response comes back from the host's record with its status,
/// headers in order and body bytes; on the host's side its headers are absent
/// exactly when it has none.
pub proof fn lemma_response_round_trip(s: ResponseView)
    requires
        s.valid(),
    ensures
        host_of_response(s) is Ok,
        host_of_response(s) matches Ok(h) ==> (response_of_host(h) matches Ok(d) && d.status
            == s.status && d.headers == s.headers && d.body.bytes == s.body.bytes && (h.headers is None)
            == (s.headers.len() == 0)),
{
}

} // verus!
