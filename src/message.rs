//! The ergonomic HTTP messages that guest code builds and reads.
use vstd::prelude::*;
use crate::body::{Body, BodyView};
use crate::host::HeadersView;

verus! {

/// An HTTP request method.
#[derive(Clone, Copy, Debug, PartialEq, Eq, Structural)]
pub enum Method {
    Get,
    Post,
    Put,
    Delete,
    Head,
    Patch,
    Options,
    Connect,
    Trace,
}

/// The method's name on the wire.
pub open spec fn method_name(m: Method) -> Seq<char> {
    match m {
        Method::Get => "GET"@,
        Method::Post => "POST"@,
        Method::Put => "PUT"@,
        Method::Delete => "DELETE"@,
        Method::Head => "HEAD"@,
        Method::Patch => "PATCH"@,
        Method::Options => "OPTIONS"@,
        Method::Connect => "CONNECT"@,
        Method::Trace => "TRACE"@,
    }
}

impl Method {
    /// The method's name on the wire.
    pub fn as_str(&self) -> (r: &'static str)
        ensures
            r@ == method_name(*self),
    {
        match self {
            Method::Get => "GET",
            Method::Post => "POST",
            Method::Put => "PUT",
            Method::Delete => "DELETE",
            Method::Head => "HEAD",
            Method::Patch => "PATCH",
            Method::Options => "OPTIONS",
            Method::Connect => "CONNECT",
            Method::Trace => "TRACE",
        }
    }
}

/// A character that may stand in a header name: a token character.
pub open spec fn token_char(c: char) -> bool {
    ('0' <= c <= '9') || ('a' <= c <= 'z') || ('A' <= c <= 'Z') || c == '!' || c == '#' || c
        == '$' || c == '%' || c == '&' || c == '\'' || c == '*' || c == '+' || c == '-' || c == '.'
        || c == '^' || c == '_' || c == '`' || c == '|' || c == '~'
}

/// A header name: 1 to 65535 token characters.
pub open spec fn http_header_name(name: Seq<char>) -> bool {
    1 <= name.len() <= 65535 && forall|i: int| 0 <= i < name.len() ==> token_char(#[trigger] name[i])
}

/// Whether `http` accepts `uri` as a URI.
pub uninterp spec fn http_uri(uri: Seq<char>) -> bool;

/// A header value holds no control character but horizontal tab, and no DEL.
pub open spec fn header_value_allowed(value: Seq<char>) -> bool {
    forall|i: int|
        0 <= i < value.len() ==> ((#[trigger] value[i]) == '\t' || (value[i] as u32 >= 32
            && value[i] as u32 != 127))
}

/// Every header has a name and a value that `http` accepts.
pub open spec fn headers_valid(headers: HeadersView) -> bool {
    forall|i: int|
        0 <= i < headers.len() ==> http_header_name(#[trigger] headers[i].0)
            && header_value_allowed(headers[i].1)
}

/// A status code that a response may carry.
pub open spec fn status_valid(status: u16) -> bool {
    100 <= status <= 599
}

/// Relies on `http::HeaderName::from_bytes`, which accepts 1 to 65535 bytes,
/// each one that its `HEADER_CHARS` table maps to a non-zero byte: the token
/// characters. Every byte of a character past ASCII maps to zero.
#[verifier::external_body]
fn header_name_ok(name: &str) -> (r: bool)
    ensures
        r == http_header_name(name@),
{
    ::http::HeaderName::from_bytes(name.as_bytes()).is_ok()
}

/// Relies on `http::HeaderValue::from_str`, which accepts exactly the bytes
/// from 32 up but 127, and tab; every byte of a character past ASCII is 128 or
/// more.
#[verifier::external_body]
fn header_value_ok(value: &str) -> (r: bool)
    ensures
        r == header_value_allowed(value@),
{
    ::http::HeaderValue::from_str(value).is_ok()
}

/// Relies on `TryFrom<&str> for http::Uri`.
#[verifier::external_body]
pub(crate) fn uri_ok(uri: &str) -> (r: bool)
    ensures
        r == http_uri(uri@),
{
    ::http::Uri::try_from(uri).is_ok()
}

/// Relies on `http::StatusCode::from_u16`, which accepts 100 to 999.
#[verifier::external_body]
fn http_status_ok(status: u16) -> (r: bool)
    ensures
        r == (100 <= status <= 999),
{
    ::http::StatusCode::from_u16(status).is_ok()
}

/// Whether every header of `headers` has a valid name and value.
pub fn headers_ok(headers: &Vec<(String, String)>) -> (r: bool)
    ensures
        r == headers_valid(headers.deep_view()),
{
    let ghost dv = headers.deep_view();
    let mut i: usize = 0;
    while i < headers.len()
        invariant
            dv == headers.deep_view(),
            dv.len() == headers.len(),
            i <= headers.len(),
            forall|j: int|
                0 <= j < i ==> http_header_name((#[trigger] dv[j]).0) && header_value_allowed(dv[j].1),
        decreases headers.len() - i,
    {
        let name_ok = header_name_ok(headers[i].0.as_str());
        let value_ok = header_value_ok(headers[i].1.as_str());
        assert(dv[i as int] == (headers[i as int].0@, headers[i as int].1@));
        if !(name_ok && value_ok) {
            assert(!headers_valid(dv)) by {
                if headers_valid(dv) {
                    assert(http_header_name(dv[i as int].0));
                }
            }
            return false;
        }
        i = i + 1;
    }
    true
}

/// Whether `status` is one that a response may carry.
pub fn status_ok(status: u16) -> (r: bool)
    ensures
        r == status_valid(status),
{
    http_status_ok(status) && status <= 599
}

/// A copy of `headers`.
pub fn copy_headers(headers: &Vec<(String, String)>) -> (r: Vec<(String, String)>)
    ensures
        r.deep_view() == headers.deep_view(),
{
    let mut out: Vec<(String, String)> = Vec::new();
    let mut i: usize = 0;
    while i < headers.len()
        invariant
            i <= headers.len(),
            out.deep_view() =~= headers.deep_view().take(i as int),
        decreases headers.len() - i,
    {
        let name = headers[i].0.clone();
        let value = headers[i].1.clone();
        let ghost before = out.deep_view();
        out.push((name, value));
        assert(out.deep_view() =~= before.push(headers.deep_view()[i as int]));
        i = i + 1;
    }
    assert(headers.deep_view().take(headers.len() as int) =~= headers.deep_view());
    out
}

/// An HTTP request.
#[derive(Debug)]
pub struct Request {
    pub method: Method,
    pub uri: String,
    pub headers: Vec<(String, String)>,
    pub body: Body,
}

/// An HTTP response.
#[derive(Debug)]
pub struct Response {
    pub status: u16,
    pub headers: Vec<(String, String)>,
    pub body: Body,
}

pub struct RequestView {
    pub method: Method,
    pub uri: Seq<char>,
    pub headers: HeadersView,
    pub body: BodyView,
}

pub struct ResponseView {
    pub status: u16,
    pub headers: HeadersView,
    pub body: BodyView,
}

impl RequestView {
    /// A request that `http` could hold: its URI and headers are accepted.
    pub open spec fn valid(self) -> bool {
        http_uri(self.uri) && headers_valid(self.headers)
    }
}

impl ResponseView {
    /// A response with a status in range and headers that `http` accepts.
    pub open spec fn valid(self) -> bool {
        status_valid(self.status) && headers_valid(self.headers)
    }
}

impl View for Request {
    type V = RequestView;

    open spec fn view(&self) -> RequestView {
        RequestView {
            method: self.method,
            uri: self.uri@,
            headers: self.headers.deep_view(),
            body: self.body@,
        }
    }
}

impl View for Response {
    type V = ResponseView;

    open spec fn view(&self) -> ResponseView {
        ResponseView { status: self.status, headers: self.headers.deep_view(), body: self.body@ }
    }
}

} // verus!
