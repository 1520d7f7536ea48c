//! The host's flat request and response records.
use vstd::prelude::*;

verus! {

/// The methods that the host's records can carry.
#[derive(Clone, Copy, Debug, PartialEq, Eq, Structural)]
pub enum Method {
    Get,
    Post,
    Put,
    Delete,
    Head,
    Patch,
    Options,
}

/// A request as the host delivers or accepts it.
#[derive(Debug)]
pub struct Request {
    pub method: Method,
    pub uri: String,
    pub headers: Vec<(String, String)>,
    pub body: Option<Vec<u8>>,
}

/// A response as the host delivers or accepts it.
#[derive(Debug)]
pub struct Response {
    pub status: u16,
    pub headers: Option<Vec<(String, String)>>,
    pub body: Option<Vec<u8>>,
}

/// Header pairs, name then value, in order.
pub type HeadersView = Seq<(Seq<char>, Seq<char>)>;

pub struct RequestView {
    pub method: Method,
    pub uri: Seq<char>,
    pub headers: HeadersView,
    pub body: Option<Seq<u8>>,
}

pub struct ResponseView {
    pub status: u16,
    pub headers: Option<HeadersView>,
    pub body: Option<Seq<u8>>,
}

/// The bytes of an optional body.
pub open spec fn bytes_view(body: &Option<Vec<u8>>) -> Option<Seq<u8>> {
    match body {
        Some(b) => Some(b@),
        None => None,
    }
}

impl View for Request {
    type V = RequestView;

    open spec fn view(&self) -> RequestView {
        RequestView {
            method: self.method,
            uri: self.uri@,
            headers: self.headers.deep_view(),
            body: bytes_view(&self.body),
        }
    }
}

impl View for Response {
    type V = ResponseView;

    open spec fn view(&self) -> ResponseView {
        ResponseView {
            status: self.status,
            headers: self.headers.deep_view(),
            body: bytes_view(&self.body),
        }
    }
}

} // verus!
