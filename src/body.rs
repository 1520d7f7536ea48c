//! A request or response body: bytes with a content-type label fixed when the
//! body is made.
use vstd::prelude::*;
use vstd::string::StringSliceAdditionalSpecFns;
use bytes::Bytes;
use serde_json::Error as JsonError;

verus! {

#[verifier::external_type_specification]
#[verifier::external_body]
pub struct ExBytes(Bytes);

/// The bytes that a `Bytes` buffer holds.
pub uninterp spec fn bytes_content(b: Bytes) -> Seq<u8>;

/// Relies on `From<Vec<u8>> for bytes::Bytes`: the buffer holds the vector's bytes.
#[verifier::external_body]
fn bytes_from_vec(v: Vec<u8>) -> (r: Bytes)
    ensures
        bytes_content(r) == v@,
{
    Bytes::from(v)
}

/// Relies on `<[u8]>::to_vec` through `Deref for bytes::Bytes`: a copy of the
/// bytes held.
#[verifier::external_body]
fn bytes_to_vec(b: &Bytes) -> (r: Vec<u8>)
    ensures
        r@ == bytes_content(*b),
{
    b.to_vec()
}

/// Relies on `mime::TEXT_PLAIN_UTF_8` and its `Display`.
#[verifier::external_body]
fn text_plain_utf_8() -> (r: String)
    ensures
        r@ == text_plain(),
{
    mime::TEXT_PLAIN_UTF_8.to_string()
}

/// Relies on `mime::APPLICATION_OCTET_STREAM` and its `Display`.
#[verifier::external_body]
fn application_octet_stream() -> (r: String)
    ensures
        r@ == octet_stream(),
{
    mime::APPLICATION_OCTET_STREAM.to_string()
}

/// Relies on `mime::APPLICATION_JSON` and its `Display`.
#[verifier::external_body]
fn application_json() -> (r: String)
    ensures
        r@ == json(),
{
    mime::APPLICATION_JSON.to_string()
}

#[verifier::external_type_specification]
#[verifier::external_body]
pub struct ExJsonValue(serde_json::Value);

#[verifier::external_type_specification]
#[verifier::external_body]
pub struct ExJsonError(JsonError);

/// Relies on `serde_json::to_vec`: serialising a `Value` into a vector never
/// fails, since its map keys are strings and writing to a `Vec` cannot fail.
#[verifier::external_body]
fn json_to_vec(value: &serde_json::Value) -> (r: Result<Vec<u8>, JsonError>)
    ensures
        r is Ok,
{
    serde_json::to_vec(value)
}

/// The label of a body made from text.
pub open spec fn text_plain() -> Seq<char> {
    "text/plain; charset=utf-8"@
}

/// The label of a body made from raw bytes.
pub open spec fn octet_stream() -> Seq<char> {
    "application/octet-stream"@
}

/// The label of a body made from a JSON value.
pub open spec fn json() -> Seq<char> {
    "application/json"@
}

/// What a body is: its label and its bytes.
pub struct BodyView {
    pub content_type: Seq<char>,
    pub bytes: Seq<u8>,
}

/// Request or response body.
#[derive(Debug)]
pub struct Body {
    content_type: String,
    inner: Bytes,
}

impl View for Body {
    type V = BodyView;

    closed spec fn view(&self) -> BodyView {
        BodyView { content_type: self.content_type@, bytes: bytes_content(self.inner) }
    }
}

impl Default for Body {
    /// The empty text body.
    fn default() -> (r: Self)
        ensures
            r@ == (BodyView { content_type: text_plain(), bytes: seq![] }),
    {
        Body { content_type: text_plain_utf_8(), inner: bytes_from_vec(Vec::new()) }
    }
}

impl Body {
    /// The empty text body.
    pub fn empty() -> (r: Self)
        ensures
            r@ == (BodyView { content_type: text_plain(), bytes: seq![] }),
    {
        Body::default()
    }

    /// A text body holding the UTF-8 encoding of `value`.
    pub fn from_text(value: &str) -> (r: Self)
        ensures
            r@ == (BodyView { content_type: text_plain(), bytes: value.spec_bytes() }),
    {
        Body {
            content_type: text_plain_utf_8(),
            inner: bytes_from_vec(vstd::slice::slice_to_vec(value.as_bytes())),
        }
    }

    /// A raw body holding `value`.
    pub fn from_bytes(value: Vec<u8>) -> (r: Self)
        ensures
            r@ == (BodyView { content_type: octet_stream(), bytes: value@ }),
    {
        Body { content_type: application_octet_stream(), inner: bytes_from_vec(value) }
    }

    /// A JSON body holding the serialisation of `value`, which always
    /// succeeds for a `Value`.
    pub fn try_from_json(value: serde_json::Value) -> (r: Result<Self, JsonError>)
        ensures
            r is Ok,
            r matches Ok(b) ==> b@.content_type == json(),
    {
        match json_to_vec(&value) {
            Ok(bytes) => Ok(Body { content_type: application_json(), inner: bytes_from_vec(bytes) }),
            Err(e) => Err(e),
        }
    }

    /// The content-type label.
    pub fn content_type(&self) -> (r: String)
        ensures
            r@ == self@.content_type,
    {
        self.content_type.clone()
    }

    /// A copy of the bytes.
    pub fn to_vec(&self) -> (r: Vec<u8>)
        ensures
            r@ == self@.bytes,
    {
        bytes_to_vec(&self.inner)
    }
}

} // verus!
