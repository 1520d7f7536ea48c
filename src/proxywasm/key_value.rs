//! The key-value store.
use vstd::prelude::*;
use vstd::string::StringExecFns;
use crate::helper::{deserialize_list, list_fits, list_items, le_u32, read_u32_le};
use crate::host::bytes_view;
use crate::text::{decimal, decimal_text};

verus! {

/// The set of errors which may be raised by the store's operations.
#[derive(Debug, Clone)]
pub enum Error {
    /// The host does not recognise the store name.
    NoSuchStore,
    /// The caller may not use the store (which may or may not exist).
    AccessDenied,
    /// Some other failure, described.
    Other(String),
}

pub enum ErrorView {
    NoSuchStore,
    AccessDenied,
    Other(Seq<char>),
}

impl View for Error {
    type V = ErrorView;

    open spec fn view(&self) -> ErrorView {
        match self {
            Error::NoSuchStore => ErrorView::NoSuchStore,
            Error::AccessDenied => ErrorView::AccessDenied,
            Error::Other(m) => ErrorView::Other(m@),
        }
    }
}

/// The text that describes an error.
pub open spec fn error_text(e: ErrorView) -> Seq<char> {
    match e {
        ErrorView::NoSuchStore => "no such store"@,
        ErrorView::AccessDenied => "access denied"@,
        ErrorView::Other(m) => "other error: "@ + m,
    }
}

impl Error {
    /// The text that describes the error.
    pub fn to_string(&self) -> (r: String)
        ensures
            r@ == error_text(self@),
    {
        match self {
            Error::NoSuchStore => String::from_str("no such store"),
            Error::AccessDenied => String::from_str("access denied"),
            Error::Other(m) => String::from_str("other error: ").concat(m.as_str()),
        }
    }
}

/// The description of a status that the call does not document.
pub open spec fn unexpected_text(status: u32) -> Seq<char> {
    "unexpected status: "@ + decimal(status as nat)
}

/// The description of a result list that does not fit its buffer.
pub open spec fn malformed_text() -> Seq<char> {
    "malformed value list"@
}

fn unexpected(status: u32) -> (e: Error)
    ensures
        e@ == ErrorView::Other(unexpected_text(status)),
{
    Error::Other(String::from_str("unexpected status: ").concat(decimal_text(status).as_str()))
}

fn malformed() -> (e: Error)
    ensures
        e@ == ErrorView::Other(malformed_text()),
{
    Error::Other(String::from_str("malformed value list"))
}

/// The number held by eight little-endian bytes.
pub open spec fn le_u64(b: Seq<u8>) -> nat {
    le_u32(b, 0) + 4294967296 * le_u32(b, 4)
}

/// A scored entry: the value, then the raw bits of its `f64` score as the
/// last eight bytes, little-endian. An item of eight bytes or fewer is the
/// empty value with the score bits of zero.
pub open spec fn scored_entry(item: Seq<u8>) -> (Seq<u8>, u64) {
    if item.len() > 8 {
        (item.subrange(0, item.len() - 8), le_u64(item.subrange(item.len() - 8, item.len() as int)) as u64)
    } else {
        (seq![], 0)
    }
}

/// Splits a scored entry into its value and the bits of its score
/// (`f64::from_bits` gives the score).
pub fn split_scored(item: &[u8]) -> (r: (Vec<u8>, u64))
    ensures
        (r.0@, r.1) == scored_entry(item@),
{
    let len = item.len();
    if len <= 8 {
        return (Vec::new(), 0);
    }
    let at = len - 8;
    let value = vstd::slice::slice_to_vec(vstd::slice::slice_subrange(item, 0, at));
    let lo = read_u32_le(item, at);
    let hi = read_u32_le(item, at + 4);
    let bits = lo as u64 + hi as u64 * 4294967296;
    assert(le_u64(item@.subrange(at as int, len as int)) == lo + 4294967296 * hi);
    assert(value@ =~= item@.subrange(0, at as int));
    (value, bits)
}

/// The scored entries of a wire list.
pub open spec fn scored_items(b: Seq<u8>) -> Seq<(Seq<u8>, u64)> {
    list_items(b).map_values(|item: Seq<u8>| scored_entry(item))
}

/// Text decoded from bytes with each invalid UTF-8 sequence replaced.
pub uninterp spec fn lossy_text(bytes: Seq<u8>) -> Seq<char>;

/// Relies on `String::from_utf8_lossy`, which keeps valid UTF-8 as it is.
#[verifier::external_body]
fn utf8_lossy(bytes: &[u8]) -> (r: String)
    ensures
        r@ == lossy_text(bytes@),
        vstd::utf8::valid_utf8(bytes@) ==> r@ == vstd::utf8::decode_utf8(bytes@),
{
    String::from_utf8_lossy(bytes).to_string()
}

/// A store that the host has opened.
pub struct Store {
    handle: u32,
}

/// What opening a store gives for the host's `status` and `handle`.
pub open spec fn open_outcome(status: u32, handle: u32, r: Result<Store, Error>) -> bool {
    if status == 0 {
        r matches Ok(s) && s.handle() == handle
    } else if status == 1 {
        r matches Err(e) && e@ == ErrorView::NoSuchStore
    } else if status == 2 {
        r matches Err(e) && e@ == ErrorView::AccessDenied
    } else {
        r matches Err(e) && e@ == ErrorView::Other(unexpected_text(status))
    }
}

/// What a value lookup gives for the host's `status` and adopted buffer: the
/// buffer as it came, absent where the host left none.
pub open spec fn get_outcome(status: u32, buf: Option<Vec<u8>>, r: Result<Option<Vec<u8>>, Error>) -> bool {
    if status == 0 {
        r matches Ok(v) && bytes_view(&v) == bytes_view(&buf)
    } else {
        r matches Err(e) && e@ == ErrorView::Other(unexpected_text(status))
    }
}

/// What a sorted-set read gives: the scored entries of the wire list, none
/// where the host left no buffer.
pub open spec fn scored_outcome(status: u32, buf: Option<Vec<u8>>, r: Result<Vec<(Vec<u8>, u64)>, Error>) -> bool {
    if status != 0 {
        r matches Err(e) && e@ == ErrorView::Other(unexpected_text(status))
    } else {
        match buf {
            None => r matches Ok(v) && v@.len() == 0,
            Some(data) => if list_fits(data@) {
                r matches Ok(v) && v.deep_view() == scored_items(data@)
            } else {
                r matches Err(e) && e@ == ErrorView::Other(malformed_text())
            },
        }
    }
}

/// What a key scan gives: each key of the wire list as text, none where the
/// host left no buffer.
pub open spec fn scan_outcome(status: u32, buf: Option<Vec<u8>>, r: Result<Vec<String>, Error>) -> bool {
    if status != 0 {
        r matches Err(e) && e@ == ErrorView::Other(unexpected_text(status))
    } else {
        match buf {
            None => r matches Ok(v) && v@.len() == 0,
            Some(data) => if list_fits(data@) {
                r matches Ok(v) && v.deep_view() == list_items(data@).map_values(
                    |item: Seq<u8>| lossy_text(item),
                )
            } else {
                r matches Err(e) && e@ == ErrorView::Other(malformed_text())
            },
        }
    }
}

/// What a Bloom filter test gives for the host's `status` and answer `flag`.
pub open spec fn bf_exists_outcome(status: u32, flag: u32, r: Result<bool, Error>) -> bool {
    if status == 0 {
        r == Ok::<bool, Error>(flag != 0)
    } else {
        r matches Err(e) && e@ == ErrorView::Other(unexpected_text(status))
    }
}

/// Decides the outcome of opening a store: status 0 gives the store with the
/// host's handle, 1 and 2 name the failure, any other status is unexpected.
pub fn open_reply(status: u32, handle: u32) -> (r: Result<Store, Error>)
    ensures
        open_outcome(status, handle, r),
{
    match status {
        0 => Ok(Store { handle }),
        1 => Err(Error::NoSuchStore),
        2 => Err(Error::AccessDenied),
        _ => Err(unexpected(status)),
    }
}

/// Decides the outcome of a value lookup: on success the adopted buffer, or
/// `None` where the host left the pointer null.
pub fn get_reply(status: u32, buf: Option<Vec<u8>>) -> (r: Result<Option<Vec<u8>>, Error>)
    ensures
        get_outcome(status, buf, r),
{
    if status == 0 {
        Ok(buf)
    } else {
        Err(unexpected(status))
    }
}

/// Decides the outcome of a sorted-set read.
pub fn scored_reply(status: u32, buf: Option<Vec<u8>>) -> (r: Result<Vec<(Vec<u8>, u64)>, Error>)
    ensures
        scored_outcome(status, buf, r),
{
    if status != 0 {
        return Err(unexpected(status));
    }
    let data = match buf {
        None => return Ok(Vec::new()),
        Some(data) => data,
    };
    let items = match deserialize_list(data.as_slice()) {
        Ok(items) => items,
        Err(_) => return Err(malformed()),
    };
    let ghost expected = scored_items(data@);
    let mut out: Vec<(Vec<u8>, u64)> = Vec::new();
    let mut i: usize = 0;
    while i < items.len()
        invariant
            items.deep_view() == list_items(data@),
            expected == scored_items(data@),
            i <= items.len(),
            out.deep_view() =~= expected.take(i as int),
        decreases items.len() - i,
    {
        assert(items[i as int]@ == list_items(data@)[i as int]) by {
            assert(items.deep_view()[i as int] == items[i as int].deep_view());
            assert(items[i as int].deep_view() =~= items[i as int]@);
        }
        let entry = split_scored(items[i].as_slice());
        let ghost before = out.deep_view();
        out.push(entry);
        assert(entry.deep_view() == (entry.0@, entry.1)) by {
            assert(entry.0.deep_view() =~= entry.0@);
        }
        assert(out.deep_view() =~= before.push(expected[i as int]));
        i = i + 1;
    }
    assert(expected.take(items.len() as int) =~= expected);
    Ok(out)
}

/// Decides the outcome of a key scan.
pub fn scan_reply(status: u32, buf: Option<Vec<u8>>) -> (r: Result<Vec<String>, Error>)
    ensures
        scan_outcome(status, buf, r),
{
    if status != 0 {
        return Err(unexpected(status));
    }
    let data = match buf {
        None => return Ok(Vec::new()),
        Some(data) => data,
    };
    let items = match deserialize_list(data.as_slice()) {
        Ok(items) => items,
        Err(_) => return Err(malformed()),
    };
    let ghost expected = list_items(data@).map_values(|item: Seq<u8>| lossy_text(item));
    let mut out: Vec<String> = Vec::new();
    let mut i: usize = 0;
    while i < items.len()
        invariant
            items.deep_view() == list_items(data@),
            expected == list_items(data@).map_values(|item: Seq<u8>| lossy_text(item)),
            i <= items.len(),
            out.deep_view() =~= expected.take(i as int),
        decreases items.len() - i,
    {
        assert(items[i as int]@ == list_items(data@)[i as int]) by {
            assert(items.deep_view()[i as int] == items[i as int].deep_view());
            assert(items[i as int].deep_view() =~= items[i as int]@);
        }
        let key = utf8_lossy(items[i].as_slice());
        let ghost before = out.deep_view();
        out.push(key);
        assert(out.deep_view() =~= before.push(expected[i as int]));
        i = i + 1;
    }
    assert(expected.take(items.len() as int) =~= expected);
    Ok(out)
}

/// Decides the outcome of a Bloom filter test.
pub fn bf_exists_reply(status: u32, flag: u32) -> (r: Result<bool, Error>)
    ensures
        bf_exists_outcome(status, flag, r),
{
    if status == 0 {
        Ok(flag != 0)
    } else {
        Err(unexpected(status))
    }
}

impl Store {
    /// The host's handle of the store.
    pub closed spec fn handle(&self) -> u32 {
        self.handle
    }

    /// Opens the store named `default` through `call`, the host's open
    /// primitive, which returns its status and the handle it wrote.
    pub fn new<F: FnOnce(&str) -> (u32, u32)>(call: F) -> (r: Result<Self, Error>)
        requires
            forall|name: &str| call.requires((name,)),
        ensures
            exists|status: u32, handle: u32|
                call.ensures(("default",), (status, handle)) && open_outcome(status, handle, r),
    {
        Self::open("default", call)
    }

    /// Opens the store named `name` through `call`, the host's open
    /// primitive, which returns its status and the handle it wrote.
    pub fn open<F: FnOnce(&str) -> (u32, u32)>(name: &str, call: F) -> (r: Result<Self, Error>)
        requires
            forall|n: &str| call.requires((n,)),
        ensures
            exists|status: u32, handle: u32|
                call.ensures((name,), (status, handle)) && open_outcome(status, handle, r),
    {
        let (status, handle) = call(name);
        open_reply(status, handle)
    }

    /// The value stored under `key`, read through `call`, the host's lookup
    /// primitive given the handle and the key.
    pub fn get<F: FnOnce(u32, &str) -> (u32, Option<Vec<u8>>)>(&self, key: &str, call: F) -> (r:
        Result<Option<Vec<u8>>, Error>)
        requires
            forall|h: u32, k: &str| call.requires((h, k)),
        ensures
            exists|status: u32, buf: Option<Vec<u8>>|
                call.ensures((self.handle(), key), (status, buf)) && get_outcome(status, buf, r),
    {
        let (status, buf) = call(self.handle, key);
        let ghost given = buf;
        let r = get_reply(status, buf);
        assert(get_outcome(status, given, r));
        r
    }

    /// The entries of the sorted set at `key` whose score lies in a range,
    /// read through `call`, the host's range primitive given the handle and the
    /// key (the bounds travel with the call).
    pub fn zrange_by_score<F: FnOnce(u32, &str) -> (u32, Option<Vec<u8>>)>(&self, key: &str, call: F) -> (r:
        Result<Vec<(Vec<u8>, u64)>, Error>)
        requires
            forall|h: u32, k: &str| call.requires((h, k)),
        ensures
            exists|status: u32, buf: Option<Vec<u8>>|
                call.ensures((self.handle(), key), (status, buf)) && scored_outcome(status, buf, r),
    {
        let (status, buf) = call(self.handle, key);
        let ghost given = buf;
        let r = scored_reply(status, buf);
        assert(scored_outcome(status, given, r));
        r
    }

    /// The keys that match the glob-style `pattern`, read through `call`, the
    /// host's scan primitive given the handle and the pattern.
    pub fn scan<F: FnOnce(u32, &str) -> (u32, Option<Vec<u8>>)>(&self, pattern: &str, call: F) -> (r:
        Result<Vec<String>, Error>)
        requires
            forall|h: u32, p: &str| call.requires((h, p)),
        ensures
            exists|status: u32, buf: Option<Vec<u8>>|
                call.ensures((self.handle(), pattern), (status, buf)) && scan_outcome(status, buf, r),
    {
        let (status, buf) = call(self.handle, pattern);
        let ghost given = buf;
        let r = scan_reply(status, buf);
        assert(scan_outcome(status, given, r));
        r
    }

    /// The entries of the sorted set at `key` whose values match `pattern`,
    /// read through `call`, the host's primitive given the handle, the key and
    /// the pattern.
    pub fn zscan<F: FnOnce(u32, &str, &str) -> (u32, Option<Vec<u8>>)>(
        &self,
        key: &str,
        pattern: &str,
        call: F,
    ) -> (r: Result<Vec<(Vec<u8>, u64)>, Error>)
        requires
            forall|h: u32, k: &str, p: &str| call.requires((h, k, p)),
        ensures
            exists|status: u32, buf: Option<Vec<u8>>|
                call.ensures((self.handle(), key, pattern), (status, buf)) && scored_outcome(
                    status,
                    buf,
                    r,
                ),
    {
        let (status, buf) = call(self.handle, key, pattern);
        let ghost given = buf;
        let r = scored_reply(status, buf);
        assert(scored_outcome(status, given, r));
        r
    }

    /// Whether `item` was probably added to the Bloom filter at `key`, asked
    /// through `call`, the host's primitive given the handle, the key and the
    /// item, which returns its status and answer.
    pub fn bf_exists<F: FnOnce(u32, &str, &str) -> (u32, u32)>(
        &self,
        key: &str,
        item: &str,
        call: F,
    ) -> (r: Result<bool, Error>)
        requires
            forall|h: u32, k: &str, i: &str| call.requires((h, k, i)),
        ensures
            exists|status: u32, flag: u32|
                call.ensures((self.handle(), key, item), (status, flag)) && bf_exists_outcome(
                    status,
                    flag,
                    r,
                ),
    {
        let (status, flag) = call(self.handle, key, item);
        bf_exists_reply(status, flag)
    }
}

} // verus!
