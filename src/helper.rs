//! The wire list: a count-prefixed sequence of length-prefixed byte strings.
//!
//! Layout: a little-endian `u32` item count, then one little-endian `u32`
//! length per item, then each item's bytes followed by one separator byte.
use vstd::prelude::*;
use vstd::arithmetic::div_mod::lemma_fundamental_div_mod;
use vstd::slice::{slice_subrange, slice_to_vec};

verus! {

/// The number held by the four bytes of `b` that start at `at`, least
/// significant first.
pub open spec fn le_u32(b: Seq<u8>, at: int) -> nat {
    b[at] as nat + 256 * (b[at + 1] as nat) + 65536 * (b[at + 2] as nat) + 16777216 * (
    b[at + 3] as nat)
}

/// The four little-endian bytes of `n` (for `n < 2^32`).
pub open spec fn le_bytes(n: nat) -> Seq<u8> {
    seq![
        (n % 256) as u8,
        (n / 256 % 256) as u8,
        (n / 256 / 256 % 256) as u8,
        (n / 256 / 256 / 256 % 256) as u8,
    ]
}

/// The item count that a wire list declares.
pub open spec fn list_count(b: Seq<u8>) -> nat {
    le_u32(b, 0)
}

/// The declared length of item `n`.
pub open spec fn item_len(b: Seq<u8>, n: int) -> nat {
    le_u32(b, 4 + 4 * n)
}

/// Where the bytes of item `n` start: after the length table and after each
/// earlier item with its separator.
pub open spec fn item_start(b: Seq<u8>, n: nat) -> nat
    decreases n,
{
    if n == 0 {
        4 + 4 * list_count(b)
    } else {
        item_start(b, (n - 1) as nat) + item_len(b, n - 1) + 1
    }
}

/// A wire list whose declared items all lie inside the buffer. A buffer of
/// fewer than four bytes is read as the empty list.
pub open spec fn list_fits(b: Seq<u8>) -> bool {
    b.len() < 4 || list_count(b) == 0 || item_start(b, list_count(b)) <= b.len()
}

/// The items that a wire list holds.
pub open spec fn list_items(b: Seq<u8>) -> Seq<Seq<u8>> {
    if b.len() < 4 {
        seq![]
    } else {
        Seq::new(
            list_count(b),
            |n: int| b.subrange(item_start(b, n as nat) as int, (item_start(b, n as nat) + item_len(b, n)) as int),
        )
    }
}

/// The length table of a wire list holding `xs`.
pub open spec fn length_table(xs: Seq<Seq<u8>>) -> Seq<u8>
    decreases xs.len(),
{
    if xs.len() == 0 {
        seq![]
    } else {
        length_table(xs.drop_last()) + le_bytes(xs.last().len())
    }
}

/// The payload region of a wire list holding `xs`: each item, then a zero byte.
pub open spec fn payloads(xs: Seq<Seq<u8>>) -> Seq<u8>
    decreases xs.len(),
{
    if xs.len() == 0 {
        seq![]
    } else {
        payloads(xs.drop_last()) + xs.last() + seq![0u8]
    }
}

/// The wire list that holds `xs`.
pub open spec fn list_encoding(xs: Seq<Seq<u8>>) -> Seq<u8> {
    le_bytes(xs.len()) + length_table(xs) + payloads(xs)
}

/// A sequence whose count and lengths each fit in a `u32`.
pub open spec fn encodable(xs: Seq<Seq<u8>>) -> bool {
    xs.len() <= u32::MAX && forall|i: int| 0 <= i < xs.len() ==> #[trigger] xs[i].len() <= u32::MAX
}

/// Offset of item `n` inside the payload region of `xs`.
pub open spec fn payload_offset(xs: Seq<Seq<u8>>, n: nat) -> nat
    decreases n,
{
    if n == 0 {
        0
    } else {
        payload_offset(xs, (n - 1) as nat) + xs[n - 1].len() + 1
    }
}

/// A wire list that declares more than the buffer holds.
#[derive(Debug, PartialEq, Eq, Structural)]
pub struct MalformedList;

proof fn lemma_le_round_trip(n: nat)
    requires
        n <= u32::MAX,
    ensures
        le_u32(le_bytes(n), 0) == n,
        le_bytes(n).len() == 4,
{
    let q1 = n / 256;
    let q2 = q1 / 256;
    let q3 = q2 / 256;
    lemma_fundamental_div_mod(n as int, 256);
    lemma_fundamental_div_mod(q1 as int, 256);
    lemma_fundamental_div_mod(q2 as int, 256);
    lemma_fundamental_div_mod(q3 as int, 256);
    assert(q3 < 256) by (nonlinear_arith)
        requires
            n <= u32::MAX,
            q1 == n / 256,
            q2 == q1 / 256,
            q3 == q2 / 256,
    ;
}

proof fn lemma_item_start_grows(b: Seq<u8>, i: nat, j: nat)
    requires
        i <= j,
    ensures
        item_start(b, i) + (j - i) <= item_start(b, j),
    decreases j - i,
{
    if i < j {
        lemma_item_start_grows(b, i, (j - 1) as nat);
    }
}

/// Reads the little-endian `u32` at `at`.
pub(crate) fn read_u32_le(b: &[u8], at: usize) -> (r: u32)
    requires
        at + 4 <= b@.len(),
    ensures
        r as nat == le_u32(b@, at as int),
{
    let b0 = b[at] as u32;
    let b1 = b[at + 1] as u32;
    let b2 = b[at + 2] as u32;
    let b3 = b[at + 3] as u32;
    b0 + b1 * 256 + b2 * 65536 + b3 * 16777216
}

/// Decodes a wire list into its items.
///
/// A buffer shorter than four bytes is the empty list. A buffer that declares
/// an item reaching past its end is refused rather than read out of bounds.
pub fn deserialize_list(bytes: &[u8]) -> (r: Result<Vec<Vec<u8>>, MalformedList>)
    ensures
        r is Ok <==> list_fits(bytes@),
        r matches Ok(items) ==> items.deep_view() == list_items(bytes@),
{
    let mut list: Vec<Vec<u8>> = Vec::new();
    let len = bytes.len();
    if len < 4 {
        assert(list.deep_view() =~= list_items(bytes@));
        return Ok(list);
    }
    let size = read_u32_le(bytes, 0) as usize;
    if size > (len - 4) / 4 {
        proof {
            lemma_item_start_grows(bytes@, 0, size as nat);
        }
        return Err(MalformedList);
    }
    let mut p: usize = 4 + size * 4;
    let mut n: usize = 0;
    while n < size
        invariant
            len == bytes@.len(),
            4 <= len,
            size == list_count(bytes@),
            4 + 4 * size <= len,
            n <= size,
            p == item_start(bytes@, n as nat),
            p <= len,
            list.deep_view() =~= list_items(bytes@).take(n as int),
        decreases size - n,
    {
        let s = 4 + n * 4;
        let item = read_u32_le(bytes, s) as usize;
        if item >= len - p {
            proof {
                lemma_item_start_grows(bytes@, (n + 1) as nat, size as nat);
            }
            return Err(MalformedList);
        }
        let value = slice_to_vec(slice_subrange(bytes, p, p + item));
        assert(value.deep_view() =~= list_items(bytes@)[n as int]);
        let ghost before = list.deep_view();
        list.push(value);
        proof {
            assert(list.deep_view() =~= before.push(list_items(bytes@)[n as int]));
            assert(list_items(bytes@).take(n + 1) =~= list_items(bytes@).take(n as int).push(
                list_items(bytes@)[n as int],
            ));
        }
        p = p + item + 1;
        n = n + 1;
    }
    Ok(list)
}


/// Appends the four little-endian bytes of `n`.
fn push_u32_le(bytes: &mut Vec<u8>, n: u32)
    ensures
        final(bytes)@ == old(bytes)@ + le_bytes(n as nat),
{
    bytes.push((n % 256) as u8);
    bytes.push((n / 256 % 256) as u8);
    bytes.push((n / 256 / 256 % 256) as u8);
    bytes.push((n / 256 / 256 / 256 % 256) as u8);
    assert(final(bytes)@ =~= old(bytes)@ + le_bytes(n as nat));
}

/// Encodes `list` as a wire list: the inverse of [`deserialize_list`].
pub fn serialize_list(list: &Vec<Vec<u8>>) -> (r: Vec<u8>)
    requires
        encodable(list.deep_view()),
        list_encoding(list.deep_view()).len() <= usize::MAX,
    ensures
        r@ == list_encoding(list.deep_view()),
{
    let ghost xs = list.deep_view();
    let mut bytes: Vec<u8> = Vec::new();
    push_u32_le(&mut bytes, list.len() as u32);
    let mut i: usize = 0;
    while i < list.len()
        invariant
            xs == list.deep_view(),
            encodable(xs),
            i <= list.len(),
            bytes@ == le_bytes(xs.len()) + length_table(xs.take(i as int)),
        decreases list.len() - i,
    {
        assert(list[i as int].deep_view() =~= list[i as int]@);
        assert(xs.take(i + 1).drop_last() =~= xs.take(i as int));
        push_u32_le(&mut bytes, list[i].len() as u32);
        assert(bytes@ =~= le_bytes(xs.len()) + length_table(xs.take(i + 1)));
        i = i + 1;
    }
    assert(xs.take(list.len() as int) =~= xs);
    let ghost header = bytes@;
    let mut i: usize = 0;
    while i < list.len()
        invariant
            xs == list.deep_view(),
            header == le_bytes(xs.len()) + length_table(xs),
            list_encoding(xs).len() <= usize::MAX,
            i <= list.len(),
            bytes@ == header + payloads(xs.take(i as int)),
        decreases list.len() - i,
    {
        assert(list[i as int].deep_view() =~= list[i as int]@);
        assert(xs.take(i + 1).drop_last() =~= xs.take(i as int));
        proof {
            lemma_payloads_prefix_len(xs, (i + 1) as nat);
        }
        bytes.extend_from_slice(list[i].as_slice());
        bytes.push(0);
        assert(bytes@ =~= header + payloads(xs.take(i + 1)));
        i = i + 1;
    }
    assert(xs.take(list.len() as int) =~= xs);
    bytes
}

proof fn lemma_payload_offset_prefix(xs: Seq<Seq<u8>>, ys: Seq<Seq<u8>>, n: nat)
    requires
        n <= ys.len(),
        ys.len() <= xs.len(),
        forall|i: int| 0 <= i < ys.len() ==> ys[i] == xs[i],
    ensures
        payload_offset(ys, n) == payload_offset(xs, n),
    decreases n,
{
    if n > 0 {
        lemma_payload_offset_prefix(xs, ys, (n - 1) as nat);
    }
}

proof fn lemma_payload_offset_grows(xs: Seq<Seq<u8>>, i: nat, j: nat)
    requires
        i <= j,
    ensures
        payload_offset(xs, i) + (j - i) <= payload_offset(xs, j),
    decreases j - i,
{
    if i < j {
        lemma_payload_offset_grows(xs, i, (j - 1) as nat);
    }
}

proof fn lemma_payloads_len(xs: Seq<Seq<u8>>)
    ensures
        payloads(xs).len() == payload_offset(xs, xs.len()),
    decreases xs.len(),
{
    if xs.len() > 0 {
        let ys = xs.drop_last();
        lemma_payloads_len(ys);
        lemma_payload_offset_prefix(xs, ys, ys.len());
    }
}

proof fn lemma_payload_item(xs: Seq<Seq<u8>>, i: int)
    requires
        0 <= i < xs.len(),
    ensures
        payloads(xs).subrange(
            payload_offset(xs, i as nat) as int,
            (payload_offset(xs, i as nat) + xs[i].len()) as int,
        ) == xs[i],
    decreases xs.len(),
{
    let ys = xs.drop_last();
    let start = payload_offset(xs, i as nat) as int;
    let end = start + xs[i].len();
    lemma_payloads_len(ys);
    lemma_payload_offset_prefix(xs, ys, i as nat);
    lemma_payload_offset_prefix(xs, ys, ys.len());
    assert(payloads(xs) == payloads(ys) + xs.last() + seq![0u8]);
    if i < ys.len() {
        lemma_payload_item(ys, i);
        lemma_payload_offset_grows(ys, (i + 1) as nat, ys.len());
        assert(payloads(xs).subrange(start, end) =~= payloads(ys).subrange(start, end));
    } else {
        assert(payloads(xs).subrange(start, end) =~= xs[i]);
    }
}

proof fn lemma_payloads_prefix_len(xs: Seq<Seq<u8>>, n: nat)
    requires
        n <= xs.len(),
    ensures
        payloads(xs.take(n as int)).len() <= payloads(xs).len(),
    decreases xs.len() - n,
{
    if n < xs.len() {
        lemma_payloads_prefix_len(xs, n + 1);
        assert(xs.take(n + 1 as int).drop_last() =~= xs.take(n as int));
    } else {
        assert(xs.take(n as int) =~= xs);
    }
}

proof fn lemma_length_table_len(xs: Seq<Seq<u8>>)
    ensures
        length_table(xs).len() == 4 * xs.len(),
    decreases xs.len(),
{
    if xs.len() > 0 {
        lemma_length_table_len(xs.drop_last());
    }
}

proof fn lemma_length_entry(xs: Seq<Seq<u8>>, i: int)
    requires
        0 <= i < xs.len(),
    ensures
        length_table(xs).subrange(4 * i, 4 * i + 4) == le_bytes(xs[i].len()),
    decreases xs.len(),
{
    let ys = xs.drop_last();
    lemma_length_table_len(ys);
    if i < ys.len() {
        lemma_length_entry(ys, i);
        assert(length_table(xs).subrange(4 * i, 4 * i + 4) =~= length_table(ys).subrange(
            4 * i,
            4 * i + 4,
        ));
    } else {
        assert(length_table(xs).subrange(4 * i, 4 * i + 4) =~= le_bytes(xs[i].len()));
    }
}

proof fn lemma_count(xs: Seq<Seq<u8>>)
    requires
        encodable(xs),
    ensures
        list_encoding(xs).len() >= 4,
        list_count(list_encoding(xs)) == xs.len(),
{
    let b = list_encoding(xs);
    lemma_le_round_trip(xs.len());
    assert(b.subrange(0, 4) =~= le_bytes(xs.len()));
    assert(le_u32(b, 0) == le_u32(b.subrange(0, 4), 0));
}

proof fn lemma_item_len(xs: Seq<Seq<u8>>, n: int)
    requires
        encodable(xs),
        0 <= n < xs.len(),
    ensures
        item_len(list_encoding(xs), n) == xs[n].len(),
{
    let b = list_encoding(xs);
    lemma_length_table_len(xs);
    lemma_length_entry(xs, n);
    lemma_le_round_trip(xs[n].len());
    assert(b.subrange(4 + 4 * n, 8 + 4 * n) =~= length_table(xs).subrange(4 * n, 4 * n + 4));
    assert(le_u32(b, 4 + 4 * n) == le_u32(b.subrange(4 + 4 * n, 8 + 4 * n), 0));
}

proof fn lemma_item_start_offset(xs: Seq<Seq<u8>>, n: nat)
    requires
        encodable(xs),
        n <= xs.len(),
    ensures
        item_start(list_encoding(xs), n) == 4 + 4 * xs.len() + payload_offset(xs, n),
    decreases n,
{
    lemma_count(xs);
    if n > 0 {
        lemma_item_start_offset(xs, (n - 1) as nat);
        lemma_item_len(xs, n - 1);
    }
}

/// Decoding the wire list that encodes `xs` gives back `xs`, for every
/// sequence whose count and lengths fit in a `u32`, empty items and zero bytes
/// included.
pub proof fn lemma_list_round_trip(xs: Seq<Seq<u8>>)
    requires
        encodable(xs),
    ensures
        list_fits(list_encoding(xs)),
        list_items(list_encoding(xs)) == xs,
{
    let b = list_encoding(xs);
    let c = xs.len();
    lemma_count(xs);
    lemma_length_table_len(xs);
    lemma_payloads_len(xs);
    lemma_item_start_offset(xs, c);
    assert forall|n: int| 0 <= n < c implies #[trigger] list_items(b)[n] == xs[n] by {
        lemma_item_len(xs, n);
        lemma_item_start_offset(xs, n as nat);
        lemma_payload_item(xs, n);
        lemma_payload_offset_grows(xs, (n + 1) as nat, c);
        let start = payload_offset(xs, n as nat) as int;
        assert(list_items(b)[n] =~= payloads(xs).subrange(start, start + xs[n].len()));
    }
    assert(list_items(b) =~= xs);
}

} // verus!
