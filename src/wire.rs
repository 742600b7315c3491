//! Wire primitives: little-endian integers, one-byte booleans and
//! NUL-terminated strings.

use vstd::prelude::*;
use vstd::utf8::{decode_utf8, encode_utf8, valid_utf8};

verus! {

/// The byte that stands for a boolean.
pub open spec fn bool_byte(b: bool) -> u8 {
    if b {
        1
    } else {
        0
    }
}

/// The two little-endian bytes of a `u16`.
pub open spec fn u16_bytes(x: u16) -> Seq<u8> {
    seq![x as u8, (x >> 8u16) as u8]
}

/// The four little-endian bytes of a `u32`.
pub open spec fn u32_bytes(x: u32) -> Seq<u8> {
    seq![x as u8, (x >> 8u32) as u8, (x >> 16u32) as u8, (x >> 24u32) as u8]
}

/// The eight little-endian bytes of a `u64`.
pub open spec fn u64_bytes(x: u64) -> Seq<u8> {
    seq![
        x as u8,
        (x >> 8u64) as u8,
        (x >> 16u64) as u8,
        (x >> 24u64) as u8,
        (x >> 32u64) as u8,
        (x >> 40u64) as u8,
        (x >> 48u64) as u8,
        (x >> 56u64) as u8,
    ]
}

/// The `u16` held by the first two bytes of `b`, little-endian.
pub open spec fn u16_of(b: Seq<u8>) -> u16 {
    (b[0] as u16) | ((b[1] as u16) << 8u16)
}

/// The `u32` held by the first four bytes of `b`, little-endian.
pub open spec fn u32_of(b: Seq<u8>) -> u32 {
    (b[0] as u32) | ((b[1] as u32) << 8u32) | ((b[2] as u32) << 16u32) | ((b[3] as u32)
        << 24u32)
}

/// The `u64` held by the first eight bytes of `b`, little-endian.
pub open spec fn u64_of(b: Seq<u8>) -> u64 {
    (b[0] as u64) | ((b[1] as u64) << 8u64) | ((b[2] as u64) << 16u64) | ((b[3] as u64)
        << 24u64) | ((b[4] as u64) << 32u64) | ((b[5] as u64) << 40u64) | ((b[6] as u64)
        << 48u64) | ((b[7] as u64) << 56u64)
}

/// Reading the bytes of a `u16` gives it back.
pub proof fn lemma_u16_round_trip(x: u16)
    ensures
        u16_of(u16_bytes(x)) == x,
{
    let b = u16_bytes(x);
    assert(b[0] == x as u8 && b[1] == (x >> 8u16) as u8);
    assert(((x as u8) as u16) | ((((x >> 8u16) as u8) as u16) << 8u16) == x) by (bit_vector);
}

/// Reading the bytes of a `u32` gives it back.
pub proof fn lemma_u32_round_trip(x: u32)
    ensures
        u32_of(u32_bytes(x)) == x,
{
    let b = u32_bytes(x);
    assert(b[0] == x as u8 && b[1] == (x >> 8u32) as u8 && b[2] == (x >> 16u32) as u8 && b[3]
        == (x >> 24u32) as u8);
    assert(((x as u8) as u32) | ((((x >> 8u32) as u8) as u32) << 8u32) | ((((x >> 16u32) as u8)
        as u32) << 16u32) | ((((x >> 24u32) as u8) as u32) << 24u32) == x) by (bit_vector);
}

/// Reading the bytes of a `u64` gives it back.
pub proof fn lemma_u64_round_trip(x: u64)
    ensures
        u64_of(u64_bytes(x)) == x,
{
    let b = u64_bytes(x);
    assert(b[0] == x as u8 && b[1] == (x >> 8u64) as u8 && b[2] == (x >> 16u64) as u8 && b[3]
        == (x >> 24u64) as u8 && b[4] == (x >> 32u64) as u8 && b[5] == (x >> 40u64) as u8
        && b[6] == (x >> 48u64) as u8 && b[7] == (x >> 56u64) as u8);
    assert(((x as u8) as u64) | ((((x >> 8u64) as u8) as u64) << 8u64) | ((((x >> 16u64) as u8)
        as u64) << 16u64) | ((((x >> 24u64) as u8) as u64) << 24u64) | ((((x >> 32u64) as u8)
        as u64) << 32u64) | ((((x >> 40u64) as u8) as u64) << 40u64) | ((((x >> 48u64) as u8)
        as u64) << 48u64) | ((((x >> 56u64) as u8) as u64) << 56u64) == x) by (bit_vector);
}

/// A signed integer survives being written as the unsigned one of its width.
pub proof fn lemma_signed_round_trip(a: i8, b: i16, c: i32, d: i64)
    ensures
        (#[verifier::truncate] (a as u8)) as i8 == a,
        (#[verifier::truncate] (b as u16)) as i16 == b,
        (#[verifier::truncate] (c as u32)) as i32 == c,
        (#[verifier::truncate] (d as u64)) as i64 == d,
{
    assert((#[verifier::truncate] (a as u8)) as i8 == a) by (bit_vector);
    assert((#[verifier::truncate] (b as u16)) as i16 == b) by (bit_vector);
    assert((#[verifier::truncate] (c as u32)) as i32 == c) by (bit_vector);
    assert((#[verifier::truncate] (d as u64)) as i64 == d) by (bit_vector);
}

/// `k` is the position of the first `0x00` byte of `s`.
pub open spec fn is_first_nul(s: Seq<u8>, k: int) -> bool {
    &&& 0 <= k < s.len()
    &&& s[k] == 0
    &&& forall|j: int| 0 <= j < k ==> s[j] != 0
}

/// `s` holds a `0x00` byte.
pub open spec fn has_nul(s: Seq<u8>) -> bool {
    exists|k: int| 0 <= k < s.len() && s[k] == 0
}

/// The position of the first `0x00` byte of `s`, where it has one.
pub open spec fn first_nul(s: Seq<u8>) -> int
    recommends
        has_nul(s),
{
    choose|k: int| is_first_nul(s, k)
}

/// The first `0x00` byte is unique.
pub proof fn lemma_first_nul(s: Seq<u8>, k: int)
    requires
        is_first_nul(s, k),
    ensures
        has_nul(s),
        first_nul(s) == k,
{
    assert(exists|k: int| is_first_nul(s, k));
    let f = first_nul(s);
    if f < k {
    } else if k < f {
    }
}

proof fn lemma_some_first_nul(s: Seq<u8>, k0: int)
    requires
        0 <= k0 < s.len(),
        s[k0] == 0,
    ensures
        exists|k: int| is_first_nul(s, k),
    decreases k0,
{
    if forall|j: int| 0 <= j < k0 ==> s[j] != 0 {
        assert(is_first_nul(s, k0));
    } else {
        let j = choose|j: int| 0 <= j < k0 && s[j] == 0;
        lemma_some_first_nul(s, j);
    }
}

/// A sequence that holds a `0x00` byte has a first one.
pub proof fn lemma_first_nul_exists(s: Seq<u8>)
    requires
        has_nul(s),
    ensures
        is_first_nul(s, first_nul(s)),
{
    let k0 = choose|k: int| 0 <= k < s.len() && s[k] == 0;
    lemma_some_first_nul(s, k0);
}

/// Appends the little-endian bytes of `x`.
pub fn push_u16(out: &mut Vec<u8>, x: u16)
    ensures
        final(out)@ == old(out)@ + u16_bytes(x),
{
    out.push(x as u8);
    out.push((x >> 8u16) as u8);
    assert(final(out)@ =~= old(out)@ + u16_bytes(x));
}

/// Appends the little-endian bytes of `x`.
pub fn push_u32(out: &mut Vec<u8>, x: u32)
    ensures
        final(out)@ == old(out)@ + u32_bytes(x),
{
    out.push(x as u8);
    out.push((x >> 8u32) as u8);
    out.push((x >> 16u32) as u8);
    out.push((x >> 24u32) as u8);
    assert(final(out)@ =~= old(out)@ + u32_bytes(x));
}

/// Appends the little-endian bytes of `x`.
pub fn push_u64(out: &mut Vec<u8>, x: u64)
    ensures
        final(out)@ == old(out)@ + u64_bytes(x),
{
    out.push(x as u8);
    out.push((x >> 8u64) as u8);
    out.push((x >> 16u64) as u8);
    out.push((x >> 24u64) as u8);
    out.push((x >> 32u64) as u8);
    out.push((x >> 40u64) as u8);
    out.push((x >> 48u64) as u8);
    out.push((x >> 56u64) as u8);
    assert(final(out)@ =~= old(out)@ + u64_bytes(x));
}

/// The bytes of a string on the wire: its UTF-8 bytes and a `0x00`.
pub open spec fn str_bytes(s: Seq<char>) -> Seq<u8> {
    encode_utf8(s).push(0)
}

/// Appends the UTF-8 bytes of `s` and a `0x00`.
pub fn push_str(out: &mut Vec<u8>, s: &str)
    ensures
        final(out)@ == old(out)@ + str_bytes(s@),
{
    let b = s.as_bytes();
    let mut i: usize = 0;
    while i < b.len()
        invariant
            0 <= i <= b@.len(),
            b@ == encode_utf8(s@),
            out@ == old(out)@ + b@.subrange(0, i as int),
        decreases b@.len() - i,
    {
        out.push(b[i]);
        i = i + 1;
        assert(out@ =~= old(out)@ + b@.subrange(0, i as int));
    }
    out.push(0u8);
    assert(out@ =~= old(out)@ + str_bytes(s@));
}

/// The `u16` at `pos` in `b`.
pub fn read_u16_at(b: &[u8], pos: usize) -> (r: u16)
    requires
        pos + 2 <= b@.len(),
    ensures
        r == u16_of(b@.subrange(pos as int, pos + 2)),
{
    (b[pos] as u16) | ((b[pos + 1] as u16) << 8u16)
}

/// The `u32` at `pos` in `b`.
pub fn read_u32_at(b: &[u8], pos: usize) -> (r: u32)
    requires
        pos + 4 <= b@.len(),
    ensures
        r == u32_of(b@.subrange(pos as int, pos + 4)),
{
    (b[pos] as u32) | ((b[pos + 1] as u32) << 8u32) | ((b[pos + 2] as u32) << 16u32) | ((b[pos
        + 3] as u32) << 24u32)
}

/// The `u64` at `pos` in `b`.
pub fn read_u64_at(b: &[u8], pos: usize) -> (r: u64)
    requires
        pos + 8 <= b@.len(),
    ensures
        r == u64_of(b@.subrange(pos as int, pos + 8)),
{
    (b[pos] as u64) | ((b[pos + 1] as u64) << 8u64) | ((b[pos + 2] as u64) << 16u64) | ((b[pos
        + 3] as u64) << 24u64) | ((b[pos + 4] as u64) << 32u64) | ((b[pos + 5] as u64) << 40u64)
        | ((b[pos + 6] as u64) << 48u64) | ((b[pos + 7] as u64) << 56u64)
}

/// The position of the first `0x00` byte of `b` at or after `pos`.
pub fn find_nul(b: &[u8], pos: usize) -> (r: Option<usize>)
    requires
        pos <= b@.len(),
    ensures
        r is None <==> !has_nul(b@.subrange(pos as int, b@.len() as int)),
        r matches Some(k) ==> pos <= k && is_first_nul(
            b@.subrange(pos as int, b@.len() as int),
            k - pos,
        ),
{
    let ghost s = b@.subrange(pos as int, b@.len() as int);
    let mut i: usize = pos;
    while i < b.len()
        invariant
            pos <= i <= b@.len(),
            s == b@.subrange(pos as int, b@.len() as int),
            forall|j: int| pos <= j < i ==> b@[j] != 0,
        decreases b@.len() - i,
    {
        if b[i] == 0 {
            assert(is_first_nul(s, i - pos));
            return Some(i);
        }
        i = i + 1;
    }
    assert(!has_nul(s)) by {
        if has_nul(s) {
            let k = choose|k: int| 0 <= k < s.len() && s[k] == 0;
            assert(b@[pos + k] == 0);
        }
    }
    None
}

/// Relies on `std::str::from_utf8`: it accepts exactly the well-formed UTF-8
/// byte strings, and then holds their characters.
#[verifier::external_body]
pub(crate) fn utf8_string(b: &[u8]) -> (r: Option<String>)
    ensures
        r is Some <==> valid_utf8(b@),
        r matches Some(s) ==> s@ == decode_utf8(b@),
{
    match std::str::from_utf8(b) {
        Ok(s) => Some(s.to_string()),
        Err(_) => None,
    }
}

} // verus!
