//! Packet framing: a little-endian `u16` total length, a one-byte type tag,
//! then the body.

use vstd::prelude::*;
use crate::error::Error;
use crate::ser::{Serializer, encode};
use crate::value::{Value, ValueModel};
use crate::wire::{lemma_u16_round_trip, read_u16_at, u16_bytes, u16_of};

verus! {

/// The size of a frame header: two bytes of length and one of type.
pub const HEADER_SIZE: usize = 3;

/// The largest body that a frame can carry.
pub const MAX_BODY: usize = 65532;

/// The frame that carries `body` under the type tag `tag`.
pub open spec fn frame(tag: u8, body: Seq<u8>) -> Seq<u8> {
    u16_bytes((body.len() + 3) as u16) + seq![tag] + body
}

/// Reading the frame at the front of `inp`: its type tag and body.
pub open spec fn read_frame(inp: Seq<u8>) -> Result<(u8, Seq<u8>), Error> {
    if inp.len() < 3 {
        Err(Error::UnexpectedEnd)
    } else if u16_of(inp) < 3 {
        Err(Error::MalformedHeader)
    } else if inp.len() < u16_of(inp) {
        Err(Error::UnexpectedEnd)
    } else {
        Ok((inp[2], inp.subrange(3, u16_of(inp) as int)))
    }
}

/// Writing a packet of type `tag` whose body is the encoding of `v`.
pub open spec fn packet_bytes(tag: u8, v: ValueModel) -> Result<Seq<u8>, Error> {
    match encode(v) {
        Some(b) => if b.len() <= MAX_BODY {
            Ok(frame(tag, b))
        } else {
            Err(Error::PacketTooLarge)
        },
        None => Err(Error::InvalidOption),
    }
}

/// Reads a frame header: the type tag and the length of the body that
/// follows.
pub fn parse_header(header: &[u8]) -> (r: Result<(u8, usize), Error>)
    ensures
        header@.len() < 3 ==> r == Err::<(u8, usize), Error>(Error::UnexpectedEnd),
        header@.len() >= 3 ==> match r {
            Ok((tag, n)) => u16_of(header@) >= 3 && tag == header@[2] && n == u16_of(header@)
                - 3,
            Err(e) => u16_of(header@) < 3 && e == Error::MalformedHeader,
        },
{
    if header.len() < HEADER_SIZE {
        return Err(Error::UnexpectedEnd);
    }
    let total = read_u16_at(header, 0);
    assert(header@.subrange(0, 2)[0] == header@[0] && header@.subrange(0, 2)[1] == header@[1]);
    if total < 3 {
        Err(Error::MalformedHeader)
    } else {
        Ok((header[2], (total - 3) as usize))
    }
}

/// Reads the frame at the front of `input`: its type tag and its body.
pub fn read_packet(input: &[u8]) -> (r: Result<(u8, Vec<u8>), Error>)
    ensures
        match read_frame(input@) {
            Ok((tag, body)) => r matches Ok((t, b)) && t == tag && b@ == body,
            Err(e) => r == Err::<(u8, Vec<u8>), Error>(e),
        },
{
    let (tag, n) = parse_header(input)?;
    if input.len() - HEADER_SIZE < n {
        return Err(Error::UnexpectedEnd);
    }
    let len = input.len();
    let mut body: Vec<u8> = Vec::new();
    let mut i: usize = 0;
    while i < n
        invariant
            0 <= i <= n,
            len == input@.len(),
            HEADER_SIZE + n <= len,
            body@ == input@.subrange(3, 3 + i),
        decreases n - i,
    {
        body.push(input[HEADER_SIZE + i]);
        i = i + 1;
        assert(body@ =~= input@.subrange(3, 3 + i));
    }
    Ok((tag, body))
}

/// The frame that carries `body` under the type tag `tag`.
pub fn write_frame(tag: u8, body: &[u8]) -> (r: Result<Vec<u8>, Error>)
    ensures
        body@.len() <= MAX_BODY ==> (r matches Ok(out) && out@ == frame(tag, body@)),
        body@.len() > MAX_BODY ==> r == Err::<Vec<u8>, Error>(Error::PacketTooLarge),
{
    if body.len() > MAX_BODY {
        return Err(Error::PacketTooLarge);
    }
    let total = (body.len() + HEADER_SIZE) as u16;
    let mut out: Vec<u8> = Vec::new();
    out.push(total as u8);
    out.push((total >> 8u16) as u8);
    out.push(tag);
    let mut i: usize = 0;
    while i < body.len()
        invariant
            0 <= i <= body@.len(),
            out@ == u16_bytes(total) + seq![tag] + body@.subrange(0, i as int),
        decreases body@.len() - i,
    {
        out.push(body[i]);
        i = i + 1;
        assert(out@ =~= u16_bytes(total) + seq![tag] + body@.subrange(0, i as int));
    }
    assert(body@.subrange(0, body@.len() as int) =~= body@);
    Ok(out)
}

/// The frame of a packet of type `tag` whose body is the encoding of `v`.
/// Nothing is returned but the whole frame: a value that cannot be written
/// leaves no partial output.
pub fn write_packet(tag: u8, v: &Value) -> (r: Result<Vec<u8>, Error>)
    ensures
        match packet_bytes(tag, v@) {
            Ok(b) => r matches Ok(out) && out@ == b,
            Err(e) => r == Err::<Vec<u8>, Error>(e),
        },
{
    let mut s = Serializer::new(vec![0u8, 0u8, tag]);
    s.serialize(v)?;
    let mut out = s.into_output();
    let ghost body = out@.subrange(3, out@.len() as int);
    assert(out@ =~= seq![0u8, 0u8, tag] + body);
    if out.len() - HEADER_SIZE > MAX_BODY {
        return Err(Error::PacketTooLarge);
    }
    let total = out.len() as u16;
    out[0] = total as u8;
    out[1] = (total >> 8u16) as u8;
    assert(out@ =~= frame(tag, body));
    Ok(out)
}

/// Framing: reading the frame of a tag and a body gives them back.
pub proof fn lemma_frame_round_trip(tag: u8, body: Seq<u8>)
    requires
        body.len() <= MAX_BODY,
    ensures
        read_frame(frame(tag, body)) == Ok::<(u8, Seq<u8>), Error>((tag, body)),
{
    lemma_frame_length(tag, body);
    let f = frame(tag, body);
    assert(f.subrange(3, f.len() as int) =~= body);
}

/// Exact length: the first two bytes of a frame hold, little-endian, three
/// more than the length of its body.
pub proof fn lemma_frame_length(tag: u8, body: Seq<u8>)
    requires
        body.len() <= MAX_BODY,
    ensures
        u16_of(frame(tag, body)) == body.len() + 3,
        frame(tag, body).len() == body.len() + 3,
{
    let x = (body.len() + 3) as u16;
    let f = frame(tag, body);
    assert(f[0] == u16_bytes(x)[0] && f[1] == u16_bytes(x)[1]);
    lemma_u16_round_trip(x);
}

} // verus!
