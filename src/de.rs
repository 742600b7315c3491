//! The value deserializer: from body bytes and an expected shape to a value.

use vstd::prelude::*;
use vstd::slice::slice_subrange;
use vstd::utf8::{decode_utf8, valid_utf8};
use crate::error::Error;
use crate::value::{
    Shape, ShapeModel, Value, ValueModel, shape_views, value_views, lemma_shape_view_index,
    lemma_shape_views, lemma_value_view_index,
    lemma_value_views,
};
use crate::wire::{
    first_nul, has_nul, lemma_first_nul, find_nul, read_u16_at, read_u32_at, read_u64_at,
    u16_of, u32_of, u64_of, utf8_string,
};

verus! {

broadcast use {
    lemma_value_views,
    lemma_shape_views,
    lemma_value_view_index,
    lemma_shape_view_index,
};

/// Reading a string: the characters before the first `0x00`, and what
/// follows that byte.
pub open spec fn de_str(inp: Seq<u8>) -> Result<(ValueModel, Seq<u8>), Error> {
    if !has_nul(inp) {
        Err(Error::UnterminatedString)
    } else {
        let k = first_nul(inp);
        let b = inp.subrange(0, k);
        if !valid_utf8(b) {
            Err(Error::InvalidUtf8)
        } else {
            Ok((ValueModel::Str(decode_utf8(b)), inp.subrange(k + 1, inp.len() as int)))
        }
    }
}

/// Reading a value of a fixed width `w` from the front of `inp`.
pub open spec fn de_fixed(inp: Seq<u8>, w: int, v: ValueModel) -> Result<
    (ValueModel, Seq<u8>),
    Error,
> {
    if inp.len() < w {
        Err(Error::UnexpectedEnd)
    } else {
        Ok((v, inp.subrange(w, inp.len() as int)))
    }
}

/// Reading a value of shape `s` from the front of `inp`: the value and the
/// bytes after it, or the error met.
pub open spec fn de(s: ShapeModel, inp: Seq<u8>) -> Result<(ValueModel, Seq<u8>), Error>
    decreases s, 0int, 0int,
{
    match s {
        ShapeModel::Bool => if inp.len() == 0 {
            Err(Error::UnexpectedEnd)
        } else if inp[0] == 1 {
            Ok((ValueModel::Bool(true), inp.drop_first()))
        } else if inp[0] == 0 {
            Ok((ValueModel::Bool(false), inp.drop_first()))
        } else {
            Err(Error::InvalidBool)
        },
        ShapeModel::U8 => de_fixed(inp, 1, ValueModel::U8(inp[0])),
        ShapeModel::I8 => de_fixed(inp, 1, ValueModel::I8(#[verifier::truncate] (inp[0] as i8))),
        ShapeModel::U16 => de_fixed(inp, 2, ValueModel::U16(u16_of(inp))),
        ShapeModel::I16 => de_fixed(
            inp,
            2,
            ValueModel::I16(#[verifier::truncate] (u16_of(inp) as i16)),
        ),
        ShapeModel::U32 => de_fixed(inp, 4, ValueModel::U32(u32_of(inp))),
        ShapeModel::I32 => de_fixed(
            inp,
            4,
            ValueModel::I32(#[verifier::truncate] (u32_of(inp) as i32)),
        ),
        ShapeModel::U64 => de_fixed(inp, 8, ValueModel::U64(u64_of(inp))),
        ShapeModel::I64 => de_fixed(
            inp,
            8,
            ValueModel::I64(#[verifier::truncate] (u64_of(inp) as i64)),
        ),
        ShapeModel::U16Max(m) => if inp.len() >= 2 && u16_of(inp) > m {
            Err(Error::InvalidValue)
        } else {
            de_fixed(inp, 2, ValueModel::U16(u16_of(inp)))
        },
        ShapeModel::U32Max(m) => if inp.len() >= 4 && u32_of(inp) > m {
            Err(Error::InvalidValue)
        } else {
            de_fixed(inp, 4, ValueModel::U32(u32_of(inp)))
        },
        ShapeModel::Str => de_str(inp),
        ShapeModel::List(e) => match de_list(*e, inp) {
            Ok((vs, rest)) => Ok((ValueModel::List(vs), rest)),
            Err(x) => Err(x),
        },
        ShapeModel::Opt(e) => if inp.len() == 0 {
            Ok((ValueModel::Opt(None), inp))
        } else {
            match de(*e, inp) {
                Ok((v, rest)) => Ok((ValueModel::Opt(Some(Box::new(v))), rest)),
                Err(x) => Err(x),
            }
        },
        ShapeModel::Record(ss) => match de_fields(ss, inp) {
            Ok((vs, rest)) => Ok((ValueModel::Record(vs), rest)),
            Err(x) => Err(x),
        },
    }
}

/// Puts `pre` in front of the values of a deserializer outcome.
pub open spec fn prepend_values(
    pre: Seq<ValueModel>,
    r: Result<(Seq<ValueModel>, Seq<u8>), Error>,
) -> Result<(Seq<ValueModel>, Seq<u8>), Error> {
    match r {
        Ok((vs, rest)) => Ok((pre + vs, rest)),
        Err(x) => Err(x),
    }
}

/// Reading the fields of a record, in order.
pub open spec fn de_fields(ss: Seq<ShapeModel>, inp: Seq<u8>) -> Result<
    (Seq<ValueModel>, Seq<u8>),
    Error,
>
    decreases ss, 0int, 0int,
{
    if ss.len() == 0 {
        Ok((Seq::empty(), inp))
    } else {
        match de(ss[0], inp) {
            Ok((v, rest)) => prepend_values(seq![v], de_fields(ss.drop_first(), rest)),
            Err(x) => Err(x),
        }
    }
}

/// Reading the elements of a sequence: a flag, then an element while the
/// flag is `true`.
pub open spec fn de_list(e: ShapeModel, inp: Seq<u8>) -> Result<
    (Seq<ValueModel>, Seq<u8>),
    Error,
>
    decreases e, 1int, inp.len(),
{
    if inp.len() == 0 {
        Err(Error::UnexpectedEnd)
    } else if inp[0] == 0 {
        Ok((Seq::empty(), inp.drop_first()))
    } else if inp[0] != 1 {
        Err(Error::InvalidBool)
    } else {
        match de(e, inp.drop_first()) {
            Ok((v, rest)) => if rest.len() < inp.len() {
                prepend_values(seq![v], de_list(e, rest))
            } else {
                Err(Error::UnexpectedEnd)
            },
            Err(x) => Err(x),
        }
    }
}

/// Decoding a whole body as a value of shape `s`: every byte must be used.
pub open spec fn decode(s: ShapeModel, b: Seq<u8>) -> Result<ValueModel, Error> {
    match de(s, b) {
        Ok((v, rest)) => if rest.len() == 0 {
            Ok(v)
        } else {
            Err(Error::TrailingBytes)
        },
        Err(x) => Err(x),
    }
}

/// Reads values from the front of a byte slice.
pub struct Deserializer<'de> {
    input: &'de [u8],
    pos: usize,
}

/// `r` is what the exec reader gives for the outcome `d` of [`de`], the
/// reader being left on `after`.
pub open spec fn read_as(
    r: Result<Value, Error>,
    d: Result<(ValueModel, Seq<u8>), Error>,
    after: Seq<u8>,
) -> bool {
    match d {
        Ok((v, rest)) => r matches Ok(x) && x@ == v && after == rest,
        Err(e) => r == Err::<Value, Error>(e),
    }
}

impl<'de> Deserializer<'de> {
    /// The read position lies within the input.
    pub closed spec fn wf(&self) -> bool {
        self.pos <= self.input@.len()
    }

    /// What is left to read.
    pub closed spec fn rest(&self) -> Seq<u8> {
        self.input@.subrange(self.pos as int, self.input@.len() as int)
    }

    /// The whole input, read or not.
    pub closed spec fn source(&self) -> Seq<u8> {
        self.input@
    }

    /// A reader at the start of `input`.
    pub fn from_bytes(input: &'de [u8]) -> (r: Self)
        ensures
            r.wf(),
            r.rest() == input@,
            r.source() == input@,
    {
        let r = Deserializer { input, pos: 0 };
        assert(r.rest() =~= input@);
        r
    }

    /// Whether all of the input has been read.
    pub fn is_empty(&self) -> (r: bool)
        requires
            self.wf(),
        ensures
            r == (self.rest().len() == 0),
    {
        self.pos == self.input.len()
    }

    /// The bytes left to read, all of them.
    pub fn take_rest(&mut self) -> (r: Vec<u8>)
        requires
            old(self).wf(),
        ensures
            r@ == old(self).rest(),
            final(self).wf(),
            final(self).rest().len() == 0,
            final(self).source() == old(self).source(),
            final(self).rest().len() <= old(self).rest().len(),
    {
        let mut out: Vec<u8> = Vec::new();
        while self.pos < self.input.len()
            invariant
                self.wf(),
                self.input == old(self).input,
                old(self).pos <= self.pos,
                old(self).pos <= self.pos,
                out@ == self.input@.subrange(old(self).pos as int, self.pos as int),
            decreases self.input@.len() - self.pos,
        {
            out.push(self.input[self.pos]);
            self.pos = self.pos + 1;
            assert(out@ =~= self.input@.subrange(old(self).pos as int, self.pos as int));
        }
        assert(out@ =~= old(self).rest());
        out
    }

    proof fn lemma_advance(&self, n: int)
        requires
            self.wf(),
            0 <= n <= self.rest().len(),
        ensures
            self.rest().subrange(n, self.rest().len() as int) == self.input@.subrange(
                self.pos + n,
                self.input@.len() as int,
            ),
            self.rest().subrange(0, n) == self.input@.subrange(self.pos as int, self.pos + n),
    {
        assert(self.rest().subrange(n, self.rest().len() as int) =~= self.input@.subrange(
            self.pos + n,
            self.input@.len() as int,
        ));
        assert(self.rest().subrange(0, n) =~= self.input@.subrange(
            self.pos as int,
            self.pos + n,
        ));
    }

    /// Reads a byte: `0` is `false`, `1` is `true`.
    pub fn parse_bool(&mut self) -> (r: Result<bool, Error>)
        requires
            old(self).wf(),
        ensures
            final(self).wf(),
            final(self).source() == old(self).source(),
            final(self).rest().len() <= old(self).rest().len(),
            read_as(
                match r {
                    Ok(b) => Ok(Value::Bool(b)),
                    Err(e) => Err(e),
                },
                de(ShapeModel::Bool, old(self).rest()),
                final(self).rest(),
            ),
    {
        proof {
            self.lemma_advance(if self.rest().len() > 0 { 1 } else { 0 });
        }
        if self.pos >= self.input.len() {
            return Err(Error::UnexpectedEnd);
        }
        let b = self.input[self.pos];
        if b == 1 {
            self.pos = self.pos + 1;
            Ok(true)
        } else if b == 0 {
            self.pos = self.pos + 1;
            Ok(false)
        } else {
            Err(Error::InvalidBool)
        }
    }

    /// Reads the bytes up to the next `0x00` as a UTF-8 string, and skips the
    /// `0x00`.
    pub fn parse_string(&mut self) -> (r: Result<String, Error>)
        requires
            old(self).wf(),
        ensures
            final(self).wf(),
            final(self).source() == old(self).source(),
            final(self).rest().len() <= old(self).rest().len(),
            read_as(
                match r {
                    Ok(s) => Ok(Value::Str(s)),
                    Err(e) => Err(e),
                },
                de(ShapeModel::Str, old(self).rest()),
                final(self).rest(),
            ),
    {
        let len = self.input.len();
        match find_nul(self.input, self.pos) {
            None => Err(Error::UnterminatedString),
            Some(k) => {
                proof {
                    assert(k < len);
                    lemma_first_nul(self.rest(), k - self.pos);
                    self.lemma_advance(k - self.pos);
                    self.lemma_advance(k - self.pos + 1);
                }
                let b = slice_subrange(self.input, self.pos, k);
                match utf8_string(b) {
                    None => Err(Error::InvalidUtf8),
                    Some(s) => {
                        self.pos = k + 1;
                        Ok(s)
                    },
                }
            },
        }
    }

    /// Reads a value of shape `shape`.
    pub fn deserialize(&mut self, shape: &Shape) -> (r: Result<Value, Error>)
        requires
            old(self).wf(),
        ensures
            final(self).wf(),
            final(self).source() == old(self).source(),
            final(self).rest().len() <= old(self).rest().len(),
            read_as(r, de(shape@, old(self).rest()), final(self).rest()),
        decreases shape, 0nat,
    {
        match shape {
            Shape::Bool => {
                let b = self.parse_bool()?;
                Ok(Value::Bool(b))
            },
            Shape::Str => {
                let s = self.parse_string()?;
                Ok(Value::Str(s))
            },
            Shape::List(e) => self.deserialize_list(e),
            Shape::Record(fs) => self.deserialize_fields(fs),
            Shape::Opt(e) => {
                if self.pos == self.input.len() {
                    Ok(Value::Opt(None))
                } else {
                    let v = self.deserialize(e)?;
                    Ok(Value::Opt(Some(Box::new(v))))
                }
            },
            _ => self.deserialize_fixed(shape),
        }
    }

    fn deserialize_fixed(&mut self, shape: &Shape) -> (r: Result<Value, Error>)
        requires
            old(self).wf(),
            !(shape is Bool || shape is Str || shape is List || shape is Opt || shape is Record),
        ensures
            final(self).wf(),
            final(self).source() == old(self).source(),
            final(self).rest().len() <= old(self).rest().len(),
            read_as(r, de(shape@, old(self).rest()), final(self).rest()),
    {
        let w: usize = match shape {
            Shape::U8 | Shape::I8 => 1,
            Shape::U16 | Shape::I16 | Shape::U16Max(_) => 2,
            Shape::U32 | Shape::I32 | Shape::U32Max(_) => 4,
            _ => 8,
        };
        if self.input.len() - self.pos < w {
            return Err(Error::UnexpectedEnd);
        }
        proof {
            self.lemma_advance(w as int);
        }
        let p = self.pos;
        let v = match shape {
            Shape::U8 => Value::U8(self.input[p]),
            Shape::I8 => Value::I8(self.input[p] as i8),
            Shape::U16 => Value::U16(read_u16_at(self.input, p)),
            Shape::I16 => Value::I16(read_u16_at(self.input, p) as i16),
            Shape::U32 => Value::U32(read_u32_at(self.input, p)),
            Shape::I32 => Value::I32(read_u32_at(self.input, p) as i32),
            Shape::U64 => Value::U64(read_u64_at(self.input, p)),
            Shape::I64 => Value::I64(read_u64_at(self.input, p) as i64),
            Shape::U16Max(m) => {
                let x = read_u16_at(self.input, p);
                if x > *m {
                    return Err(Error::InvalidValue);
                }
                Value::U16(x)
            },
            Shape::U32Max(m) => {
                let x = read_u32_at(self.input, p);
                if x > *m {
                    return Err(Error::InvalidValue);
                }
                Value::U32(x)
            },
            _ => Value::U64(read_u64_at(self.input, p)),
        };
        self.pos = p + w;
        Ok(v)
    }

    fn deserialize_fields(&mut self, fs: &Vec<Shape>) -> (r: Result<Value, Error>)
        requires
            old(self).wf(),
        ensures
            final(self).wf(),
            final(self).source() == old(self).source(),
            final(self).rest().len() <= old(self).rest().len(),
            read_as(
                r,
                de(ShapeModel::Record(shape_views(fs@)), old(self).rest()),
                final(self).rest(),
            ),
        decreases fs, 0nat,
    {
        let ghost ss = shape_views(fs@);
        let mut out: Vec<Value> = Vec::new();
        let mut i: usize = 0;
        assert(ss.subrange(0, ss.len() as int) =~= ss);
        proof {
            match de_fields(ss, self.rest()) {
                Ok((vs, _)) => {
                    assert(value_views(out@) + vs =~= vs);
                },
                Err(_) => {},
            }
        }
        while i < fs.len()
            invariant
                0 <= i <= fs@.len(),
                ss == shape_views(fs@),
                self.wf(),
                self.input == old(self).input,
                old(self).pos <= self.pos,
                de_fields(ss, old(self).rest()) == prepend_values(
                    value_views(out@),
                    de_fields(ss.subrange(i as int, ss.len() as int), self.rest()),
                ),
            decreases fs@.len() - i,
        {
            let ghost rest = ss.subrange(i as int, ss.len() as int);
            let ghost pre = value_views(out@);
            assert(rest[0] == fs@[i as int]@);
            assert(rest.drop_first() =~= ss.subrange(i + 1, ss.len() as int));
            let v = self.deserialize(&fs[i])?;
            let ghost vm = v@;
            let ghost out0 = out@;
            out.push(v);
            i = i + 1;
            proof {
                assert(out@.drop_last() =~= out0);
                assert(value_views(out@) == pre.push(vm));
                match de_fields(ss.subrange(i as int, ss.len() as int), self.rest()) {
                    Ok((vs, _)) => {
                        assert(pre + (seq![vm] + vs) =~= pre.push(vm) + vs);
                    },
                    Err(_) => {},
                }
            }
        }
        assert(ss.subrange(i as int, ss.len() as int).len() == 0);
        assert(value_views(out@) + Seq::<ValueModel>::empty() =~= value_views(out@));
        Ok(Value::Record(out))
    }

    fn deserialize_list(&mut self, e: &Shape) -> (r: Result<Value, Error>)
        requires
            old(self).wf(),
        ensures
            final(self).wf(),
            final(self).source() == old(self).source(),
            final(self).rest().len() <= old(self).rest().len(),
            read_as(r, de(ShapeModel::List(Box::new(e@)), old(self).rest()), final(self).rest()),
        decreases e, 1nat,
    {
        let mut out: Vec<Value> = Vec::new();
        proof {
            match de_list(e@, self.rest()) {
                Ok((vs, _)) => {
                    assert(value_views(out@) + vs =~= vs);
                },
                Err(_) => {},
            }
        }
        loop
            invariant
                self.wf(),
                self.input == old(self).input,
                old(self).pos <= self.pos,
                de_list(e@, old(self).rest()) == prepend_values(
                    value_views(out@),
                    de_list(e@, self.rest()),
                ),
            decreases self.input@.len() - self.pos,
        {
            let ghost pre = value_views(out@);
            let ghost before = self.rest();
            proof {
                self.lemma_advance(if before.len() > 0 { 1 } else { 0 });
            }
            let more = self.parse_bool()?;
            if !more {
                assert(pre + Seq::<ValueModel>::empty() =~= pre);
                return Ok(Value::List(out));
            }
            assert(self.rest() == before.drop_first());
            let v = self.deserialize(e)?;
            let ghost vm = v@;
            let ghost out0 = out@;
            out.push(v);
            proof {
                assert(out@.drop_last() =~= out0);
                assert(value_views(out@) == pre.push(vm));
                match de_list(e@, self.rest()) {
                    Ok((vs, _)) => {
                        assert(pre + (seq![vm] + vs) =~= pre.push(vm) + vs);
                    },
                    Err(_) => {},
                }
            }
        }
    }
}

/// Decodes a whole body as a value of shape `shape`: every byte must be
/// read, or the result is [`Error::TrailingBytes`].
pub fn from_bytes(shape: &Shape, s: &[u8]) -> (r: Result<Value, Error>)
    ensures
        match decode(shape@, s@) {
            Ok(v) => r matches Ok(x) && x@ == v,
            Err(e) => r == Err::<Value, Error>(e),
        },
{
    let mut d = Deserializer::from_bytes(s);
    let t = d.deserialize(shape)?;
    if d.is_empty() {
        Ok(t)
    } else {
        Err(Error::TrailingBytes)
    }
}

} // verus!
