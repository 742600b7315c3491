//! The value serializer: from a value to body bytes.

use vstd::prelude::*;
use crate::error::Error;
use crate::value::{Value, ValueModel, value_views, lemma_value_view_index, lemma_value_views};
use crate::wire::{
    bool_byte, str_bytes, u16_bytes, u32_bytes, u64_bytes, push_str, push_u16, push_u32, push_u64,
};

verus! {

broadcast use {lemma_value_views, lemma_value_view_index};

/// The bytes of a scalar or string value; sequences, options and records
/// are written by [`ser`].
pub open spec fn atom_bytes(v: ValueModel) -> Seq<u8> {
    match v {
        ValueModel::Bool(b) => seq![bool_byte(b)],
        ValueModel::U8(x) => seq![x],
        ValueModel::I8(x) => seq![(#[verifier::truncate] (x as u8))],
        ValueModel::U16(x) => u16_bytes(x),
        ValueModel::I16(x) => u16_bytes(#[verifier::truncate] (x as u16)),
        ValueModel::U32(x) => u32_bytes(x),
        ValueModel::I32(x) => u32_bytes(#[verifier::truncate] (x as u32)),
        ValueModel::U64(x) => u64_bytes(x),
        ValueModel::I64(x) => u64_bytes(#[verifier::truncate] (x as u64)),
        ValueModel::Str(s) => str_bytes(s),
        _ => Seq::empty(),
    }
}

/// Puts `pre` in front of the bytes of a serializer outcome.
pub open spec fn prepend(pre: Seq<u8>, r: Option<(Seq<u8>, bool)>) -> Option<(Seq<u8>, bool)> {
    match r {
        Some((b, s)) => Some((pre + b, s)),
        None => None,
    }
}

/// Serializing `v` when `sealed` tells whether an `Option` has already been
/// written: the bytes written and whether an `Option` has been written
/// afterwards, or `None` where a value follows an `Option`
/// ([`Error::InvalidOption`]).
pub open spec fn ser(v: ValueModel, sealed: bool) -> Option<(Seq<u8>, bool)>
    decreases v,
{
    match v {
        ValueModel::Opt(None) => Some((Seq::empty(), true)),
        ValueModel::Opt(Some(x)) => match ser(*x, sealed) {
            Some((b, _)) => Some((b, true)),
            None => None,
        },
        ValueModel::Record(fs) => ser_fields(fs, sealed),
        ValueModel::List(items) => ser_list(items, sealed),
        _ => if sealed {
            None
        } else {
            Some((atom_bytes(v), false))
        },
    }
}

/// Serializing the fields of a record, in order.
pub open spec fn ser_fields(fs: Seq<ValueModel>, sealed: bool) -> Option<(Seq<u8>, bool)>
    decreases fs,
{
    if fs.len() == 0 {
        Some((Seq::empty(), sealed))
    } else {
        match ser(fs[0], sealed) {
            Some((b, s)) => prepend(b, ser_fields(fs.drop_first(), s)),
            None => None,
        }
    }
}

/// Serializing the elements of a sequence: `true` before each one and
/// `false` at the end.
pub open spec fn ser_list(items: Seq<ValueModel>, sealed: bool) -> Option<(Seq<u8>, bool)>
    decreases items,
{
    if sealed {
        None
    } else if items.len() == 0 {
        Some((seq![0u8], false))
    } else {
        match ser(items[0], false) {
            Some((b, s)) => prepend(seq![1u8] + b, ser_list(items.drop_first(), s)),
            None => None,
        }
    }
}

/// The body bytes of `v`, where it can be written.
pub open spec fn encode(v: ValueModel) -> Option<Seq<u8>> {
    match ser(v, false) {
        Some((b, _)) => Some(b),
        None => None,
    }
}

/// Writes values into a growing buffer.
pub struct Serializer {
    output: Vec<u8>,
    /// Whether an `Option` was written: if so, nothing more may follow.
    serialized_option: bool,
}

impl Serializer {
    /// The bytes written so far.
    pub closed spec fn output(&self) -> Seq<u8> {
        self.output@
    }

    /// Whether an `Option` has been written, after which nothing may be.
    pub closed spec fn sealed(&self) -> bool {
        self.serialized_option
    }

    /// A serializer whose buffer starts with `prefix`.
    pub fn new(prefix: Vec<u8>) -> (r: Serializer)
        ensures
            r.output() == prefix@,
            !r.sealed(),
    {
        Serializer { output: prefix, serialized_option: false }
    }

    /// The buffer written so far.
    pub fn into_output(self) -> (r: Vec<u8>)
        ensures
            r@ == self.output(),
    {
        self.output
    }

    /// Fails when an `Option` has been written, after which nothing may be.
    fn check_can_serialize_more(&self) -> (r: Result<(), Error>)
        ensures
            r is Ok <==> !self.sealed(),
            r is Err ==> r == Err::<(), Error>(Error::InvalidOption),
    {
        if self.serialized_option {
            Err(Error::InvalidOption)
        } else {
            Ok(())
        }
    }

    /// Writes `v` after what was written so far.
    pub fn serialize(&mut self, v: &Value) -> (r: Result<(), Error>)
        ensures
            match ser(v@, old(self).sealed()) {
                Some((b, s)) => r is Ok && final(self).output() == old(self).output() + b
                    && final(self).sealed() == s,
                None => r == Err::<(), Error>(Error::InvalidOption),
            },
        decreases v,
    {
        match v {
            Value::Opt(None) => {
                self.serialized_option = true;
                assert(self.output@ =~= old(self).output@ + Seq::<u8>::empty());
                Ok(())
            },
            Value::Opt(Some(x)) => {
                self.serialize(x)?;
                self.serialized_option = true;
                Ok(())
            },
            Value::Record(fs) => self.serialize_fields(fs),
            Value::List(items) => self.serialize_list(items),
            _ => {
                self.check_can_serialize_more()?;
                match v {
                    Value::Bool(b) => self.output.push(if *b { 1u8 } else { 0u8 }),
                    Value::U8(x) => self.output.push(*x),
                    Value::I8(x) => self.output.push(*x as u8),
                    Value::U16(x) => push_u16(&mut self.output, *x),
                    Value::I16(x) => push_u16(&mut self.output, *x as u16),
                    Value::U32(x) => push_u32(&mut self.output, *x),
                    Value::I32(x) => push_u32(&mut self.output, *x as u32),
                    Value::U64(x) => push_u64(&mut self.output, *x),
                    Value::I64(x) => push_u64(&mut self.output, *x as u64),
                    Value::Str(s) => push_str(&mut self.output, s.as_str()),
                    _ => {},
                }
                assert(self.output@ =~= old(self).output@ + atom_bytes(v@));
                Ok(())
            },
        }
    }

    fn serialize_fields(&mut self, fs: &Vec<Value>) -> (r: Result<(), Error>)
        ensures
            match ser_fields(value_views(fs@), old(self).sealed()) {
                Some((b, s)) => r is Ok && final(self).output() == old(self).output() + b
                    && final(self).sealed() == s,
                None => r == Err::<(), Error>(Error::InvalidOption),
            },
        decreases fs, 0nat,
    {
        let ghost vs = value_views(fs@);
        let ghost n0 = self.output@.len();
        proof {
            assert(vs.subrange(0, vs.len() as int) =~= vs);
            assert(self.output@.subrange(n0 as int, n0 as int) =~= Seq::<u8>::empty());
            assert(self.output@.subrange(0, n0 as int) =~= old(self).output@);
            match ser_fields(vs, self.serialized_option) {
                Some((b, _)) => {
                    assert(Seq::<u8>::empty() + b =~= b);
                },
                None => {},
            }
        }
        let mut i: usize = 0;
        while i < fs.len()
            invariant
                0 <= i <= fs@.len(),
                vs == value_views(fs@),
                n0 == old(self).output@.len(),
                n0 <= self.output@.len(),
                self.output@.subrange(0, n0 as int) == old(self).output@,
                ser_fields(vs, old(self).serialized_option) == prepend(
                    self.output@.subrange(n0 as int, self.output@.len() as int),
                    ser_fields(vs.subrange(i as int, vs.len() as int), self.serialized_option),
                ),
            decreases fs@.len() - i,
        {
            let ghost pre = self.output@.subrange(n0 as int, self.output@.len() as int);
            let ghost st = self.serialized_option;
            let ghost rest = vs.subrange(i as int, vs.len() as int);
            assert(rest[0] == fs@[i as int]@);
            assert(rest.drop_first() =~= vs.subrange(i + 1, vs.len() as int));
            let r = self.serialize(&fs[i]);
            match r {
                Ok(()) => {},
                Err(e) => {
                    return Err(e);
                },
            }
            i = i + 1;
            proof {
                let b = self.output@.subrange(n0 as int + pre.len(), self.output@.len() as int);
                assert(self.output@.subrange(n0 as int, self.output@.len() as int) =~= pre + b);
                assert(self.output@.subrange(0, n0 as int) =~= old(self).output@);
                match ser_fields(vs.subrange(i as int, vs.len() as int), self.serialized_option) {
                    Some((b2, s2)) => {
                        assert(pre + (b + b2) =~= (pre + b) + b2);
                    },
                    None => {},
                }
            }
        }
        assert(vs.subrange(i as int, vs.len() as int).len() == 0);
        assert(self.output@ =~= old(self).output@ + self.output@.subrange(
            n0 as int,
            self.output@.len() as int,
        ));
        Ok(())
    }

    fn serialize_list(&mut self, items: &Vec<Value>) -> (r: Result<(), Error>)
        ensures
            match ser_list(value_views(items@), old(self).sealed()) {
                Some((b, s)) => r is Ok && final(self).output() == old(self).output() + b
                    && final(self).sealed() == s,
                None => r == Err::<(), Error>(Error::InvalidOption),
            },
        decreases items, 0nat,
    {
        let ghost vs = value_views(items@);
        let ghost n0 = self.output@.len();
        proof {
            assert(vs.subrange(0, vs.len() as int) =~= vs);
            assert(self.output@.subrange(n0 as int, n0 as int) =~= Seq::<u8>::empty());
            assert(self.output@.subrange(0, n0 as int) =~= old(self).output@);
            match ser_list(vs, self.serialized_option) {
                Some((b, _)) => {
                    assert(Seq::<u8>::empty() + b =~= b);
                },
                None => {},
            }
        }
        let mut i: usize = 0;
        while i < items.len()
            invariant
                0 <= i <= items@.len(),
                vs == value_views(items@),
                n0 == old(self).output@.len(),
                n0 <= self.output@.len(),
                self.output@.subrange(0, n0 as int) == old(self).output@,
                ser_list(vs, old(self).serialized_option) == prepend(
                    self.output@.subrange(n0 as int, self.output@.len() as int),
                    ser_list(vs.subrange(i as int, vs.len() as int), self.serialized_option),
                ),
            decreases items@.len() - i,
        {
            let ghost pre = self.output@.subrange(n0 as int, self.output@.len() as int);
            let ghost rest = vs.subrange(i as int, vs.len() as int);
            assert(rest[0] == items@[i as int]@);
            assert(rest.drop_first() =~= vs.subrange(i + 1, vs.len() as int));
            self.check_can_serialize_more()?;
            self.output.push(1u8);
            let r = self.serialize(&items[i]);
            match r {
                Ok(()) => {},
                Err(e) => {
                    return Err(e);
                },
            }
            i = i + 1;
            proof {
                let b = self.output@.subrange(n0 as int + pre.len() + 1, self.output@.len() as int);
                assert(self.output@.subrange(n0 as int, self.output@.len() as int) =~= pre + (
                seq![1u8] + b));
                assert(self.output@.subrange(0, n0 as int) =~= old(self).output@);
                match ser_list(vs.subrange(i as int, vs.len() as int), self.serialized_option) {
                    Some((b2, s2)) => {
                        assert(pre + ((seq![1u8] + b) + b2) =~= (pre + (seq![1u8] + b)) + b2);
                    },
                    None => {},
                }
            }
        }
        self.check_can_serialize_more()?;
        let ghost pre = self.output@.subrange(n0 as int, self.output@.len() as int);
        self.output.push(0u8);
        assert(vs.subrange(i as int, vs.len() as int).len() == 0);
        assert(self.output@ =~= old(self).output@ + (pre + seq![0u8]));
        Ok(())
    }
}

/// The body bytes of `v`.
pub fn to_bytes(v: &Value) -> (r: Result<Vec<u8>, Error>)
    ensures
        match encode(v@) {
            Some(b) => r matches Ok(out) && out@ == b,
            None => r == Err::<Vec<u8>, Error>(Error::InvalidOption),
        },
{
    let mut s = Serializer::new(Vec::new());
    s.serialize(v)?;
    let out = s.into_output();
    assert(out@ =~= Seq::<u8>::empty() + out@);
    Ok(out)
}

} // verus!
