//! Shapes and values: what the codec reads and writes, and their
//! mathematical models.

use vstd::prelude::*;
use vstd::utf8::encode_utf8;
use crate::wire::has_nul;

verus! {

/// The expected layout of a value on the wire. Fields are positional: the
/// wire carries no field tags, so a reader must know the shape.
#[derive(Debug, PartialEq, Eq)]
pub enum Shape {
    Bool,
    U8,
    I8,
    U16,
    I16,
    U32,
    I32,
    U64,
    I64,
    /// A `u16` no greater than the given bound.
    U16Max(u16),
    /// A `u32` no greater than the given bound.
    U32Max(u32),
    /// A NUL-terminated UTF-8 string.
    Str,
    /// Zero or more elements, each preceded by `true`, closed by `false`.
    List(Box<Shape>),
    /// A value present exactly when input remains; legal only last.
    Opt(Box<Shape>),
    /// Fields back to back, in order.
    Record(Vec<Shape>),
}

/// A value that the codec writes or reads.
#[derive(Debug, PartialEq, Eq)]
pub enum Value {
    Bool(bool),
    U8(u8),
    I8(i8),
    U16(u16),
    I16(i16),
    U32(u32),
    I32(i32),
    U64(u64),
    I64(i64),
    Str(String),
    List(Vec<Value>),
    Opt(Option<Box<Value>>),
    Record(Vec<Value>),
}

/// The mathematical model of a [`Shape`].
pub enum ShapeModel {
    Bool,
    U8,
    I8,
    U16,
    I16,
    U32,
    I32,
    U64,
    I64,
    U16Max(u16),
    U32Max(u32),
    Str,
    List(Box<ShapeModel>),
    Opt(Box<ShapeModel>),
    Record(Seq<ShapeModel>),
}

/// The mathematical model of a [`Value`].
pub enum ValueModel {
    Bool(bool),
    U8(u8),
    I8(i8),
    U16(u16),
    I16(i16),
    U32(u32),
    I32(i32),
    U64(u64),
    I64(i64),
    Str(Seq<char>),
    List(Seq<ValueModel>),
    Opt(Option<Box<ValueModel>>),
    Record(Seq<ValueModel>),
}

impl View for Shape {
    type V = ShapeModel;

    open spec fn view(&self) -> ShapeModel
        decreases self,
    {
        match self {
            Shape::Bool => ShapeModel::Bool,
            Shape::U8 => ShapeModel::U8,
            Shape::I8 => ShapeModel::I8,
            Shape::U16 => ShapeModel::U16,
            Shape::I16 => ShapeModel::I16,
            Shape::U32 => ShapeModel::U32,
            Shape::I32 => ShapeModel::I32,
            Shape::U64 => ShapeModel::U64,
            Shape::I64 => ShapeModel::I64,
            Shape::U16Max(m) => ShapeModel::U16Max(*m),
            Shape::U32Max(m) => ShapeModel::U32Max(*m),
            Shape::Str => ShapeModel::Str,
            Shape::List(e) => ShapeModel::List(Box::new((**e).view())),
            Shape::Opt(e) => ShapeModel::Opt(Box::new((**e).view())),
            Shape::Record(fs) => ShapeModel::Record(shape_views(fs@)),
        }
    }
}

/// The models of a sequence of shapes.
pub open spec fn shape_views(s: Seq<Shape>) -> Seq<ShapeModel>
    decreases s,
{
    if s.len() == 0 {
        Seq::empty()
    } else {
        shape_views(s.drop_last()).push(s[s.len() - 1].view())
    }
}

impl View for Value {
    type V = ValueModel;

    open spec fn view(&self) -> ValueModel
        decreases self,
    {
        match self {
            Value::Bool(b) => ValueModel::Bool(*b),
            Value::U8(x) => ValueModel::U8(*x),
            Value::I8(x) => ValueModel::I8(*x),
            Value::U16(x) => ValueModel::U16(*x),
            Value::I16(x) => ValueModel::I16(*x),
            Value::U32(x) => ValueModel::U32(*x),
            Value::I32(x) => ValueModel::I32(*x),
            Value::U64(x) => ValueModel::U64(*x),
            Value::I64(x) => ValueModel::I64(*x),
            Value::Str(s) => ValueModel::Str(s@),
            Value::List(vs) => ValueModel::List(value_views(vs@)),
            Value::Opt(None) => ValueModel::Opt(None),
            Value::Opt(Some(x)) => ValueModel::Opt(Some(Box::new((**x).view()))),
            Value::Record(vs) => ValueModel::Record(value_views(vs@)),
        }
    }
}

/// The models of a sequence of values.
pub open spec fn value_views(s: Seq<Value>) -> Seq<ValueModel>
    decreases s,
{
    if s.len() == 0 {
        Seq::empty()
    } else {
        value_views(s.drop_last()).push(s[s.len() - 1].view())
    }
}

pub broadcast proof fn lemma_shape_views(s: Seq<Shape>)
    ensures
        #[trigger] shape_views(s).len() == s.len(),
        forall|i: int| 0 <= i < s.len() ==> #[trigger] shape_views(s)[i] == s[i]@,
    decreases s.len(),
{
    if s.len() > 0 {
        let d = s.drop_last();
        lemma_shape_views(d);
        assert(shape_views(s) == shape_views(d).push(s[s.len() - 1]@));
        assert forall|i: int| 0 <= i < s.len() implies #[trigger] shape_views(s)[i] == s[i]@ by {
            if i < s.len() - 1 {
                assert(d[i] == s[i]);
            }
        }
    }
}

pub broadcast proof fn lemma_value_views(s: Seq<Value>)
    ensures
        #[trigger] value_views(s).len() == s.len(),
        forall|i: int| 0 <= i < s.len() ==> #[trigger] value_views(s)[i] == s[i]@,
    decreases s.len(),
{
    if s.len() > 0 {
        let d = s.drop_last();
        lemma_value_views(d);
        assert(value_views(s) == value_views(d).push(s[s.len() - 1]@));
        assert forall|i: int| 0 <= i < s.len() implies #[trigger] value_views(s)[i] == s[i]@ by {
            if i < s.len() - 1 {
                assert(d[i] == s[i]);
            }
        }
    }
}


pub broadcast proof fn lemma_shape_view_index(s: Seq<Shape>, i: int)
    requires
        0 <= i < s.len(),
    ensures
        #[trigger] shape_views(s)[i] == s[i]@,
{
    lemma_shape_views(s);
}

pub broadcast proof fn lemma_value_view_index(s: Seq<Value>, i: int)
    requires
        0 <= i < s.len(),
    ensures
        #[trigger] value_views(s)[i] == s[i]@,
{
    lemma_value_views(s);
}

/// Some part of a value of shape `s` is an `Option`.
pub open spec fn has_opt(s: ShapeModel) -> bool
    decreases s, 0int,
{
    match s {
        ShapeModel::Opt(_) => true,
        ShapeModel::List(e) => has_opt(*e),
        ShapeModel::Record(ss) => any_opt(ss),
        _ => false,
    }
}

/// Some field of `ss` holds an `Option`.
pub open spec fn any_opt(ss: Seq<ShapeModel>) -> bool
    decreases ss, 0int,
{
    if ss.len() == 0 {
        false
    } else {
        has_opt(ss[0]) || any_opt(ss.drop_first())
    }
}

/// Every value of shape `s` is written as at least one byte.
pub open spec fn never_empty(s: ShapeModel) -> bool
    decreases s,
{
    match s {
        ShapeModel::Opt(_) => false,
        ShapeModel::Record(ss) => ss.len() > 0 && never_empty(ss[0]),
        _ => true,
    }
}

/// A well-formed shape: an `Option` stands only last (in a record, as the
/// last field; never inside a sequence), and what an `Option` holds is never
/// written as zero bytes, so that presence can be told from the input left.
pub open spec fn wf_shape(s: ShapeModel) -> bool
    decreases s, 0int,
{
    match s {
        ShapeModel::List(e) => wf_shape(*e) && !has_opt(*e),
        ShapeModel::Opt(e) => wf_shape(*e) && never_empty(*e),
        ShapeModel::Record(ss) => wf_fields(ss),
        _ => true,
    }
}

/// Every field of `ss` is well formed, and only the last may hold an `Option`.
pub open spec fn wf_fields(ss: Seq<ShapeModel>) -> bool
    decreases ss, 0int,
{
    ss.len() == 0 || (wf_shape(ss[0]) && (ss.len() == 1 || !has_opt(ss[0])) && wf_fields(
        ss.drop_first(),
    ))
}

/// `v` is a value of shape `s`: kinds agree, bounded integers are in range,
/// and no string holds a `0x00` byte, which would end it early on the wire.
pub open spec fn fits(v: ValueModel, s: ShapeModel) -> bool
    decreases s, 0int,
{
    match (v, s) {
        (ValueModel::Bool(_), ShapeModel::Bool) => true,
        (ValueModel::U8(_), ShapeModel::U8) => true,
        (ValueModel::I8(_), ShapeModel::I8) => true,
        (ValueModel::U16(_), ShapeModel::U16) => true,
        (ValueModel::I16(_), ShapeModel::I16) => true,
        (ValueModel::U32(_), ShapeModel::U32) => true,
        (ValueModel::I32(_), ShapeModel::I32) => true,
        (ValueModel::U64(_), ShapeModel::U64) => true,
        (ValueModel::I64(_), ShapeModel::I64) => true,
        (ValueModel::U16(x), ShapeModel::U16Max(m)) => x <= m,
        (ValueModel::U32(x), ShapeModel::U32Max(m)) => x <= m,
        (ValueModel::Str(cs), ShapeModel::Str) => !has_nul(encode_utf8(cs)),
        (ValueModel::List(vs), ShapeModel::List(e)) => all_fit(vs, *e),
        (ValueModel::Opt(None), ShapeModel::Opt(_)) => true,
        (ValueModel::Opt(Some(x)), ShapeModel::Opt(e)) => fits(*x, *e),
        (ValueModel::Record(vs), ShapeModel::Record(ss)) => fields_fit(vs, ss),
        _ => false,
    }
}

/// Every element of `vs` is a value of shape `e`.
pub open spec fn all_fit(vs: Seq<ValueModel>, e: ShapeModel) -> bool
    decreases e, 1int, vs.len(),
{
    vs.len() == 0 || (fits(vs[0], e) && all_fit(vs.drop_first(), e))
}

/// `vs` are values of the shapes `ss`, one for one.
pub open spec fn fields_fit(vs: Seq<ValueModel>, ss: Seq<ShapeModel>) -> bool
    decreases ss, 0int,
{
    vs.len() == ss.len() && (ss.len() == 0 || (fits(vs[0], ss[0]) && fields_fit(
        vs.drop_first(),
        ss.drop_first(),
    )))
}

} // verus!
