//! Laws of the codec: what holds of every well-formed shape and every value
//! of it.

use vstd::prelude::*;
use vstd::utf8::{
    decode_utf8, decode_utf8_encode_utf8, encode_utf8, encode_utf8_decode_utf8,
    encode_utf8_valid_utf8,
};
use crate::de::{de, de_fields, de_list, de_str, decode, prepend_values};
use crate::error::Error;
use crate::ser::{atom_bytes, encode, prepend, ser, ser_fields, ser_list};
use crate::value::{
    ShapeModel, ValueModel, all_fit, any_opt, fields_fit, fits, has_opt, never_empty, wf_fields,
    wf_shape,
};
use crate::wire::{
    bool_byte, first_nul, has_nul, is_first_nul, lemma_first_nul, lemma_first_nul_exists,
    lemma_signed_round_trip,
    lemma_u16_round_trip, lemma_u32_round_trip, lemma_u64_round_trip, u16_bytes, u32_bytes,
    u64_bytes,
};

verus! {

/// A scalar or string shape.
pub open spec fn is_atom_shape(s: ShapeModel) -> bool {
    !(s is List || s is Opt || s is Record)
}

proof fn lemma_atom(s: ShapeModel, v: ValueModel, tail: Seq<u8>)
    requires
        fits(v, s),
        is_atom_shape(s),
    ensures
        ser(v, false) == Some((atom_bytes(v), false)),
        de(s, atom_bytes(v) + tail) == Ok::<(ValueModel, Seq<u8>), Error>((v, tail)),
        atom_bytes(v).len() > 0,
{
    let b = atom_bytes(v);
    let inp = b + tail;
    match v {
        ValueModel::Bool(x) => {
            assert(inp[0] == bool_byte(x));
            assert(inp.drop_first() =~= tail);
        },
        ValueModel::U8(x) => {
            assert(inp[0] == x);
            assert(inp.subrange(1, inp.len() as int) =~= tail);
        },
        ValueModel::I8(x) => {
            assert(inp[0] == (#[verifier::truncate] (x as u8)));
            lemma_signed_round_trip(x, 0, 0, 0);
            assert(inp.subrange(1, inp.len() as int) =~= tail);
        },
        ValueModel::U16(x) => {
            assert(inp[0] == u16_bytes(x)[0] && inp[1] == u16_bytes(x)[1]);
            lemma_u16_round_trip(x);
            assert(inp.subrange(2, inp.len() as int) =~= tail);
        },
        ValueModel::I16(x) => {
            let u = #[verifier::truncate] (x as u16);
            assert(inp[0] == u16_bytes(u)[0] && inp[1] == u16_bytes(u)[1]);
            lemma_u16_round_trip(u);
            lemma_signed_round_trip(0, x, 0, 0);
            assert(inp.subrange(2, inp.len() as int) =~= tail);
        },
        ValueModel::U32(x) => {
            assert(inp[0] == u32_bytes(x)[0] && inp[1] == u32_bytes(x)[1] && inp[2] == u32_bytes(
                x,
            )[2] && inp[3] == u32_bytes(x)[3]);
            lemma_u32_round_trip(x);
            assert(inp.subrange(4, inp.len() as int) =~= tail);
        },
        ValueModel::I32(x) => {
            let u = #[verifier::truncate] (x as u32);
            assert(inp[0] == u32_bytes(u)[0] && inp[1] == u32_bytes(u)[1] && inp[2] == u32_bytes(
                u,
            )[2] && inp[3] == u32_bytes(u)[3]);
            lemma_u32_round_trip(u);
            lemma_signed_round_trip(0, 0, x, 0);
            assert(inp.subrange(4, inp.len() as int) =~= tail);
        },
        ValueModel::U64(x) => {
            assert(forall|i: int| 0 <= i < 8 ==> inp[i] == u64_bytes(x)[i]);
            lemma_u64_round_trip(x);
            assert(inp.subrange(8, inp.len() as int) =~= tail);
        },
        ValueModel::I64(x) => {
            let u = #[verifier::truncate] (x as u64);
            assert(forall|i: int| 0 <= i < 8 ==> inp[i] == u64_bytes(u)[i]);
            lemma_u64_round_trip(u);
            lemma_signed_round_trip(0, 0, 0, x);
            assert(inp.subrange(8, inp.len() as int) =~= tail);
        },
        ValueModel::Str(cs) => {
            let e = encode_utf8(cs);
            let k = e.len() as int;
            assert(is_first_nul(inp, k)) by {
                assert(inp[k] == 0);
                assert forall|j: int| 0 <= j < k implies inp[j] != 0 by {
                    assert(inp[j] == e[j]);
                    if e[j] == 0 {
                        assert(has_nul(e));
                    }
                }
            }
            lemma_first_nul(inp, k);
            assert(inp.subrange(0, k) =~= e);
            encode_utf8_valid_utf8(cs);
            encode_utf8_decode_utf8(cs);
            assert(inp.subrange(k + 1, inp.len() as int) =~= tail);
        },
        _ => {},
    }
}

proof fn lemma_never_empty(s: ShapeModel, v: ValueModel)
    requires
        wf_shape(s),
        fits(v, s),
        never_empty(s),
    ensures
        ser(v, false) matches Some((b, _)) ==> b.len() > 0,
    decreases s,
{
    match s {
        ShapeModel::List(e) => {
            assert(v is List);
            let items = v->List_0;
            if items.len() == 0 {
                assert(ser_list(items, false) == Some((seq![0u8], false)));
            } else {
                if let Some((b, st)) = ser(items[0], false) {
                    if let Some((b2, s2)) = ser_list(items.drop_first(), st) {
                        assert(ser_list(items, false) == Some(((seq![1u8] + b) + b2, s2)));
                    }
                }
            }
        },
        ShapeModel::Record(ss) => {
            assert(v is Record);
            let vs = v->Record_0;
            assert(wf_fields(ss));
            assert(fields_fit(vs, ss));
            assert(wf_shape(ss[0]) && fits(vs[0], ss[0]));
            lemma_never_empty(ss[0], vs[0]);
            if let Some((b, st)) = ser(vs[0], false) {
                if let Some((b2, s2)) = ser_fields(vs.drop_first(), st) {
                    assert(ser_fields(vs, false) == Some((b + b2, s2)));
                }
            }
        },
        _ => {
            lemma_atom(s, v, Seq::empty());
        },
    }
}

/// The core of the round trip: a value of a well-formed shape is written
/// without error, and reading it back from its bytes followed by `tail` gives
/// the value and `tail`. Where the shape holds an `Option`, nothing may
/// follow.
proof fn lemma_ser_de(s: ShapeModel, v: ValueModel, tail: Seq<u8>)
    requires
        wf_shape(s),
        fits(v, s),
        !has_opt(s) || tail.len() == 0,
    ensures
        ser(v, false) matches Some((b, sealed)) && (!has_opt(s) ==> !sealed) && de(s, b + tail)
            == Ok::<(ValueModel, Seq<u8>), Error>((v, tail)),
    decreases s, 0int, 0int,
{
    match s {
        ShapeModel::List(e) => {
            if let ValueModel::List(items) = v {
                lemma_list(*e, items, tail);
            }
        },
        ShapeModel::Record(ss) => {
            if let ValueModel::Record(vs) = v {
                lemma_fields(ss, vs, tail);
            }
        },
        ShapeModel::Opt(e) => {
            match v {
                ValueModel::Opt(None) => {
                    assert(Seq::<u8>::empty() + tail =~= tail);
                },
                ValueModel::Opt(Some(x)) => {
                    lemma_ser_de(*e, *x, tail);
                    lemma_never_empty(*e, *x);
                },
                _ => {},
            }
        },
        _ => {
            lemma_atom(s, v, tail);
        },
    }
}

proof fn lemma_fields(ss: Seq<ShapeModel>, vs: Seq<ValueModel>, tail: Seq<u8>)
    requires
        wf_fields(ss),
        fields_fit(vs, ss),
        !any_opt(ss) || tail.len() == 0,
    ensures
        ser_fields(vs, false) matches Some((b, sealed)) && (!any_opt(ss) ==> !sealed)
            && de_fields(ss, b + tail) == Ok::<(Seq<ValueModel>, Seq<u8>), Error>((vs, tail)),
    decreases ss, 0int, 0int,
{
    if ss.len() == 0 {
        assert(Seq::<u8>::empty() + tail =~= tail);
        assert(vs =~= Seq::<ValueModel>::empty());
    } else if ss.len() == 1 {
        lemma_ser_de(ss[0], vs[0], tail);
        assert(ss.drop_first().len() == 0);
        let (b, st) = ser(vs[0], false).unwrap();
        assert(b + Seq::<u8>::empty() =~= b);
        assert(seq![vs[0]] + Seq::<ValueModel>::empty() =~= vs);
    } else {
        let ss1 = ss.drop_first();
        let vs1 = vs.drop_first();
        assert(wf_shape(ss[0]) && !has_opt(ss[0]) && wf_fields(ss1));
        assert(fits(vs[0], ss[0]) && fields_fit(vs1, ss1));
        assert(any_opt(ss) == (has_opt(ss[0]) || any_opt(ss1)));
        lemma_fields(ss1, vs1, tail);
        let (b1, s1) = ser_fields(vs1, false).unwrap();
        lemma_ser_de(ss[0], vs[0], b1 + tail);
        let (b0, s0) = ser(vs[0], false).unwrap();
        assert(!s0);
        assert(ser_fields(vs, false) == prepend(b0, ser_fields(vs1, s0)));
        assert(ser_fields(vs, false) == Some((b0 + b1, s1)));
        assert((b0 + b1) + tail =~= b0 + (b1 + tail));
        assert(de(ss[0], (b0 + b1) + tail) == Ok::<(ValueModel, Seq<u8>), Error>(
            (vs[0], b1 + tail),
        ));
        assert(de_fields(ss1, b1 + tail) == Ok::<(Seq<ValueModel>, Seq<u8>), Error>(
            (vs1, tail),
        ));
        assert(seq![vs[0]] + vs1 =~= vs);
    }
}

proof fn lemma_list(e: ShapeModel, items: Seq<ValueModel>, tail: Seq<u8>)
    requires
        wf_shape(e),
        !has_opt(e),
        all_fit(items, e),
    ensures
        ser_list(items, false) matches Some((b, sealed)) && !sealed && de_list(e, b + tail)
            == Ok::<(Seq<ValueModel>, Seq<u8>), Error>((items, tail)),
    decreases e, 1int, items.len(),
{
    if items.len() == 0 {
        let inp = seq![0u8] + tail;
        assert(inp[0] == 0);
        assert(inp.drop_first() =~= tail);
        assert(items =~= Seq::<ValueModel>::empty());
        assert(de_list(e, inp) == Ok::<(Seq<ValueModel>, Seq<u8>), Error>((items, tail)));
    } else {
        let items1 = items.drop_first();
        assert(fits(items[0], e) && all_fit(items1, e));
        lemma_list(e, items1, tail);
        let (b1, s1) = ser_list(items1, false).unwrap();
        lemma_ser_de(e, items[0], b1 + tail);
        let (b0, s0) = ser(items[0], false).unwrap();
        assert(!s0);
        let b = (seq![1u8] + b0) + b1;
        assert(ser_list(items, false) == prepend(seq![1u8] + b0, ser_list(items1, s0)));
        assert(ser_list(items, false) == Some((b, s1)));
        let inp = b + tail;
        assert(inp[0] == 1);
        assert(inp.drop_first() =~= b0 + (b1 + tail));
        assert(de(e, inp.drop_first()) == Ok::<(ValueModel, Seq<u8>), Error>(
            (items[0], b1 + tail),
        ));
        assert((b1 + tail).len() < inp.len());
        assert(de_list(e, b1 + tail) == Ok::<(Seq<ValueModel>, Seq<u8>), Error>(
            (items1, tail),
        ));
        assert(seq![items[0]] + items1 =~= items);
        assert(de_list(e, inp) == prepend_values(seq![items[0]], de_list(e, b1 + tail)));
    }
}

/// Round trip: every value of a well-formed shape can be written, and
/// decoding its bytes as that shape gives the value back.
pub proof fn lemma_round_trip(s: ShapeModel, v: ValueModel)
    requires
        wf_shape(s),
        fits(v, s),
    ensures
        encode(v) matches Some(b) && decode(s, b) == Ok::<ValueModel, Error>(v),
{
    lemma_ser_de(s, v, Seq::empty());
    let (b, _) = ser(v, false).unwrap();
    assert(b + Seq::<u8>::empty() =~= b);
}

/// Trailing bytes: bytes after the encoding of a value make decoding fail
/// with [`Error::TrailingBytes`] (for shapes without an `Option`, whose
/// presence the extra bytes would decide).
pub proof fn lemma_trailing_bytes(s: ShapeModel, v: ValueModel, extra: Seq<u8>)
    requires
        wf_shape(s),
        fits(v, s),
        !has_opt(s),
        extra.len() > 0,
    ensures
        encode(v) matches Some(b) && decode(s, b + extra) == Err::<ValueModel, Error>(
            Error::TrailingBytes,
        ),
{
    lemma_ser_de(s, v, extra);
}


/// Sequence boundary: an empty sequence is the single byte `0x00`, and `n`
/// elements that are written as `k` bytes each take `n * (1 + k) + 1` bytes.
pub proof fn lemma_list_length(items: Seq<ValueModel>, k: nat)
    requires
        forall|i: int|
            0 <= i < items.len() ==> (#[trigger] ser(items[i], false) matches Some((b, sealed))
                && b.len() == k && !sealed),
    ensures
        ser(ValueModel::List(items), false) matches Some((b, sealed)) && !sealed && b.len()
            == items.len() * (1 + k) + 1,
        items.len() == 0 ==> ser(ValueModel::List(items), false) == Some((seq![0u8], false)),
    decreases items.len(),
{
    if items.len() > 0 {
        let items1 = items.drop_first();
        assert forall|i: int| 0 <= i < items1.len() implies (#[trigger] ser(
            items1[i],
            false,
        ) matches Some((b, sealed)) && b.len() == k && !sealed) by {
            assert(items1[i] == items[i + 1]);
        }
        lemma_list_length(items1, k);
        assert(ser(items[0], false) matches Some((b, sealed)) && b.len() == k && !sealed);
        let (b0, s0) = ser(items[0], false).unwrap();
        let (b1, s1) = ser_list(items1, false).unwrap();
        assert(ser_list(items, false) == Some(((seq![1u8] + b0) + b1, s1)));
        let n = items.len();
        assert((n - 1) * (1 + k) + 1 + 1 + k == n * (1 + k) + 1) by (nonlinear_arith);
    }
}

/// The values of a record with an absent `Option` at position `pre.len()`,
/// followed by `next`.
pub open spec fn after_absent(
    pre: Seq<ValueModel>,
    next: ValueModel,
    post: Seq<ValueModel>,
) -> Seq<ValueModel> {
    pre + seq![ValueModel::Opt(None), next] + post
}

proof fn lemma_fields_after_absent(
    pre: Seq<ValueModel>,
    next: ValueModel,
    post: Seq<ValueModel>,
    sealed: bool,
)
    requires
        !(next is Opt || next is Record),
    ensures
        ser_fields(after_absent(pre, next, post), sealed) is None,
    decreases pre.len(),
{
    let fs = after_absent(pre, next, post);
    if pre.len() == 0 {
        let rest = seq![next] + post;
        assert(fs[0] == ValueModel::Opt(None));
        assert(fs.drop_first() =~= rest);
        assert(rest[0] == next);
        if let ValueModel::List(items) = next {
            assert(ser_list(items, true) is None);
        }
        assert(ser(next, true) is None);
        assert(ser_fields(rest, true) is None);
        assert(ser(fs[0], sealed) == Some((Seq::<u8>::empty(), true)));
        assert(ser_fields(fs, sealed) == prepend(Seq::empty(), ser_fields(rest, true)));
    } else {
        assert(fs[0] == pre[0]);
        assert(fs.drop_first() =~= after_absent(pre.drop_first(), next, post));
        if let Some((b, st)) = ser(pre[0], sealed) {
            lemma_fields_after_absent(pre.drop_first(), next, post, st);
            assert(ser_fields(fs, sealed) == prepend(b, ser_fields(fs.drop_first(), st)));
        }
    }
}

/// Option last: once an absent `Option` has been written, writing a further
/// field (a scalar, a string or a sequence) fails, so the record cannot be
/// encoded at all ([`Error::InvalidOption`]).
pub proof fn lemma_option_last(pre: Seq<ValueModel>, next: ValueModel, post: Seq<ValueModel>)
    requires
        !(next is Opt || next is Record),
    ensures
        encode(ValueModel::Record(after_absent(pre, next, post))) is None,
{
    lemma_fields_after_absent(pre, next, post, false);
}


proof fn lemma_de_str_fits(inp: Seq<u8>)
    ensures
        de_str(inp) matches Ok((v, rest)) ==> fits(v, ShapeModel::Str) && rest.len() < inp.len(),
{
    if has_nul(inp) {
        lemma_first_nul_exists(inp);
        let k = first_nul(inp);
        let b = inp.subrange(0, k);
        if vstd::utf8::valid_utf8(b) {
            decode_utf8_encode_utf8(b);
            if has_nul(b) {
                let j = choose|j: int| 0 <= j < b.len() && b[j] == 0;
                assert(inp[j] == 0);
            }
        }
    }
}

/// Every value that decoding gives is a value of the shape decoded, and
/// decoding consumes from the front of the input.
pub proof fn lemma_de_fits(s: ShapeModel, inp: Seq<u8>)
    ensures
        de(s, inp) matches Ok((v, rest)) ==> fits(v, s) && rest.len() <= inp.len(),
    decreases s, 0int, 0int,
{
    match s {
        ShapeModel::Str => lemma_de_str_fits(inp),
        ShapeModel::List(e) => lemma_de_list_fits(*e, inp),
        ShapeModel::Record(ss) => lemma_de_fields_fit(ss, inp),
        ShapeModel::Opt(e) => lemma_de_fits(*e, inp),
        _ => {},
    }
}

proof fn lemma_de_fields_fit(ss: Seq<ShapeModel>, inp: Seq<u8>)
    ensures
        de_fields(ss, inp) matches Ok((vs, rest)) ==> fields_fit(vs, ss) && rest.len()
            <= inp.len(),
    decreases ss, 0int, 0int,
{
    if ss.len() > 0 {
        lemma_de_fits(ss[0], inp);
        if let Ok((v, rest)) = de(ss[0], inp) {
            lemma_de_fields_fit(ss.drop_first(), rest);
            if let Ok((vs, rest2)) = de_fields(ss.drop_first(), rest) {
                let all = seq![v] + vs;
                assert(all[0] == v);
                assert(all.drop_first() =~= vs);
            }
        }
    }
}

proof fn lemma_de_list_fits(e: ShapeModel, inp: Seq<u8>)
    ensures
        de_list(e, inp) matches Ok((vs, rest)) ==> all_fit(vs, e) && rest.len() <= inp.len(),
    decreases e, 1int, inp.len(),
{
    if inp.len() > 0 && inp[0] == 1 {
        lemma_de_fits(e, inp.drop_first());
        if let Ok((v, rest)) = de(e, inp.drop_first()) {
            if rest.len() < inp.len() {
                lemma_de_list_fits(e, rest);
                if let Ok((vs, rest2)) = de_list(e, rest) {
                    let all = seq![v] + vs;
                    assert(all[0] == v);
                    assert(all.drop_first() =~= vs);
                }
            }
        }
    } else if inp.len() > 0 && inp[0] == 0 {
        assert(all_fit(Seq::empty(), e));
    }
}

/// Decoding gives only values of the shape decoded.
pub proof fn lemma_decode_fits(s: ShapeModel, b: Seq<u8>)
    ensures
        decode(s, b) matches Ok(v) ==> fits(v, s),
{
    lemma_de_fits(s, b);
}

/// The fields of a record value fit the shapes of a record one for one.
pub proof fn lemma_fields_fit_index(vs: Seq<ValueModel>, ss: Seq<ShapeModel>)
    requires
        fields_fit(vs, ss),
    ensures
        vs.len() == ss.len(),
        forall|i: int| 0 <= i < vs.len() ==> fits(#[trigger] vs[i], ss[i]),
    decreases ss.len(),
{
    if ss.len() > 0 {
        lemma_fields_fit_index(vs.drop_first(), ss.drop_first());
        assert forall|i: int| 0 <= i < vs.len() implies fits(#[trigger] vs[i], ss[i]) by {
            if i > 0 {
                assert(vs[i] == vs.drop_first()[i - 1]);
                assert(ss[i] == ss.drop_first()[i - 1]);
            }
        }
    }
}

/// The elements of a sequence value all fit the element shape.
pub proof fn lemma_all_fit_index(vs: Seq<ValueModel>, e: ShapeModel)
    requires
        all_fit(vs, e),
    ensures
        forall|i: int| 0 <= i < vs.len() ==> fits(#[trigger] vs[i], e),
    decreases vs.len(),
{
    if vs.len() > 0 {
        lemma_all_fit_index(vs.drop_first(), e);
        assert forall|i: int| 0 <= i < vs.len() implies fits(#[trigger] vs[i], e) by {
            if i > 0 {
                assert(vs[i] == vs.drop_first()[i - 1]);
            }
        }
    }
}


/// A record whose fields are well formed, and of which only the last may
/// hold an `Option`, is well formed.
pub proof fn lemma_wf_fields(ss: Seq<ShapeModel>)
    requires
        forall|i: int|
            0 <= i < ss.len() ==> wf_shape(#[trigger] ss[i]) && (i + 1 < ss.len() ==> !has_opt(
                ss[i],
            )),
    ensures
        wf_fields(ss),
    decreases ss.len(),
{
    if ss.len() > 0 {
        let rest = ss.drop_first();
        assert forall|i: int|
            0 <= i < rest.len() implies wf_shape(#[trigger] rest[i]) && (i + 1 < rest.len()
            ==> !has_opt(rest[i])) by {
            assert(rest[i] == ss[i + 1]);
        }
        lemma_wf_fields(rest);
    }
}

/// A record none of whose fields holds an `Option` holds none.
pub proof fn lemma_no_opt(ss: Seq<ShapeModel>)
    requires
        forall|i: int| 0 <= i < ss.len() ==> !has_opt(#[trigger] ss[i]),
    ensures
        !any_opt(ss),
    decreases ss.len(),
{
    if ss.len() > 0 {
        let rest = ss.drop_first();
        assert forall|i: int| 0 <= i < rest.len() implies !has_opt(#[trigger] rest[i]) by {
            assert(rest[i] == ss[i + 1]);
        }
        lemma_no_opt(rest);
    }
}

} // verus!
