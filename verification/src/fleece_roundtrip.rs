//! Reading back what was written. A value of the data model is written as encoder calls;
//! the calls describe a Fleece value; the engine stores that value; and the
//! deserializer reads the value of the data model back from what is stored.
use vstd::prelude::*;
use vstd::utf8::{decode_utf8, encode_utf8, valid_utf8};
use crate::fleece::{FlValue, spec_key_index};
use crate::fleece_de::{spec_bool, spec_char, spec_signed, spec_str, spec_unsigned};
use crate::fleece_error::ErrorV;
use crate::fleece_ser::{OpV, SerV, spec_elems_ops, spec_entries_ops, spec_fields_ops, spec_key_op, spec_ops, then_ops};

verus! {

/// A Fleece value as encoder calls describe it: integers by their value, text by its
/// bytes, and dictionaries by their entries in the order written.
pub enum Written {
    Null,
    Bool(bool),
    Int(i64),
    UInt(u64),
    Str(Seq<u8>),
    Array(Seq<Written>),
    Dict(Seq<(Seq<u8>, Written)>),
}

/// The value that the encoder calls at the front of `ops` describe, and how many calls it
/// spans; `None` when the calls do not start with a whole value. Floating-point numbers
/// are not described.
pub open spec fn parse_value(ops: Seq<OpV>) -> Option<(Written, int)>
    decreases ops.len(), 0int,
{
    if ops.len() == 0 {
        None
    } else {
        match ops[0] {
            OpV::WriteNull => Some((Written::Null, 1)),
            OpV::WriteBool(b) => Some((Written::Bool(b), 1)),
            OpV::WriteInt(i) => Some((Written::Int(i), 1)),
            OpV::WriteUInt(u) => Some((Written::UInt(u), 1)),
            OpV::WriteString(s) => Some((Written::Str(s), 1)),
            OpV::BeginArray(_) => match parse_items(ops.drop_first()) {
                Some((items, n)) => Some((Written::Array(items), n + 1)),
                None => None,
            },
            OpV::BeginDict(_) => match parse_entries(ops.drop_first()) {
                Some((entries, n)) => Some((Written::Dict(entries), n + 1)),
                None => None,
            },
            _ => None,
        }
    }
}

/// The elements of an array up to its end call, and how many calls they span with it.
pub open spec fn parse_items(ops: Seq<OpV>) -> Option<(Seq<Written>, int)>
    decreases ops.len(), 1int,
{
    if ops.len() == 0 {
        None
    } else if ops[0] == OpV::EndArray {
        Some((Seq::empty(), 1))
    } else {
        match parse_value(ops) {
            Some((v, n)) => if 1 <= n <= ops.len() {
                match parse_items(ops.subrange(n, ops.len() as int)) {
                    Some((vs, m)) => Some((seq![v] + vs, n + m)),
                    None => None,
                }
            } else {
                None
            },
            None => None,
        }
    }
}

/// The entries of a dictionary up to its end call, and how many calls they span with it.
pub open spec fn parse_entries(ops: Seq<OpV>) -> Option<(Seq<(Seq<u8>, Written)>, int)>
    decreases ops.len(), 1int,
{
    if ops.len() == 0 {
        None
    } else if ops[0] == OpV::EndDict {
        Some((Seq::empty(), 1))
    } else {
        match ops[0] {
            OpV::WriteKey(k) => match parse_value(ops.drop_first()) {
                Some((v, n)) => if 1 <= n <= ops.len() - 1 {
                    match parse_entries(ops.subrange(n + 1, ops.len() as int)) {
                        Some((es, m)) => Some((seq![(k, v)] + es, n + 1 + m)),
                        None => None,
                    }
                } else {
                    None
                },
                None => None,
            },
            _ => None,
        }
    }
}

/// The bytes a map key is written as, when it is written as text.
pub open spec fn key_text(k: SerV) -> Option<Seq<u8>> {
    match spec_key_op(k) {
        Ok(OpV::WriteKey(t)) => Some(t),
        _ => None,
    }
}

/// Whether a value of the data model is read back as it was written: it holds no
/// floating-point number or byte string, and every map key is written as text.
pub open spec fn round_trips(x: SerV) -> bool
    decreases x, 1int,
{
    match x {
        SerV::F32(_) => false,
        SerV::F64(_) => false,
        SerV::Bytes(_) => false,
        SerV::SomeValue(y) => round_trips(*y),
        SerV::NewtypeStruct(y) => round_trips(*y),
        SerV::NewtypeVariant(_, y) => round_trips(*y),
        SerV::Sequence(_, xs) => all_round_trip(xs),
        SerV::Tuple(_, xs) => all_round_trip(xs),
        SerV::TupleStruct(_, xs) => all_round_trip(xs),
        SerV::TupleVariant(_, _, xs) => all_round_trip(xs),
        SerV::MapEntries(_, es) => entries_round_trip(es),
        SerV::Struct(_, fs) => fields_round_trip(fs),
        SerV::StructVariant(_, _, fs) => fields_round_trip(fs),
        _ => true,
    }
}

/// Whether every element round-trips.
pub open spec fn all_round_trip(xs: Seq<SerV>) -> bool
    decreases xs, 0int,
{
    if xs.len() == 0 {
        true
    } else {
        all_round_trip(xs.drop_last()) && round_trips(xs.last())
    }
}

/// Whether every key is written as text and every value round-trips.
pub open spec fn entries_round_trip(es: Seq<(SerV, SerV)>) -> bool
    decreases es, 0int,
{
    if es.len() == 0 {
        true
    } else {
        entries_round_trip(es.drop_last()) && key_text(es.last().0) is Some && round_trips(es.last().1)
    }
}

/// Whether every field's value round-trips.
pub open spec fn fields_round_trip(fs: Seq<(Seq<char>, SerV)>) -> bool
    decreases fs, 0int,
{
    if fs.len() == 0 {
        true
    } else {
        fields_round_trip(fs.drop_last()) && round_trips(fs.last().1)
    }
}

/// The Fleece value that writing `x` describes.
pub open spec fn written(x: SerV) -> Written
    decreases x, 1int,
{
    match x {
        SerV::Bool(b) => Written::Bool(b),
        SerV::Int(i) => Written::Int(i),
        SerV::UInt(u) => Written::UInt(u),
        SerV::Char(c) => Written::Str(encode_utf8(seq![c])),
        SerV::Str(s) => Written::Str(encode_utf8(s)),
        SerV::UnitVariant(n) => Written::Str(encode_utf8(n)),
        SerV::SomeValue(y) => written(*y),
        SerV::NewtypeStruct(y) => written(*y),
        SerV::NewtypeVariant(n, y) => Written::Dict(seq![(encode_utf8(n), written(*y))]),
        SerV::Sequence(_, xs) => Written::Array(written_items(xs)),
        SerV::Tuple(_, xs) => Written::Array(written_items(xs)),
        SerV::TupleStruct(_, xs) => Written::Array(written_items(xs)),
        SerV::TupleVariant(n, _, xs) => Written::Dict(seq![(encode_utf8(n), Written::Array(written_items(xs)))]),
        SerV::MapEntries(_, es) => Written::Dict(written_entries(es)),
        SerV::Struct(_, fs) => Written::Dict(written_fields(fs)),
        SerV::StructVariant(n, _, fs) => Written::Dict(seq![(encode_utf8(n), Written::Dict(written_fields(fs)))]),
        _ => Written::Null,
    }
}

/// The values that writing the elements describes.
pub open spec fn written_items(xs: Seq<SerV>) -> Seq<Written>
    decreases xs, 0int,
{
    if xs.len() == 0 {
        Seq::empty()
    } else {
        written_items(xs.drop_last()).push(written(xs.last()))
    }
}

/// The entries that writing a map's entries describes: each key's text with its value.
pub open spec fn written_entries(es: Seq<(SerV, SerV)>) -> Seq<(Seq<u8>, Written)>
    decreases es, 0int,
{
    if es.len() == 0 {
        Seq::empty()
    } else {
        written_entries(es.drop_last()).push((key_text(es.last().0)->0, written(es.last().1)))
    }
}

/// The entries that writing a struct's fields describes: each name's bytes with its value.
pub open spec fn written_fields(fs: Seq<(Seq<char>, SerV)>) -> Seq<(Seq<u8>, Written)>
    decreases fs, 0int,
{
    if fs.len() == 0 {
        Seq::empty()
    } else {
        written_fields(fs.drop_last()).push((encode_utf8(fs.last().0), written(fs.last().1)))
    }
}

/// Writing then describing: the encoder calls that serialize a value that round-trips
/// describe exactly the value `written(x)`, and nothing more.
#[verifier::rlimit(60)]
#[verifier::spinoff_prover]
pub proof fn lemma_calls_describe(x: SerV, rest: Seq<OpV>)
    requires
        round_trips(x),
        spec_ops(x) is Ok,
    ensures
        spec_ops(x)->Ok_0.len() >= 1,
        parse_value(spec_ops(x)->Ok_0 + rest) == Some((written(x), spec_ops(x)->Ok_0.len() as int)),
    decreases x, 1int,
{
    let ops = spec_ops(x)->Ok_0;
    let s = ops + rest;
    match x {
        SerV::SomeValue(y) => lemma_calls_describe(*y, rest),
        SerV::NewtypeStruct(y) => lemma_calls_describe(*y, rest),
        SerV::NewtypeVariant(n, y) => {
            let m = spec_ops(*y)->Ok_0;
            lemma_calls_describe(*y, seq![OpV::EndDict] + rest);
            let key = OpV::WriteKey(encode_utf8(n));
            assert(ops =~= seq![OpV::BeginDict(1), key] + m + seq![OpV::EndDict]);
            let t = s.drop_first();
            assert(t =~= seq![key] + (m + (seq![OpV::EndDict] + rest)));
            assert(t.drop_first() =~= m + (seq![OpV::EndDict] + rest));
            assert(t.subrange(m.len() + 1int, t.len() as int) =~= seq![OpV::EndDict] + rest);
            assert(parse_entries(seq![OpV::EndDict] + rest) == Some((Seq::<(Seq<u8>, Written)>::empty(), 1int)));
            assert(seq![(encode_utf8(n), written(*y))] + Seq::<(Seq<u8>, Written)>::empty() =~= seq![(encode_utf8(n), written(*y))]);
        },
        SerV::Sequence(h, xs) => {
            lemma_array_described(xs, rest);
            let b = OpV::BeginArray(if h is Some { h->0 } else { 0 });
            assert(ops =~= seq![b] + spec_elems_ops(xs)->Ok_0 + seq![OpV::EndArray]);
            assert(s.drop_first() =~= spec_elems_ops(xs)->Ok_0 + (seq![OpV::EndArray] + rest));
        },
        SerV::Tuple(l, xs) => {
            lemma_array_described(xs, rest);
            assert(ops =~= seq![OpV::BeginArray(l)] + spec_elems_ops(xs)->Ok_0 + seq![OpV::EndArray]);
            assert(s.drop_first() =~= spec_elems_ops(xs)->Ok_0 + (seq![OpV::EndArray] + rest));
        },
        SerV::TupleStruct(l, xs) => {
            lemma_array_described(xs, rest);
            assert(ops =~= seq![OpV::BeginArray(l)] + spec_elems_ops(xs)->Ok_0 + seq![OpV::EndArray]);
            assert(s.drop_first() =~= spec_elems_ops(xs)->Ok_0 + (seq![OpV::EndArray] + rest));
        },
        SerV::TupleVariant(n, l, xs) => {
            let e = spec_elems_ops(xs)->Ok_0;
            let tail = seq![OpV::EndDict] + rest;
            lemma_array_described(xs, tail);
            let inner = seq![OpV::BeginArray(l)] + e + seq![OpV::EndArray];
            assert((inner + tail).drop_first() =~= e + (seq![OpV::EndArray] + tail));
            assert(parse_value(inner + tail) == Some((Written::Array(written_items(xs)), inner.len() as int)));
            let key = OpV::WriteKey(encode_utf8(n));
            assert(ops =~= seq![OpV::BeginDict(1), key, OpV::BeginArray(l)] + e + seq![OpV::EndArray, OpV::EndDict]);
            let t = s.drop_first();
            assert(t =~= seq![key] + (inner + tail));
            assert(t.drop_first() =~= inner + tail);
            assert(t.subrange(inner.len() + 1int, t.len() as int) =~= tail);
            assert(parse_entries(tail) == Some((Seq::<(Seq<u8>, Written)>::empty(), 1int)));
            assert(seq![(encode_utf8(n), Written::Array(written_items(xs)))] + Seq::<(Seq<u8>, Written)>::empty()
                =~= seq![(encode_utf8(n), Written::Array(written_items(xs)))]);
        },
        SerV::MapEntries(h, es) => {
            lemma_entries_described(es, rest);
            let b = OpV::BeginDict(if h is Some { h->0 } else { 0 });
            assert(ops =~= seq![b] + spec_entries_ops(es)->Ok_0 + seq![OpV::EndDict]);
            assert(s.drop_first() =~= spec_entries_ops(es)->Ok_0 + (seq![OpV::EndDict] + rest));
        },
        SerV::Struct(l, fs) => {
            lemma_fields_described(fs, rest);
            assert(ops =~= seq![OpV::BeginDict(l)] + spec_fields_ops(fs)->Ok_0 + seq![OpV::EndDict]);
            assert(s.drop_first() =~= spec_fields_ops(fs)->Ok_0 + (seq![OpV::EndDict] + rest));
        },
        SerV::StructVariant(n, l, fs) => {
            let f = spec_fields_ops(fs)->Ok_0;
            let tail = seq![OpV::EndDict] + rest;
            lemma_fields_described(fs, tail);
            let inner = seq![OpV::BeginDict(l)] + f + seq![OpV::EndDict];
            assert((inner + tail).drop_first() =~= f + (seq![OpV::EndDict] + tail));
            assert(parse_value(inner + tail) == Some((Written::Dict(written_fields(fs)), inner.len() as int)));
            let key = OpV::WriteKey(encode_utf8(n));
            assert(ops =~= seq![OpV::BeginDict(1), key, OpV::BeginDict(l)] + f + seq![OpV::EndDict, OpV::EndDict]);
            let t = s.drop_first();
            assert(t =~= seq![key] + (inner + tail));
            assert(t.drop_first() =~= inner + tail);
            assert(t.subrange(inner.len() + 1int, t.len() as int) =~= tail);
            assert(parse_entries(tail) == Some((Seq::<(Seq<u8>, Written)>::empty(), 1int)));
            assert(seq![(encode_utf8(n), Written::Dict(written_fields(fs)))] + Seq::<(Seq<u8>, Written)>::empty()
                =~= seq![(encode_utf8(n), Written::Dict(written_fields(fs)))]);
        },
        _ => {
            assert(s[0] == ops[0]);
        },
    }
}

/// The elements of an array, written one after the other and followed by the end call,
/// describe the elements' values.
proof fn lemma_array_described(xs: Seq<SerV>, rest: Seq<OpV>)
    requires
        all_round_trip(xs),
        spec_elems_ops(xs) is Ok,
    ensures
        parse_items(spec_elems_ops(xs)->Ok_0 + (seq![OpV::EndArray] + rest)) == Some((
            written_items(xs),
            spec_elems_ops(xs)->Ok_0.len() + 1int,
        )),
    decreases xs, 1int,
{
    lemma_items_described(xs, seq![OpV::EndArray] + rest, Seq::empty(), 1);
    assert(written_items(xs) + Seq::<Written>::empty() =~= written_items(xs));
}

proof fn lemma_items_described(xs: Seq<SerV>, tail: Seq<OpV>, ws: Seq<Written>, m: int)
    requires
        all_round_trip(xs),
        spec_elems_ops(xs) is Ok,
        parse_items(tail) == Some((ws, m)),
    ensures
        parse_items(spec_elems_ops(xs)->Ok_0 + tail) == Some((written_items(xs) + ws, spec_elems_ops(xs)->Ok_0.len() + m)),
    decreases xs, 0int,
{
    if xs.len() == 0 {
        assert(spec_elems_ops(xs)->Ok_0 + tail =~= tail);
        assert(written_items(xs) + ws =~= ws);
    } else {
        let init = xs.drop_last();
        let last = xs.last();
        assert(decreases_to!(xs => init)) by {
            vstd::seq::axiom_seq_len_decreases(xs, init);
        }
        assert(decreases_to!(xs => last));
        let lo = spec_ops(last)->Ok_0;
        lemma_calls_describe(last, tail);
        let t2 = lo + tail;
        assert(t2[0] == lo[0]);
        assert(t2.subrange(lo.len() as int, t2.len() as int) =~= tail);
        assert(parse_items(t2) == Some((seq![written(last)] + ws, lo.len() + m)));
        lemma_items_described(init, t2, seq![written(last)] + ws, lo.len() + m);
        assert(spec_elems_ops(xs)->Ok_0 =~= spec_elems_ops(init)->Ok_0 + lo);
        assert(spec_elems_ops(xs)->Ok_0 + tail =~= spec_elems_ops(init)->Ok_0 + t2);
        assert(written_items(init) + (seq![written(last)] + ws) =~= written_items(xs) + ws);
    }
}

/// The entries of a map, written one after the other and followed by the end call,
/// describe each key's text with its value.
proof fn lemma_entries_described(es: Seq<(SerV, SerV)>, rest: Seq<OpV>)
    requires
        entries_round_trip(es),
        spec_entries_ops(es) is Ok,
    ensures
        parse_entries(spec_entries_ops(es)->Ok_0 + (seq![OpV::EndDict] + rest)) == Some((
            written_entries(es),
            spec_entries_ops(es)->Ok_0.len() + 1int,
        )),
    decreases es, 1int,
{
    lemma_entries_described_from(es, seq![OpV::EndDict] + rest, Seq::empty(), 1);
    assert(written_entries(es) + Seq::<(Seq<u8>, Written)>::empty() =~= written_entries(es));
}

proof fn lemma_key_text_op(k: SerV)
    requires
        key_text(k) is Some,
    ensures
        spec_key_op(k) == Ok::<OpV, ErrorV>(OpV::WriteKey(key_text(k)->0)),
{
}

proof fn lemma_entries_described_from(es: Seq<(SerV, SerV)>, tail: Seq<OpV>, ws: Seq<(Seq<u8>, Written)>, m: int)
    requires
        entries_round_trip(es),
        spec_entries_ops(es) is Ok,
        parse_entries(tail) == Some((ws, m)),
    ensures
        parse_entries(spec_entries_ops(es)->Ok_0 + tail) == Some((written_entries(es) + ws, spec_entries_ops(es)->Ok_0.len() + m)),
    decreases es, 0int,
{
    if es.len() == 0 {
        assert(spec_entries_ops(es)->Ok_0 + tail =~= tail);
        assert(written_entries(es) + ws =~= ws);
    } else {
        let init = es.drop_last();
        let last = es.last();
        assert(decreases_to!(es => init)) by {
            vstd::seq::axiom_seq_len_decreases(es, init);
        }
        assert(decreases_to!(es => last));
        assert(decreases_to!(last => last.1));
        let k = key_text(last.0)->0;
        lemma_key_text_op(last.0);
        let lo = spec_ops(last.1)->Ok_0;
        lemma_calls_describe(last.1, tail);
        let piece = seq![OpV::WriteKey(k)] + lo;
        let t2 = piece + tail;
        assert(t2[0] == OpV::WriteKey(k));
        assert(t2.drop_first() =~= lo + tail);
        assert(t2.subrange(lo.len() + 1int, t2.len() as int) =~= tail);
        assert(parse_entries(t2) == Some((seq![(k, written(last.1))] + ws, lo.len() + 1 + m)));
        lemma_entries_described_from(init, t2, seq![(k, written(last.1))] + ws, lo.len() + 1 + m);
        assert(spec_entries_ops(es)->Ok_0 =~= spec_entries_ops(init)->Ok_0 + piece);
        assert(spec_entries_ops(es)->Ok_0 + tail =~= spec_entries_ops(init)->Ok_0 + t2);
        assert(written_entries(init) + (seq![(k, written(last.1))] + ws) =~= written_entries(es) + ws);
    }
}

/// The fields of a struct, written one after the other and followed by the end call,
/// describe each name's bytes with its value.
proof fn lemma_fields_described(fs: Seq<(Seq<char>, SerV)>, rest: Seq<OpV>)
    requires
        fields_round_trip(fs),
        spec_fields_ops(fs) is Ok,
    ensures
        parse_entries(spec_fields_ops(fs)->Ok_0 + (seq![OpV::EndDict] + rest)) == Some((
            written_fields(fs),
            spec_fields_ops(fs)->Ok_0.len() + 1int,
        )),
    decreases fs, 1int,
{
    lemma_fields_described_from(fs, seq![OpV::EndDict] + rest, Seq::empty(), 1);
    assert(written_fields(fs) + Seq::<(Seq<u8>, Written)>::empty() =~= written_fields(fs));
}

proof fn lemma_fields_described_from(fs: Seq<(Seq<char>, SerV)>, tail: Seq<OpV>, ws: Seq<(Seq<u8>, Written)>, m: int)
    requires
        fields_round_trip(fs),
        spec_fields_ops(fs) is Ok,
        parse_entries(tail) == Some((ws, m)),
    ensures
        parse_entries(spec_fields_ops(fs)->Ok_0 + tail) == Some((written_fields(fs) + ws, spec_fields_ops(fs)->Ok_0.len() + m)),
    decreases fs, 0int,
{
    if fs.len() == 0 {
        assert(spec_fields_ops(fs)->Ok_0 + tail =~= tail);
        assert(written_fields(fs) + ws =~= ws);
    } else {
        let init = fs.drop_last();
        let last = fs.last();
        assert(decreases_to!(fs => init)) by {
            vstd::seq::axiom_seq_len_decreases(fs, init);
        }
        assert(decreases_to!(fs => last));
        assert(decreases_to!(last => last.1));
        let k = encode_utf8(last.0);
        let lo = spec_ops(last.1)->Ok_0;
        lemma_calls_describe(last.1, tail);
        let piece = seq![OpV::WriteKey(k)] + lo;
        let t2 = piece + tail;
        assert(t2[0] == OpV::WriteKey(k));
        assert(t2.drop_first() =~= lo + tail);
        assert(t2.subrange(lo.len() + 1int, t2.len() as int) =~= tail);
        assert(parse_entries(t2) == Some((seq![(k, written(last.1))] + ws, lo.len() + 1 + m)));
        lemma_fields_described_from(init, t2, seq![(k, written(last.1))] + ws, lo.len() + 1 + m);
        assert(spec_fields_ops(fs)->Ok_0 =~= spec_fields_ops(init)->Ok_0 + piece);
        assert(spec_fields_ops(fs)->Ok_0 + tail =~= spec_fields_ops(init)->Ok_0 + t2);
        assert(written_fields(init) + (seq![(k, written(last.1))] + ws) =~= written_fields(fs) + ws);
    }
}

/// Whether the Fleece value `v` is what the engine stores for the described value `w`:
/// null, a boolean, an integer with the same value, a string of the same bytes, an array
/// of the stored elements, and a dictionary with one entry per written entry, in which
/// each written key is found and holds the stored value. A Fleece dictionary keeps its
/// entries sorted by key, so entries are found by key, not by position; a dictionary
/// written with the same key twice is stored as no value that this relation admits.
pub open spec fn stores(v: FlValue, w: Written) -> bool
    decreases w, 1int,
{
    match w {
        Written::Null => v is Null,
        Written::Bool(b) => v == FlValue::Bool(b),
        Written::Int(i) => v matches FlValue::Number(n) && n.is_integer && n.as_int == i,
        Written::UInt(u) => v matches FlValue::Number(n) && n.is_integer && n.as_unsigned == u,
        Written::Str(t) => v matches FlValue::String(b) && b@ == t,
        Written::Array(ws) => v matches FlValue::Array(a) && stores_items(a@, ws),
        Written::Dict(es) => v matches FlValue::Dict(d) && d@.len() == es.len() && stores_entries(d@, es),
    }
}

/// Whether the elements `a` are, one by one, what the engine stores for `ws`.
pub open spec fn stores_items(a: Seq<FlValue>, ws: Seq<Written>) -> bool
    decreases ws, 0int,
{
    if ws.len() == 0 {
        a.len() == 0
    } else {
        &&& a.len() == ws.len()
        &&& stores_items(a.drop_last(), ws.drop_last())
        &&& stores(a.last(), ws.last())
    }
}

/// Whether looking up each written key in `d` finds what the engine stores for its value.
pub open spec fn stores_entries(d: Seq<(Vec<u8>, FlValue)>, es: Seq<(Seq<u8>, Written)>) -> bool
    decreases es, 0int,
{
    if es.len() == 0 {
        true
    } else {
        &&& stores_entries(d, es.drop_last())
        &&& spec_key_index(d, es.last().0) >= 0
        &&& stores(d[spec_key_index(d, es.last().0)].1, es.last().1)
    }
}

/// Stored elements come one for one.
pub proof fn lemma_stores_items(a: Seq<FlValue>, ws: Seq<Written>)
    requires
        stores_items(a, ws),
    ensures
        a.len() == ws.len(),
        forall|i: int| 0 <= i < ws.len() ==> stores(#[trigger] a[i], ws[i]),
    decreases ws.len(),
{
    if ws.len() > 0 {
        lemma_stores_items(a.drop_last(), ws.drop_last());
        assert forall|i: int| 0 <= i < ws.len() implies stores(#[trigger] a[i], ws[i]) by {
            if i < ws.len() - 1 {
                assert(a.drop_last()[i] == a[i]);
                assert(ws.drop_last()[i] == ws[i]);
            }
        }
    }
}

/// Every written key of a stored dictionary is found, and holds its stored value.
pub proof fn lemma_stores_entries(d: Seq<(Vec<u8>, FlValue)>, es: Seq<(Seq<u8>, Written)>)
    requires
        stores_entries(d, es),
    ensures
        forall|j: int| 0 <= j < es.len() ==> spec_key_index(d, #[trigger] es[j].0) >= 0 && stores(
            d[spec_key_index(d, es[j].0)].1,
            es[j].1,
        ),
    decreases es.len(),
{
    if es.len() > 0 {
        lemma_stores_entries(d, es.drop_last());
        assert forall|j: int| 0 <= j < es.len() implies spec_key_index(d, #[trigger] es[j].0) >= 0
            && stores(d[spec_key_index(d, es[j].0)].1, es[j].1) by {
            if j < es.len() - 1 {
                assert(es.drop_last()[j] == es[j]);
            }
        }
    }
}

proof fn lemma_written_items(xs: Seq<SerV>)
    ensures
        written_items(xs).len() == xs.len(),
        forall|i: int| 0 <= i < xs.len() ==> #[trigger] written_items(xs)[i] == written(xs[i]),
    decreases xs.len(),
{
    if xs.len() > 0 {
        lemma_written_items(xs.drop_last());
        assert forall|i: int| 0 <= i < xs.len() implies #[trigger] written_items(xs)[i] == written(xs[i]) by {
            if i < xs.len() - 1 {
                assert(xs.drop_last()[i] == xs[i]);
            }
        }
    }
}

proof fn lemma_written_fields(fs: Seq<(Seq<char>, SerV)>)
    ensures
        written_fields(fs).len() == fs.len(),
        forall|i: int| 0 <= i < fs.len() ==> #[trigger] written_fields(fs)[i] == (encode_utf8(fs[i].0), written(fs[i].1)),
    decreases fs.len(),
{
    if fs.len() > 0 {
        lemma_written_fields(fs.drop_last());
        assert forall|i: int| 0 <= i < fs.len() implies #[trigger] written_fields(fs)[i] == (encode_utf8(fs[i].0), written(fs[i].1)) by {
            if i < fs.len() - 1 {
                assert(fs.drop_last()[i] == fs[i]);
            }
        }
    }
}

proof fn lemma_written_entries(es: Seq<(SerV, SerV)>)
    requires
        entries_round_trip(es),
    ensures
        written_entries(es).len() == es.len(),
        forall|i: int| 0 <= i < es.len() ==> key_text(#[trigger] es[i].0) is Some && written_entries(es)[i] == (key_text(es[i].0)->0, written(es[i].1)),
    decreases es.len(),
{
    if es.len() > 0 {
        lemma_written_entries(es.drop_last());
        assert forall|i: int| 0 <= i < es.len() implies key_text(#[trigger] es[i].0) is Some && written_entries(es)[i] == (key_text(es[i].0)->0, written(es[i].1)) by {
            if i < es.len() - 1 {
                assert(es.drop_last()[i] == es[i]);
            }
        }
    }
}

/// A boolean reads back as itself.
pub proof fn lemma_read_back_bool(v: FlValue, b: bool)
    requires
        stores(v, written(SerV::Bool(b))),
    ensures
        spec_bool(v) == Ok::<bool, ErrorV>(b),
{
}

/// A signed integer reads back as itself with any signed read whose range holds it.
pub proof fn lemma_read_back_signed(v: FlValue, i: i64, lo: int, hi: int)
    requires
        stores(v, written(SerV::Int(i))),
        lo <= i <= hi,
    ensures
        spec_signed(v, lo, hi) == Ok::<int, ErrorV>(i as int),
{
}

/// An unsigned integer reads back as itself with any unsigned read whose range holds it.
pub proof fn lemma_read_back_unsigned(v: FlValue, u: u64, hi: int)
    requires
        stores(v, written(SerV::UInt(u))),
        u <= hi,
    ensures
        spec_unsigned(v, hi) == Ok::<int, ErrorV>(u as int),
{
}

/// A text reads back as itself.
pub proof fn lemma_read_back_str(v: FlValue, s: Seq<char>)
    requires
        stores(v, written(SerV::Str(s))),
    ensures
        spec_str(v) == Ok::<Seq<char>, ErrorV>(s),
{
    vstd::utf8::encode_utf8_valid_utf8(s);
    vstd::utf8::encode_utf8_decode_utf8(s);
}

/// A character reads back as itself.
pub proof fn lemma_read_back_char(v: FlValue, c: char)
    requires
        stores(v, written(SerV::Char(c))),
    ensures
        spec_char(v) == Ok::<char, ErrorV>(c),
{
    vstd::utf8::encode_utf8_valid_utf8(seq![c]);
    vstd::utf8::encode_utf8_decode_utf8(seq![c]);
    assert(spec_str(v) == Ok::<Seq<char>, ErrorV>(seq![c]));
}

/// A unit variant reads back as the text of its name, which is what an enum read starts
/// with.
pub proof fn lemma_read_back_unit_variant(v: FlValue, n: Seq<char>)
    requires
        stores(v, written(SerV::UnitVariant(n))),
    ensures
        spec_str(v) == Ok::<Seq<char>, ErrorV>(n),
{
    vstd::utf8::encode_utf8_valid_utf8(n);
    vstd::utf8::encode_utf8_decode_utf8(n);
}

/// `None` and the unit values read back as null; anything whose description is not null
/// reads back as present, and a present optional value is read from the same value.
pub proof fn lemma_read_back_option(v: FlValue, x: SerV)
    requires
        stores(v, written(x)),
    ensures
        x is NoneValue || x is Unit || x is UnitStruct ==> v is Null,
        !(written(x) is Null) ==> !(v is Null),
        x matches SerV::SomeValue(y) ==> stores(v, written(*y)),
{
}

/// The elements of a sequence, tuple or tuple struct read back one by one: the array has
/// as many elements, and each is what the engine stores for the matching element.
pub proof fn lemma_read_back_elems(v: FlValue, x: SerV)
    requires
        stores(v, written(x)),
        x is Sequence || x is Tuple || x is TupleStruct,
    ensures
        v is Array,
        ({
            let xs = match x {
                SerV::Sequence(_, xs) => xs,
                SerV::Tuple(_, xs) => xs,
                SerV::TupleStruct(_, xs) => xs,
                _ => Seq::empty(),
            };
            &&& v->Array_0@.len() == xs.len()
            &&& forall|i: int| 0 <= i < xs.len() ==> stores(#[trigger] v->Array_0@[i], written(xs[i]))
        }),
{
    let xs = match x {
        SerV::Sequence(_, xs) => xs,
        SerV::Tuple(_, xs) => xs,
        SerV::TupleStruct(_, xs) => xs,
        _ => Seq::empty(),
    };
    lemma_written_items(xs);
    lemma_stores_items(v->Array_0@, written_items(xs));
}

/// The fields of a struct read back by name: the dictionary has one entry per field, and
/// looking up each field's name finds what the engine stores for the field's value.
pub proof fn lemma_read_back_fields(v: FlValue, l: usize, fs: Seq<(Seq<char>, SerV)>)
    requires
        stores(v, written(SerV::Struct(l, fs))),
    ensures
        v matches FlValue::Dict(d) && d@.len() == fs.len() && forall|j: int| 0 <= j < fs.len()
            ==> spec_key_index(d@, encode_utf8(#[trigger] fs[j].0)) >= 0 && stores(
            d@[spec_key_index(d@, encode_utf8(fs[j].0))].1,
            written(fs[j].1),
        ),
{
    let d = v->Dict_0@;
    lemma_written_fields(fs);
    lemma_stores_entries(d, written_fields(fs));
    assert forall|j: int| 0 <= j < fs.len() implies spec_key_index(d, encode_utf8(#[trigger] fs[j].0)) >= 0
        && stores(d[spec_key_index(d, encode_utf8(fs[j].0))].1, written(fs[j].1)) by {
        assert(written_fields(fs)[j] == (encode_utf8(fs[j].0), written(fs[j].1)));
        assert(spec_key_index(d, written_fields(fs)[j].0) >= 0);
    }
}

/// The entries of a map read back by key: each key is written as text, and looking up
/// that text finds what the engine stores for the key's value.
pub proof fn lemma_read_back_entries(v: FlValue, h: Option<usize>, es: Seq<(SerV, SerV)>)
    requires
        round_trips(SerV::MapEntries(h, es)),
        stores(v, written(SerV::MapEntries(h, es))),
    ensures
        v matches FlValue::Dict(d) && d@.len() == es.len() && forall|j: int| 0 <= j < es.len()
            ==> key_text(#[trigger] es[j].0) is Some && spec_key_index(d@, key_text(es[j].0)->0)
            >= 0 && stores(d@[spec_key_index(d@, key_text(es[j].0)->0)].1, written(es[j].1)),
{
    let d = v->Dict_0@;
    lemma_written_entries(es);
    lemma_stores_entries(d, written_entries(es));
    assert forall|j: int| 0 <= j < es.len() implies key_text(#[trigger] es[j].0) is Some
        && spec_key_index(d, key_text(es[j].0)->0) >= 0 && stores(
        d[spec_key_index(d, key_text(es[j].0)->0)].1,
        written(es[j].1),
    ) by {
        assert(written_entries(es)[j] == (key_text(es[j].0)->0, written(es[j].1)));
        assert(spec_key_index(d, written_entries(es)[j].0) >= 0);
    }
}

/// A variant with content reads back as a dictionary of one entry, whose key decodes to
/// the variant's name and whose value is what the engine stores for the content: the
/// content's description for a newtype variant, an array of the elements for a tuple
/// variant, and a dictionary of the fields for a struct variant.
pub proof fn lemma_read_back_variant(v: FlValue, x: SerV)
    requires
        stores(v, written(x)),
        x is NewtypeVariant || x is TupleVariant || x is StructVariant,
    ensures
        ({
            let (n, content) = match x {
                SerV::NewtypeVariant(n, y) => (n, written(*y)),
                SerV::TupleVariant(n, _, xs) => (n, Written::Array(written_items(xs))),
                SerV::StructVariant(n, _, fs) => (n, Written::Dict(written_fields(fs))),
                _ => (Seq::empty(), Written::Null),
            };
            v matches FlValue::Dict(d) && d@.len() == 1 && valid_utf8(d@[0].0@) && decode_utf8(
                d@[0].0@,
            ) == n && stores(d@[0].1, content)
        }),
{
    let (n, content) = match x {
        SerV::NewtypeVariant(n, y) => (n, written(*y)),
        SerV::TupleVariant(n, _, xs) => (n, Written::Array(written_items(xs))),
        SerV::StructVariant(n, _, fs) => (n, Written::Dict(written_fields(fs))),
        _ => (Seq::empty(), Written::Null),
    };
    let d = v->Dict_0@;
    let es = seq![(encode_utf8(n), content)];
    assert(written(x) == Written::Dict(es));
    lemma_stores_entries(d, es);
    assert(es[0].0 == encode_utf8(n));
    crate::fleece::lemma_key_index(d, encode_utf8(n));
    vstd::utf8::encode_utf8_valid_utf8(n);
    vstd::utf8::encode_utf8_decode_utf8(n);
}

} // verus!
