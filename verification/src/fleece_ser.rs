//! Writing the serde data model into a Fleece encoder: the decisions of the serializer.
//!
//! A value of the serde data model is turned into the sequence of encoder calls that
//! writes it; the caller replays them on a Fleece encoder.
use vstd::prelude::*;
use vstd::utf8::encode_utf8;
use vstd::string::StringSliceAdditionalSpecFns;
use crate::fleece_error::{Error, ErrorV};
use crate::text::{decimal_int, itoa_i64, itoa_u64};

verus! {

broadcast use vstd::std_specs::vec::group_vec_axioms;

/// A value of the serde data model, as handed to a serializer.
#[derive(Debug)]
pub enum SerdeValue {
    Bool(bool),
    /// Any signed integer (`i8` to `i64`).
    Int(i64),
    /// Any unsigned integer (`u8` to `u64`).
    UInt(u64),
    /// An `f32`, by its bit pattern.
    F32(u32),
    /// An `f64`, by its bit pattern.
    F64(u64),
    Char(char),
    Str(String),
    Bytes(Vec<u8>),
    NoneValue,
    SomeValue(Box<SerdeValue>),
    Unit,
    UnitStruct,
    UnitVariant(String),
    NewtypeStruct(Box<SerdeValue>),
    NewtypeVariant(String, Box<SerdeValue>),
    /// A sequence, with the length announced by the serialized type.
    Sequence(Option<usize>, Vec<SerdeValue>),
    Tuple(usize, Vec<SerdeValue>),
    TupleStruct(usize, Vec<SerdeValue>),
    TupleVariant(String, usize, Vec<SerdeValue>),
    /// A map, with the length announced by the serialized type.
    MapEntries(Option<usize>, Vec<(SerdeValue, SerdeValue)>),
    Struct(usize, Vec<(String, SerdeValue)>),
    StructVariant(String, usize, Vec<(String, SerdeValue)>),
}

/// What a `SerdeValue` holds, as mathematical values.
pub enum SerV {
    Bool(bool),
    Int(i64),
    UInt(u64),
    F32(u32),
    F64(u64),
    Char(char),
    Str(Seq<char>),
    Bytes(Seq<u8>),
    NoneValue,
    SomeValue(Box<SerV>),
    Unit,
    UnitStruct,
    UnitVariant(Seq<char>),
    NewtypeStruct(Box<SerV>),
    NewtypeVariant(Seq<char>, Box<SerV>),
    Sequence(Option<usize>, Seq<SerV>),
    Tuple(usize, Seq<SerV>),
    TupleStruct(usize, Seq<SerV>),
    TupleVariant(Seq<char>, usize, Seq<SerV>),
    MapEntries(Option<usize>, Seq<(SerV, SerV)>),
    Struct(usize, Seq<(Seq<char>, SerV)>),
    StructVariant(Seq<char>, usize, Seq<(Seq<char>, SerV)>),
}

/// The values of a sequence, as mathematical values.
pub open spec fn view_values(s: Seq<SerdeValue>) -> Seq<SerV>
    decreases s,
{
    if s.len() == 0 {
        Seq::empty()
    } else {
        view_values(s.drop_last()).push(s.last()@)
    }
}

/// The entries of a map, as mathematical values.
pub open spec fn view_entries(s: Seq<(SerdeValue, SerdeValue)>) -> Seq<(SerV, SerV)>
    decreases s,
{
    if s.len() == 0 {
        Seq::empty()
    } else {
        proof {
            assert(decreases_to!(s => s.last()));
            assert(decreases_to!(s.last() => s.last().0));
            assert(decreases_to!(s.last() => s.last().1));
        }
        view_entries(s.drop_last()).push((s.last().0@, s.last().1@))
    }
}

/// The fields of a struct, as mathematical values.
pub open spec fn view_fields(s: Seq<(String, SerdeValue)>) -> Seq<(Seq<char>, SerV)>
    decreases s,
{
    if s.len() == 0 {
        Seq::empty()
    } else {
        proof {
            assert(decreases_to!(s => s.last()));
            assert(decreases_to!(s.last() => s.last().1));
        }
        view_fields(s.drop_last()).push((s.last().0@, s.last().1@))
    }
}

/// The view of a sequence has its length and the view of each element.
pub proof fn lemma_view_values(s: Seq<SerdeValue>)
    ensures
        view_values(s).len() == s.len(),
        forall|i: int| 0 <= i < s.len() ==> #[trigger] view_values(s)[i] == s[i]@,
    decreases s.len(),
{
    if s.len() > 0 {
        lemma_view_values(s.drop_last());
        assert(view_values(s) == view_values(s.drop_last()).push(s.last()@));
        assert forall|i: int| 0 <= i < s.len() implies #[trigger] view_values(s)[i] == s[i]@ by {
            if i < s.len() - 1 {
                assert(s.drop_last()[i] == s[i]);
            }
        }
    }
}

/// The view of a map has its length and the view of each entry.
pub proof fn lemma_view_entries(s: Seq<(SerdeValue, SerdeValue)>)
    ensures
        view_entries(s).len() == s.len(),
        forall|i: int| 0 <= i < s.len() ==> #[trigger] view_entries(s)[i] == (s[i].0@, s[i].1@),
    decreases s.len(),
{
    if s.len() > 0 {
        lemma_view_entries(s.drop_last());
        assert(view_entries(s) == view_entries(s.drop_last()).push((s.last().0@, s.last().1@)));
        assert forall|i: int| 0 <= i < s.len() implies #[trigger] view_entries(s)[i] == (s[i].0@, s[i].1@) by {
            if i < s.len() - 1 {
                assert(s.drop_last()[i] == s[i]);
            }
        }
    }
}

/// The view of a struct has its length and the view of each field.
pub proof fn lemma_view_fields(s: Seq<(String, SerdeValue)>)
    ensures
        view_fields(s).len() == s.len(),
        forall|i: int| 0 <= i < s.len() ==> #[trigger] view_fields(s)[i] == (s[i].0@, s[i].1@),
    decreases s.len(),
{
    if s.len() > 0 {
        lemma_view_fields(s.drop_last());
        assert(view_fields(s) == view_fields(s.drop_last()).push((s.last().0@, s.last().1@)));
        assert forall|i: int| 0 <= i < s.len() implies #[trigger] view_fields(s)[i] == (s[i].0@, s[i].1@) by {
            if i < s.len() - 1 {
                assert(s.drop_last()[i] == s[i]);
            }
        }
    }
}

impl View for SerdeValue {
    type V = SerV;

    open spec fn view(&self) -> SerV
        decreases self,
    {
        match self {
            SerdeValue::Bool(b) => SerV::Bool(*b),
            SerdeValue::Int(i) => SerV::Int(*i),
            SerdeValue::UInt(u) => SerV::UInt(*u),
            SerdeValue::F32(b) => SerV::F32(*b),
            SerdeValue::F64(b) => SerV::F64(*b),
            SerdeValue::Char(c) => SerV::Char(*c),
            SerdeValue::Str(s) => SerV::Str(s@),
            SerdeValue::Bytes(b) => SerV::Bytes(b@),
            SerdeValue::NoneValue => SerV::NoneValue,
            SerdeValue::SomeValue(x) => SerV::SomeValue(Box::new((**x)@)),
            SerdeValue::Unit => SerV::Unit,
            SerdeValue::UnitStruct => SerV::UnitStruct,
            SerdeValue::UnitVariant(n) => SerV::UnitVariant(n@),
            SerdeValue::NewtypeStruct(x) => SerV::NewtypeStruct(Box::new((**x)@)),
            SerdeValue::NewtypeVariant(n, x) => SerV::NewtypeVariant(n@, Box::new((**x)@)),
            SerdeValue::Sequence(h, xs) => SerV::Sequence(*h, { proof { assert(decreases_to!(self => xs)); assert(decreases_to!(xs => xs@)); } view_values(xs@) }),
            SerdeValue::Tuple(l, xs) => SerV::Tuple(*l, { proof { assert(decreases_to!(self => xs)); assert(decreases_to!(xs => xs@)); } view_values(xs@) }),
            SerdeValue::TupleStruct(l, xs) => SerV::TupleStruct(*l, { proof { assert(decreases_to!(self => xs)); assert(decreases_to!(xs => xs@)); } view_values(xs@) }),
            SerdeValue::TupleVariant(n, l, xs) => SerV::TupleVariant(n@, *l, { proof { assert(decreases_to!(self => xs)); assert(decreases_to!(xs => xs@)); } view_values(xs@) }),
            SerdeValue::MapEntries(h, es) => SerV::MapEntries(*h, { proof { assert(decreases_to!(self => es)); assert(decreases_to!(es => es@)); } view_entries(es@) }),
            SerdeValue::Struct(l, fs) => SerV::Struct(*l, { proof { assert(decreases_to!(self => fs)); assert(decreases_to!(fs => fs@)); } view_fields(fs@) }),
            SerdeValue::StructVariant(n, l, fs) => SerV::StructVariant(n@, *l, { proof { assert(decreases_to!(self => fs)); assert(decreases_to!(fs => fs@)); } view_fields(fs@) }),
        }
    }
}

/// The compound serializer of a map key. A key is never a compound value: `key_op`
/// refuses those before any element is written, so no value of this type is ever made
/// while serializing.
pub struct InvalidKey;

/// One call on a Fleece encoder.
#[derive(Debug, PartialEq)]
pub enum EncoderOp {
    WriteNull,
    WriteBool(bool),
    WriteInt(i64),
    WriteUInt(u64),
    /// `FLEncoder_WriteFloat`, with the bit pattern of the `f32`.
    WriteFloat(u32),
    /// `FLEncoder_WriteDouble`, with the bit pattern of the `f64`.
    WriteDouble(u64),
    WriteString(Vec<u8>),
    WriteKey(Vec<u8>),
    /// Writes as key the shortest decimal text of the `f32` with this bit pattern.
    WriteKeyF32(u32),
    /// Writes as key the shortest decimal text of the `f64` with this bit pattern.
    WriteKeyF64(u64),
    BeginArray(usize),
    EndArray,
    BeginDict(usize),
    EndDict,
}

/// What an `EncoderOp` holds, as mathematical values.
pub enum OpV {
    WriteNull,
    WriteBool(bool),
    WriteInt(i64),
    WriteUInt(u64),
    WriteFloat(u32),
    WriteDouble(u64),
    WriteString(Seq<u8>),
    WriteKey(Seq<u8>),
    WriteKeyF32(u32),
    WriteKeyF64(u64),
    BeginArray(usize),
    EndArray,
    BeginDict(usize),
    EndDict,
}

impl View for EncoderOp {
    type V = OpV;

    open spec fn view(&self) -> OpV {
        match self {
            EncoderOp::WriteNull => OpV::WriteNull,
            EncoderOp::WriteBool(b) => OpV::WriteBool(*b),
            EncoderOp::WriteInt(i) => OpV::WriteInt(*i),
            EncoderOp::WriteUInt(u) => OpV::WriteUInt(*u),
            EncoderOp::WriteFloat(b) => OpV::WriteFloat(*b),
            EncoderOp::WriteDouble(b) => OpV::WriteDouble(*b),
            EncoderOp::WriteString(s) => OpV::WriteString(s@),
            EncoderOp::WriteKey(s) => OpV::WriteKey(s@),
            EncoderOp::WriteKeyF32(b) => OpV::WriteKeyF32(*b),
            EncoderOp::WriteKeyF64(b) => OpV::WriteKeyF64(*b),
            EncoderOp::BeginArray(n) => OpV::BeginArray(*n),
            EncoderOp::EndArray => OpV::EndArray,
            EncoderOp::BeginDict(n) => OpV::BeginDict(*n),
            EncoderOp::EndDict => OpV::EndDict,
        }
    }
}

/// The calls held by a list of encoder calls.
pub open spec fn ops_view(ops: Seq<EncoderOp>) -> Seq<OpV> {
    Seq::new(ops.len(), |i: int| ops[i]@)
}

/// The bytes of "true".
pub open spec fn true_bytes() -> Seq<u8> {
    seq![116u8, 114, 117, 101]
}

/// The bytes of "false".
pub open spec fn false_bytes() -> Seq<u8> {
    seq![102u8, 97, 108, 115, 101]
}

/// The error for a value that cannot be written.
pub open spec fn unsupported(msg: Seq<char>) -> ErrorV {
    ErrorV::Unsupported(msg)
}

/// The key that a value of the data model is written as in a map, or why it cannot be
/// one.
pub open spec fn spec_key_op(k: SerV) -> Result<OpV, ErrorV>
    decreases k,
{
    match k {
        SerV::Bool(b) => Ok(OpV::WriteKey(if b { true_bytes() } else { false_bytes() })),
        SerV::Int(i) => Ok(OpV::WriteKey(decimal_int(i as int))),
        SerV::UInt(u) => Ok(OpV::WriteKey(decimal_int(u as int))),
        SerV::F32(b) => Ok(OpV::WriteKeyF32(b)),
        SerV::F64(b) => Ok(OpV::WriteKeyF64(b)),
        SerV::Char(c) => Ok(OpV::WriteKey(encode_utf8(seq![c]))),
        SerV::Str(s) => Ok(OpV::WriteKey(encode_utf8(s))),
        SerV::Bytes(_) => Err(unsupported("key must be a string (bytes)"@)),
        SerV::NoneValue => Err(unsupported("key must be a string (none)"@)),
        SerV::SomeValue(_) => Err(unsupported("key must be a string (some)"@)),
        SerV::Unit => Err(unsupported("key must be a string (unit)"@)),
        SerV::UnitStruct => Err(unsupported("key must be a string (unit struct)"@)),
        SerV::UnitVariant(n) => Ok(OpV::WriteKey(encode_utf8(n))),
        SerV::NewtypeStruct(x) => spec_key_op(*x),
        SerV::NewtypeVariant(_, _) => Err(unsupported("key must be a string (newtype variant)"@)),
        SerV::Sequence(_, _) => Err(unsupported("key must be a string (seq)"@)),
        SerV::Tuple(_, _) => Err(unsupported("key must be a string (tuple)"@)),
        SerV::TupleStruct(_, _) => Err(unsupported("key must be a string (tuple struct)"@)),
        SerV::TupleVariant(_, _, _) => Err(unsupported("key must be a string (tuple variant)"@)),
        SerV::MapEntries(_, _) => Err(unsupported("key must be a string (map)"@)),
        SerV::Struct(_, _) => Err(unsupported("key must be a string (struct)"@)),
        SerV::StructVariant(_, _, _) => Err(unsupported("key must be a string (struct variant)"@)),
    }
}

/// Appends the result `b` to `a`, keeping the first error.
pub open spec fn then_ops(a: Result<Seq<OpV>, ErrorV>, b: Result<Seq<OpV>, ErrorV>) -> Result<
    Seq<OpV>,
    ErrorV,
> {
    match a {
        Err(e) => Err(e),
        Ok(x) => match b {
            Err(e) => Err(e),
            Ok(y) => Ok(x + y),
        },
    }
}

/// Puts fixed calls around a result.
pub open spec fn around(pre: Seq<OpV>, mid: Result<Seq<OpV>, ErrorV>, post: Seq<OpV>) -> Result<
    Seq<OpV>,
    ErrorV,
> {
    match mid {
        Err(e) => Err(e),
        Ok(m) => Ok(pre + m + post),
    }
}

/// The calls that write a value of the data model, or the first error met on the way.
pub open spec fn spec_ops(v: SerV) -> Result<Seq<OpV>, ErrorV>
    decreases v, 1int,
{
    match v {
        SerV::Bool(b) => Ok(seq![OpV::WriteBool(b)]),
        SerV::Int(i) => Ok(seq![OpV::WriteInt(i)]),
        SerV::UInt(u) => Ok(seq![OpV::WriteUInt(u)]),
        SerV::F32(b) => Ok(seq![OpV::WriteFloat(b)]),
        SerV::F64(b) => Ok(seq![OpV::WriteDouble(b)]),
        SerV::Char(c) => Ok(seq![OpV::WriteString(encode_utf8(seq![c]))]),
        SerV::Str(s) => Ok(seq![OpV::WriteString(encode_utf8(s))]),
        SerV::Bytes(_) => Err(unsupported("Write raw bytes unsupported"@)),
        SerV::NoneValue => Ok(seq![OpV::WriteNull]),
        SerV::SomeValue(x) => spec_ops(*x),
        SerV::Unit => Ok(seq![OpV::WriteNull]),
        SerV::UnitStruct => Ok(seq![OpV::WriteNull]),
        SerV::UnitVariant(n) => Ok(seq![OpV::WriteString(encode_utf8(n))]),
        SerV::NewtypeStruct(x) => spec_ops(*x),
        SerV::NewtypeVariant(n, x) => around(
            seq![OpV::BeginDict(1), OpV::WriteKey(encode_utf8(n))],
            spec_ops(*x),
            seq![OpV::EndDict],
        ),
        SerV::Sequence(h, xs) => around(
            seq![OpV::BeginArray(if h is Some { h->0 } else { 0 })],
            spec_elems_ops(xs),
            seq![OpV::EndArray],
        ),
        SerV::Tuple(l, xs) => around(seq![OpV::BeginArray(l)], spec_elems_ops(xs), seq![OpV::EndArray]),
        SerV::TupleStruct(l, xs) => around(
            seq![OpV::BeginArray(l)],
            spec_elems_ops(xs),
            seq![OpV::EndArray],
        ),
        SerV::TupleVariant(n, l, xs) => around(
            seq![OpV::BeginDict(1), OpV::WriteKey(encode_utf8(n)), OpV::BeginArray(l)],
            spec_elems_ops(xs),
            seq![OpV::EndArray, OpV::EndDict],
        ),
        SerV::MapEntries(h, es) => around(
            seq![OpV::BeginDict(if h is Some { h->0 } else { 0 })],
            spec_entries_ops(es),
            seq![OpV::EndDict],
        ),
        SerV::Struct(l, fs) => around(seq![OpV::BeginDict(l)], spec_fields_ops(fs), seq![OpV::EndDict]),
        SerV::StructVariant(n, l, fs) => around(
            seq![OpV::BeginDict(1), OpV::WriteKey(encode_utf8(n)), OpV::BeginDict(l)],
            spec_fields_ops(fs),
            seq![OpV::EndDict, OpV::EndDict],
        ),
    }
}

/// The calls that write the elements of a sequence, one after the other.
pub open spec fn spec_elems_ops(xs: Seq<SerV>) -> Result<Seq<OpV>, ErrorV>
    decreases xs, 0int,
{
    if xs.len() == 0 {
        Ok(Seq::empty())
    } else {
        then_ops(spec_elems_ops(xs.drop_last()), spec_ops(xs.last()))
    }
}

/// The calls that write the entries of a map: each key, then its value.
pub open spec fn spec_entries_ops(es: Seq<(SerV, SerV)>) -> Result<Seq<OpV>, ErrorV>
    decreases es, 0int,
{
    if es.len() == 0 {
        Ok(Seq::empty())
    } else {
        let k = match spec_key_op(es.last().0) {
            Ok(op) => Ok(seq![op]),
            Err(e) => Err(e),
        };
        then_ops(spec_entries_ops(es.drop_last()), then_ops(k, spec_ops(es.last().1)))
    }
}

/// The calls that write the fields of a struct: each name as key, then its value.
pub open spec fn spec_fields_ops(fs: Seq<(Seq<char>, SerV)>) -> Result<Seq<OpV>, ErrorV>
    decreases fs, 0int,
{
    if fs.len() == 0 {
        Ok(Seq::empty())
    } else {
        then_ops(
            spec_fields_ops(fs.drop_last()),
            then_ops(Ok(seq![OpV::WriteKey(encode_utf8(fs.last().0))]), spec_ops(fs.last().1)),
        )
    }
}


/// The UTF-8 encoding of `c`, as `char::encode_utf8` writes it.
#[verifier::external_body]
pub(crate) fn char_utf8(c: char) -> (r: Vec<u8>)
    ensures
        r@ == encode_utf8(seq![c]),
{
    let mut tmp = [0u8; 4];
    c.encode_utf8(&mut tmp).as_bytes().to_vec()
}

/// The UTF-8 encoding of `s`.
pub fn str_utf8(s: &str) -> (r: Vec<u8>)
    ensures
        r@ == encode_utf8(s@),
{
    vstd::slice::slice_to_vec(s.as_bytes())
}

proof fn lemma_push_view(ops: Seq<EncoderOp>, op: EncoderOp)
    ensures
        ops_view(ops.push(op)) == ops_view(ops).push(op@),
{
    assert(ops_view(ops.push(op)) =~= ops_view(ops).push(op@));
}

proof fn lemma_elems_err(xs: Seq<SerV>, i: int)
    requires
        0 <= i <= xs.len(),
        spec_elems_ops(xs.take(i)) is Err,
    ensures
        spec_elems_ops(xs) == spec_elems_ops(xs.take(i)),
    decreases xs.len() - i,
{
    if i == xs.len() {
        assert(xs.take(i) =~= xs);
    } else {
        assert(xs.take(i + 1).drop_last() =~= xs.take(i));
        lemma_elems_err(xs, i + 1);
    }
}

proof fn lemma_entries_err(es: Seq<(SerV, SerV)>, i: int)
    requires
        0 <= i <= es.len(),
        spec_entries_ops(es.take(i)) is Err,
    ensures
        spec_entries_ops(es) == spec_entries_ops(es.take(i)),
    decreases es.len() - i,
{
    if i == es.len() {
        assert(es.take(i) =~= es);
    } else {
        assert(es.take(i + 1).drop_last() =~= es.take(i));
        lemma_entries_err(es, i + 1);
    }
}

proof fn lemma_fields_err(fs: Seq<(Seq<char>, SerV)>, i: int)
    requires
        0 <= i <= fs.len(),
        spec_fields_ops(fs.take(i)) is Err,
    ensures
        spec_fields_ops(fs) == spec_fields_ops(fs.take(i)),
    decreases fs.len() - i,
{
    if i == fs.len() {
        assert(fs.take(i) =~= fs);
    } else {
        assert(fs.take(i + 1).drop_last() =~= fs.take(i));
        lemma_fields_err(fs, i + 1);
    }
}

/// The key call for a map key, or why the value cannot be a key.
pub fn key_op(k: &SerdeValue) -> (r: Result<EncoderOp, Error>)
    ensures
        r matches Ok(op) ==> spec_key_op(k@) == Ok::<OpV, ErrorV>(op@),
        r matches Err(e) ==> spec_key_op(k@) == Err::<OpV, ErrorV>(e@),
    decreases k,
{
    match k {
        SerdeValue::Bool(b) => {
            if *b {
                let bytes: Vec<u8> = vec![116u8, 114, 117, 101];
                assert(bytes@ =~= true_bytes());
                Ok(EncoderOp::WriteKey(bytes))
            } else {
                let bytes: Vec<u8> = vec![102u8, 97, 108, 115, 101];
                assert(bytes@ =~= false_bytes());
                Ok(EncoderOp::WriteKey(bytes))
            }
        },
        SerdeValue::Int(i) => Ok(EncoderOp::WriteKey(itoa_i64(*i))),
        SerdeValue::UInt(u) => Ok(EncoderOp::WriteKey(itoa_u64(*u))),
        SerdeValue::F32(b) => Ok(EncoderOp::WriteKeyF32(*b)),
        SerdeValue::F64(b) => Ok(EncoderOp::WriteKeyF64(*b)),
        SerdeValue::Char(c) => Ok(EncoderOp::WriteKey(char_utf8(*c))),
        SerdeValue::Str(s) => Ok(EncoderOp::WriteKey(str_utf8(s.as_str()))),
        SerdeValue::Bytes(_) => Err(Error::Unsupported("key must be a string (bytes)")),
        SerdeValue::NoneValue => Err(Error::Unsupported("key must be a string (none)")),
        SerdeValue::SomeValue(_) => Err(Error::Unsupported("key must be a string (some)")),
        SerdeValue::Unit => Err(Error::Unsupported("key must be a string (unit)")),
        SerdeValue::UnitStruct => Err(Error::Unsupported("key must be a string (unit struct)")),
        SerdeValue::UnitVariant(n) => Ok(EncoderOp::WriteKey(str_utf8(n.as_str()))),
        SerdeValue::NewtypeStruct(x) => key_op(x),
        SerdeValue::NewtypeVariant(_, _) => Err(
            Error::Unsupported("key must be a string (newtype variant)"),
        ),
        SerdeValue::Sequence(_, _) => Err(Error::Unsupported("key must be a string (seq)")),
        SerdeValue::Tuple(_, _) => Err(Error::Unsupported("key must be a string (tuple)")),
        SerdeValue::TupleStruct(_, _) => Err(
            Error::Unsupported("key must be a string (tuple struct)"),
        ),
        SerdeValue::TupleVariant(_, _, _) => Err(
            Error::Unsupported("key must be a string (tuple variant)"),
        ),
        SerdeValue::MapEntries(_, _) => Err(Error::Unsupported("key must be a string (map)")),
        SerdeValue::Struct(_, _) => Err(Error::Unsupported("key must be a string (struct)")),
        SerdeValue::StructVariant(_, _, _) => Err(
            Error::Unsupported("key must be a string (struct variant)"),
        ),
    }
}

fn push_op(out: &mut Vec<EncoderOp>, op: EncoderOp)
    ensures
        ops_view(final(out)@) == ops_view(old(out)@).push(op@),
{
    proof {
        lemma_push_view(out@, op);
    }
    out.push(op);
}

/// Appends the calls that write `v` to `out`; on an error, what was appended is left.
#[verifier::rlimit(60)]
pub fn write_value(v: &SerdeValue, out: &mut Vec<EncoderOp>) -> (r: Result<(), Error>)
    ensures
        r is Ok ==> spec_ops(v@) is Ok && ops_view(final(out)@) == ops_view(old(out)@) + spec_ops(
            v@,
        )->Ok_0,
        r matches Err(e) ==> spec_ops(v@) == Err::<Seq<OpV>, ErrorV>(e@),
    decreases v, 1int,
{
    let ghost base = ops_view(out@);
    match v {
        SerdeValue::Bool(b) => {
            push_op(out, EncoderOp::WriteBool(*b));
            Ok(())
        },
        SerdeValue::Int(i) => {
            push_op(out, EncoderOp::WriteInt(*i));
            Ok(())
        },
        SerdeValue::UInt(u) => {
            push_op(out, EncoderOp::WriteUInt(*u));
            Ok(())
        },
        SerdeValue::F32(b) => {
            push_op(out, EncoderOp::WriteFloat(*b));
            Ok(())
        },
        SerdeValue::F64(b) => {
            push_op(out, EncoderOp::WriteDouble(*b));
            Ok(())
        },
        SerdeValue::Char(c) => {
            push_op(out, EncoderOp::WriteString(char_utf8(*c)));
            Ok(())
        },
        SerdeValue::Str(s) => {
            push_op(out, EncoderOp::WriteString(str_utf8(s.as_str())));
            Ok(())
        },
        SerdeValue::Bytes(_) => Err(Error::Unsupported("Write raw bytes unsupported")),
        SerdeValue::NoneValue => {
            push_op(out, EncoderOp::WriteNull);
            Ok(())
        },
        SerdeValue::SomeValue(x) => write_value(x, out),
        SerdeValue::Unit => {
            push_op(out, EncoderOp::WriteNull);
            Ok(())
        },
        SerdeValue::UnitStruct => {
            push_op(out, EncoderOp::WriteNull);
            Ok(())
        },
        SerdeValue::UnitVariant(n) => {
            push_op(out, EncoderOp::WriteString(str_utf8(n.as_str())));
            Ok(())
        },
        SerdeValue::NewtypeStruct(x) => write_value(x, out),
        SerdeValue::NewtypeVariant(n, x) => {
            push_op(out, EncoderOp::BeginDict(1));
            push_op(out, EncoderOp::WriteKey(str_utf8(n.as_str())));
            let ghost mid = ops_view(out@);
            write_value(x, out)?;
            push_op(out, EncoderOp::EndDict);
            proof {
                let inner = spec_ops((**x)@)->Ok_0;
                assert(ops_view(out@) =~= base + (seq![OpV::BeginDict(1), OpV::WriteKey(encode_utf8(n@))] + inner + seq![OpV::EndDict]));
            }
            Ok(())
        },
        SerdeValue::Sequence(h, xs) => {
            let n = match h {
                Some(n) => *n,
                None => 0,
            };
            push_op(out, EncoderOp::BeginArray(n));
            write_elems(xs, out)?;
            push_op(out, EncoderOp::EndArray);
            proof {
                let inner = spec_elems_ops(view_values(xs@))->Ok_0;
                assert(ops_view(out@) =~= base + (seq![OpV::BeginArray(n)] + inner + seq![OpV::EndArray]));
            }
            Ok(())
        },
        SerdeValue::Tuple(l, xs) => {
            push_op(out, EncoderOp::BeginArray(*l));
            write_elems(xs, out)?;
            push_op(out, EncoderOp::EndArray);
            proof {
                let inner = spec_elems_ops(view_values(xs@))->Ok_0;
                assert(ops_view(out@) =~= base + (seq![OpV::BeginArray(*l)] + inner + seq![OpV::EndArray]));
            }
            Ok(())
        },
        SerdeValue::TupleStruct(l, xs) => {
            push_op(out, EncoderOp::BeginArray(*l));
            write_elems(xs, out)?;
            push_op(out, EncoderOp::EndArray);
            proof {
                let inner = spec_elems_ops(view_values(xs@))->Ok_0;
                assert(ops_view(out@) =~= base + (seq![OpV::BeginArray(*l)] + inner + seq![OpV::EndArray]));
            }
            Ok(())
        },
        SerdeValue::TupleVariant(nm, l, xs) => {
            push_op(out, EncoderOp::BeginDict(1));
            push_op(out, EncoderOp::WriteKey(str_utf8(nm.as_str())));
            push_op(out, EncoderOp::BeginArray(*l));
            write_elems(xs, out)?;
            push_op(out, EncoderOp::EndArray);
            push_op(out, EncoderOp::EndDict);
            proof {
                let inner = spec_elems_ops(view_values(xs@))->Ok_0;
                assert(ops_view(out@) =~= base + (seq![OpV::BeginDict(1), OpV::WriteKey(encode_utf8(nm@)), OpV::BeginArray(*l)] + inner + seq![OpV::EndArray, OpV::EndDict]));
            }
            Ok(())
        },
        SerdeValue::MapEntries(h, es) => {
            let n = match h {
                Some(n) => *n,
                None => 0,
            };
            push_op(out, EncoderOp::BeginDict(n));
            write_entries(es, out)?;
            push_op(out, EncoderOp::EndDict);
            proof {
                let inner = spec_entries_ops(view_entries(es@))->Ok_0;
                assert(ops_view(out@) =~= base + (seq![OpV::BeginDict(n)] + inner + seq![OpV::EndDict]));
            }
            Ok(())
        },
        SerdeValue::Struct(l, fs) => {
            push_op(out, EncoderOp::BeginDict(*l));
            write_fields(fs, out)?;
            push_op(out, EncoderOp::EndDict);
            proof {
                let inner = spec_fields_ops(view_fields(fs@))->Ok_0;
                assert(ops_view(out@) =~= base + (seq![OpV::BeginDict(*l)] + inner + seq![OpV::EndDict]));
            }
            Ok(())
        },
        SerdeValue::StructVariant(nm, l, fs) => {
            push_op(out, EncoderOp::BeginDict(1));
            push_op(out, EncoderOp::WriteKey(str_utf8(nm.as_str())));
            push_op(out, EncoderOp::BeginDict(*l));
            write_fields(fs, out)?;
            push_op(out, EncoderOp::EndDict);
            push_op(out, EncoderOp::EndDict);
            proof {
                let inner = spec_fields_ops(view_fields(fs@))->Ok_0;
                assert(ops_view(out@) =~= base + (seq![OpV::BeginDict(1), OpV::WriteKey(encode_utf8(nm@)), OpV::BeginDict(*l)] + inner + seq![OpV::EndDict, OpV::EndDict]));
            }
            Ok(())
        },
    }
}

fn write_elems(xs: &Vec<SerdeValue>, out: &mut Vec<EncoderOp>) -> (r: Result<(), Error>)
    ensures
        r is Ok ==> spec_elems_ops(view_values(xs@)) is Ok && ops_view(final(out)@) == ops_view(
            old(out)@,
        ) + spec_elems_ops(view_values(xs@))->Ok_0,
        r matches Err(e) ==> spec_elems_ops(view_values(xs@)) == Err::<Seq<OpV>, ErrorV>(e@),
    decreases xs, 0int,
{
    let ghost base = ops_view(out@);
    let ghost xv = view_values(xs@);
    proof {
        lemma_view_values(xs@);
    }
    let mut i: usize = 0;
    assert(xv.take(0) =~= Seq::<SerV>::empty());
    while i < xs.len()
        invariant
            i <= xs@.len(),
            xv == view_values(xs@),
            xv.len() == xs@.len(),
            spec_elems_ops(xv.take(i as int)) is Ok,
            ops_view(out@) == base + spec_elems_ops(xv.take(i as int))->Ok_0,
        decreases xs@.len() - i,
    {
        let ghost before = ops_view(out@);
        assert(xv.take(i + 1).drop_last() =~= xv.take(i as int));
        assert(xv.take(i + 1).last() == xv[i as int]);
        assert(xv[i as int] == xs@[i as int]@) by {
            lemma_view_values(xs@);
        }
        assert(decreases_to!(xs => xs[i as int]));
        match write_value(&xs[i], out) {
            Ok(()) => {},
            Err(e) => {
                proof {
                    lemma_elems_err(xv, i + 1);
                }
                return Err(e);
            },
        }
        proof {
            assert(ops_view(out@) =~= base + spec_elems_ops(xv.take(i + 1))->Ok_0);
        }
        i = i + 1;
    }
    assert(xv.take(i as int) =~= xv);
    Ok(())
}

fn write_entries(es: &Vec<(SerdeValue, SerdeValue)>, out: &mut Vec<EncoderOp>) -> (r: Result<
    (),
    Error,
>)
    ensures
        r is Ok ==> spec_entries_ops(view_entries(es@)) is Ok && ops_view(final(out)@) == ops_view(
            old(out)@,
        ) + spec_entries_ops(view_entries(es@))->Ok_0,
        r matches Err(e) ==> spec_entries_ops(view_entries(es@)) == Err::<Seq<OpV>, ErrorV>(e@),
    decreases es, 0int,
{
    let ghost base = ops_view(out@);
    let ghost ev = view_entries(es@);
    proof {
        lemma_view_entries(es@);
    }
    let mut i: usize = 0;
    assert(ev.take(0) =~= Seq::<(SerV, SerV)>::empty());
    while i < es.len()
        invariant
            i <= es@.len(),
            ev == view_entries(es@),
            ev.len() == es@.len(),
            spec_entries_ops(ev.take(i as int)) is Ok,
            ops_view(out@) == base + spec_entries_ops(ev.take(i as int))->Ok_0,
        decreases es@.len() - i,
    {
        assert(ev.take(i + 1).drop_last() =~= ev.take(i as int));
        assert(ev.take(i + 1).last() == ev[i as int]);
        assert(ev[i as int] == (es@[i as int].0@, es@[i as int].1@)) by {
            lemma_view_entries(es@);
        }
        assert(decreases_to!(es => es[i as int]));
        assert(decreases_to!(es[i as int] => es[i as int].1));
        let entry = &es[i];
        let op = match key_op(&entry.0) {
            Ok(op) => op,
            Err(e) => {
                proof {
                    lemma_entries_err(ev, i + 1);
                }
                return Err(e);
            },
        };
        push_op(out, op);
        let ghost after_key = ops_view(out@);
        match write_value(&entry.1, out) {
            Ok(()) => {},
            Err(e) => {
                proof {
                    lemma_entries_err(ev, i + 1);
                }
                return Err(e);
            },
        }
        proof {
            assert(ops_view(out@) =~= base + spec_entries_ops(ev.take(i + 1))->Ok_0);
        }
        i = i + 1;
    }
    assert(ev.take(i as int) =~= ev);
    Ok(())
}

fn write_fields(fs: &Vec<(String, SerdeValue)>, out: &mut Vec<EncoderOp>) -> (r: Result<
    (),
    Error,
>)
    ensures
        r is Ok ==> spec_fields_ops(view_fields(fs@)) is Ok && ops_view(final(out)@) == ops_view(
            old(out)@,
        ) + spec_fields_ops(view_fields(fs@))->Ok_0,
        r matches Err(e) ==> spec_fields_ops(view_fields(fs@)) == Err::<Seq<OpV>, ErrorV>(e@),
    decreases fs, 0int,
{
    let ghost base = ops_view(out@);
    let ghost fv = view_fields(fs@);
    proof {
        lemma_view_fields(fs@);
    }
    let mut i: usize = 0;
    assert(fv.take(0) =~= Seq::<(Seq<char>, SerV)>::empty());
    while i < fs.len()
        invariant
            i <= fs@.len(),
            fv == view_fields(fs@),
            fv.len() == fs@.len(),
            spec_fields_ops(fv.take(i as int)) is Ok,
            ops_view(out@) == base + spec_fields_ops(fv.take(i as int))->Ok_0,
        decreases fs@.len() - i,
    {
        assert(fv.take(i + 1).drop_last() =~= fv.take(i as int));
        assert(fv.take(i + 1).last() == fv[i as int]);
        assert(fv[i as int] == (fs@[i as int].0@, fs@[i as int].1@)) by {
            lemma_view_fields(fs@);
        }
        assert(decreases_to!(fs => fs[i as int]));
        assert(decreases_to!(fs[i as int] => fs[i as int].1));
        let field = &fs[i];
        push_op(out, EncoderOp::WriteKey(str_utf8(field.0.as_str())));
        match write_value(&field.1, out) {
            Ok(()) => {},
            Err(e) => {
                proof {
                    lemma_fields_err(fv, i + 1);
                }
                return Err(e);
            },
        }
        proof {
            assert(ops_view(out@) =~= base + spec_fields_ops(fv.take(i + 1))->Ok_0);
        }
        i = i + 1;
    }
    assert(fv.take(i as int) =~= fv);
    Ok(())
}

/// The encoder calls that write `v` (`Serialize` into a Fleece encoder), or the first
/// error met on the way.
pub fn serialize(v: &SerdeValue) -> (r: Result<Vec<EncoderOp>, Error>)
    ensures
        r matches Ok(ops) ==> spec_ops(v@) == Ok::<Seq<OpV>, ErrorV>(ops_view(ops@)),
        r matches Err(e) ==> spec_ops(v@) == Err::<Seq<OpV>, ErrorV>(e@),
        r matches Ok(ops) ==> crate::fleece_nesting::well_nested(ops_view(ops@)),
{
    proof {
        crate::fleece_nesting::lemma_ops_well_nested(v@);
    }
    let mut out: Vec<EncoderOp> = Vec::new();
    assert(ops_view(out@) =~= Seq::<OpV>::empty());
    match write_value(v, &mut out) {
        Ok(()) => {
            assert(ops_view(out@) =~= spec_ops(v@)->Ok_0);
            Ok(out)
        },
        Err(e) => Err(e),
    }
}

} // verus!
