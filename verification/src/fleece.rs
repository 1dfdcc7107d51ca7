use vstd::prelude::*;

verus! {

broadcast use vstd::std_specs::vec::group_vec_axioms;

/// The numeric reads that the decoder makes of a Fleece number.
#[derive(Clone, Copy, Debug, PartialEq)]
pub struct FlNumber {
    pub is_integer: bool,
    pub is_unsigned: bool,
    pub is_double: bool,
    pub as_int: i64,
    pub as_unsigned: u64,
    pub float_bits: u32,
    pub double_bits: u64,
}

/// A Fleece value: what the engine's reads of a value give, by kind.
#[derive(Debug, PartialEq)]
pub enum FlValue {
    Undefined,
    Null,
    Bool(bool),
    Number(FlNumber),
    String(Vec<u8>),
    Data(Vec<u8>),
    Array(Vec<FlValue>),
    Dict(Vec<(Vec<u8>, FlValue)>),
}

/// What a Fleece value holds, as mathematical values.
pub enum FlV {
    Undefined,
    Null,
    Bool(bool),
    Number(FlNumber),
    Str(Seq<u8>),
    Data(Seq<u8>),
    Array(Seq<FlV>),
    Dict(Seq<(Seq<u8>, FlV)>),
}

impl View for FlValue {
    type V = FlV;

    open spec fn view(&self) -> FlV
        decreases self,
    {
        match self {
            FlValue::Undefined => FlV::Undefined,
            FlValue::Null => FlV::Null,
            FlValue::Bool(b) => FlV::Bool(*b),
            FlValue::Number(n) => FlV::Number(*n),
            FlValue::String(s) => FlV::Str(s@),
            FlValue::Data(d) => FlV::Data(d@),
            FlValue::Array(a) => FlV::Array(
                Seq::new(
                    a@.len(),
                    |i: int|
                        if 0 <= i < a@.len() {
                            proof {
                                assert(decreases_to!(self => a));
                                assert(decreases_to!(a => a[i]));
                            }
                            a@[i]@
                        } else {
                            FlV::Undefined
                        },
                ),
            ),
            FlValue::Dict(d) => FlV::Dict(
                Seq::new(
                    d@.len(),
                    |i: int|
                        if 0 <= i < d@.len() {
                            proof {
                                assert(decreases_to!(self => d));
                                assert(decreases_to!(d => d[i]));
                                assert(decreases_to!(d[i] => d[i].1));
                            }
                            (d@[i].0@, d@[i].1@)
                        } else {
                            (Seq::empty(), FlV::Undefined)
                        },
                ),
            ),
        }
    }
}

} // verus!

verus! {

/// The kind of a Fleece value.
#[derive(Clone, Copy, PartialEq, Eq, Structural, Debug)]
pub enum FlValueType {
    Undefined,
    Null,
    Boolean,
    Number,
    String,
    Data,
    Array,
    Dict,
}

/// The kind of a value.
pub open spec fn spec_value_type(v: FlValue) -> FlValueType {
    match v {
        FlValue::Undefined => FlValueType::Undefined,
        FlValue::Null => FlValueType::Null,
        FlValue::Bool(_) => FlValueType::Boolean,
        FlValue::Number(_) => FlValueType::Number,
        FlValue::String(_) => FlValueType::String,
        FlValue::Data(_) => FlValueType::Data,
        FlValue::Array(_) => FlValueType::Array,
        FlValue::Dict(_) => FlValueType::Dict,
    }
}

/// The name under which a value kind is printed (its `Debug` text).
pub open spec fn spec_type_name(t: FlValueType) -> Seq<char> {
    match t {
        FlValueType::Undefined => "kFLUndefined"@,
        FlValueType::Null => "kFLNull"@,
        FlValueType::Boolean => "kFLBoolean"@,
        FlValueType::Number => "kFLNumber"@,
        FlValueType::String => "kFLString"@,
        FlValueType::Data => "kFLData"@,
        FlValueType::Array => "kFLArray"@,
        FlValueType::Dict => "kFLDict"@,
    }
}

/// The name under which a value kind is printed.
pub fn value_type_name(t: FlValueType) -> (r: &'static str)
    ensures
        r@ == spec_type_name(t),
{
    match t {
        FlValueType::Undefined => "kFLUndefined",
        FlValueType::Null => "kFLNull",
        FlValueType::Boolean => "kFLBoolean",
        FlValueType::Number => "kFLNumber",
        FlValueType::String => "kFLString",
        FlValueType::Data => "kFLData",
        FlValueType::Array => "kFLArray",
        FlValueType::Dict => "kFLDict",
    }
}

/// The index of the first entry whose key is `key`, or -1 when there is none.
pub open spec fn spec_key_index(entries: Seq<(Vec<u8>, FlValue)>, key: Seq<u8>) -> int
    decreases entries.len(),
{
    if entries.len() == 0 {
        -1
    } else if entries.last().0@ == key {
        let i = spec_key_index(entries.drop_last(), key);
        if i >= 0 { i } else { entries.len() - 1 }
    } else {
        spec_key_index(entries.drop_last(), key)
    }
}

/// The position found for a key is in range, holds the key, and no earlier entry does.
pub proof fn lemma_key_index(entries: Seq<(Vec<u8>, FlValue)>, key: Seq<u8>)
    ensures
        -1 <= spec_key_index(entries, key) < entries.len(),
        spec_key_index(entries, key) >= 0 ==> entries[spec_key_index(entries, key)].0@ == key,
        forall|j: int|
            0 <= j < entries.len() && (spec_key_index(entries, key) < 0 || j < spec_key_index(
                entries,
                key,
            )) ==> entries[j].0@ != key,
    decreases entries.len(),
{
    if entries.len() > 0 {
        let init = entries.drop_last();
        lemma_key_index(init, key);
        assert forall|j: int|
            0 <= j < entries.len() && (spec_key_index(entries, key) < 0 || j < spec_key_index(
                entries,
                key,
            )) implies entries[j].0@ != key by {
            if j < entries.len() - 1 {
                assert(init[j] == entries[j]);
            }
        }
    }
}

impl FlValue {
    /// The kind of this value.
    pub fn value_type(&self) -> (r: FlValueType)
        ensures
            r == spec_value_type(*self),
    {
        match self {
            FlValue::Undefined => FlValueType::Undefined,
            FlValue::Null => FlValueType::Null,
            FlValue::Bool(_) => FlValueType::Boolean,
            FlValue::Number(_) => FlValueType::Number,
            FlValue::String(_) => FlValueType::String,
            FlValue::Data(_) => FlValueType::Data,
            FlValue::Array(_) => FlValueType::Array,
            FlValue::Dict(_) => FlValueType::Dict,
        }
    }
}

/// Looks `key` up in the entries of a dictionary: the value of the first
/// entry with that key, or `None`.
pub fn dict_get<'a>(entries: &'a Vec<(Vec<u8>, FlValue)>, key: &[u8]) -> (r: Option<&'a FlValue>)
    ensures
        spec_key_index(entries@, key@) < 0 ==> r is None,
        spec_key_index(entries@, key@) >= 0 ==> r == Some(&entries@[spec_key_index(entries@, key@)].1),
{
    let mut i: usize = 0;
    proof {
        lemma_key_index(entries@, key@);
    }
    while i < entries.len()
        invariant
            i <= entries@.len(),
            forall|j: int| 0 <= j < i ==> entries@[j].0@ != key@,
            -1 <= spec_key_index(entries@, key@) < entries@.len(),
            spec_key_index(entries@, key@) >= 0 ==> entries@[spec_key_index(entries@, key@)].0@
                == key@,
            forall|j: int|
                0 <= j < entries@.len() && (spec_key_index(entries@, key@) < 0 || j
                    < spec_key_index(entries@, key@)) ==> entries@[j].0@ != key@,
        decreases entries@.len() - i,
    {
        if crate::fl_slice::bytes_eq(entries[i].0.as_slice(), key) {
            return Some(&entries[i].1);
        }
        i = i + 1;
    }
    None
}

} // verus!
