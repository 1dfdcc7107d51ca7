//! Fleece dictionaries: one built by the caller, and a read-only view of one.
use vstd::prelude::*;
use vstd::utf8::{valid_utf8, decode_utf8};
use vstd::string::StringSliceAdditionalSpecFns;
use crate::fleece::{FlValue, FlNumber, dict_get, spec_key_index, lemma_key_index};
use crate::fleece_error::Error;
use crate::fl_slice::{utf8_str, FLSlice, lemma_str_bytes_decode};

verus! {

/// A dictionary that the caller fills.
pub struct MutableDict {
    pub entries: Vec<(Vec<u8>, FlValue)>,
}

/// A read-only view of a dictionary.
pub struct Dict<'a> {
    pub inner: &'a Vec<(Vec<u8>, FlValue)>,
}

/// The number that an `i64` is stored as.
pub open spec fn int_number(v: i64) -> FlNumber {
    FlNumber {
        is_integer: true,
        is_unsigned: false,
        is_double: false,
        as_int: v,
        as_unsigned: v as u64,
        float_bits: 0,
        double_bits: 0,
    }
}

/// How the entries of a dictionary relate after one key was set to a value: an entry
/// with that key takes the new value in place; otherwise the entry is added at the end.
pub open spec fn set_in(
    before: Seq<(Vec<u8>, FlValue)>,
    after: Seq<(Vec<u8>, FlValue)>,
    key: Seq<u8>,
    holds: spec_fn(FlValue) -> bool,
) -> bool {
    let k = spec_key_index(before, key);
    if k >= 0 {
        &&& after.len() == before.len()
        &&& after[k].0@ == key
        &&& holds(after[k].1)
        &&& forall|j: int| 0 <= j < before.len() && j != k ==> after[j] == before[j]
    } else {
        &&& after.len() == before.len() + 1
        &&& after.last().0@ == key
        &&& holds(after.last().1)
        &&& forall|j: int| 0 <= j < before.len() ==> after[j] == before[j]
    }
}

fn key_position(entries: &Vec<(Vec<u8>, FlValue)>, key: &[u8]) -> (r: Option<usize>)
    ensures
        spec_key_index(entries@, key@) < 0 ==> r is None,
        spec_key_index(entries@, key@) >= 0 ==> r == Some(spec_key_index(entries@, key@) as usize),
{
    proof {
        lemma_key_index(entries@, key@);
    }
    let mut i: usize = 0;
    while i < entries.len()
        invariant
            i <= entries@.len(),
            forall|j: int| 0 <= j < i ==> entries@[j].0@ != key@,
            -1 <= spec_key_index(entries@, key@) < entries@.len(),
            spec_key_index(entries@, key@) >= 0 ==> entries@[spec_key_index(entries@, key@)].0@
                == key@,
            forall|j: int|
                0 <= j < entries@.len() && (spec_key_index(entries@, key@) < 0 || j
                    < spec_key_index(entries@, key@)) ==> entries@[j].0@ != key@,
        decreases entries@.len() - i,
    {
        if crate::fl_slice::bytes_eq(entries[i].0.as_slice(), key) {
            return Some(i);
        }
        i = i + 1;
    }
    None
}

impl MutableDict {
    /// An empty dictionary.
    pub fn new() -> (r: Result<MutableDict, Error>)
        ensures
            r matches Ok(d) && d.entries@.len() == 0,
    {
        Ok(MutableDict { entries: Vec::new() })
    }

    fn set_value(&mut self, key: &str, value: FlValue)
        ensures
            set_in(old(self).entries@, final(self).entries@, key.spec_bytes(), |v: FlValue| v == value),
    {
        let kb = vstd::slice::slice_to_vec(key.as_bytes());
        proof {
            lemma_key_index(self.entries@, key.spec_bytes());
        }
        match key_position(&self.entries, key.as_bytes()) {
            Some(k) => {
                self.entries.set(k, (kb, value));
            },
            None => {
                self.entries.push((kb, value));
            },
        }
    }

    /// Sets `key` to the string `value`.
    pub fn set_string(&mut self, key: &str, value: &str)
        ensures
            set_in(
                old(self).entries@,
                final(self).entries@,
                key.spec_bytes(),
                |v: FlValue| v matches FlValue::String(b) && b@ == value.spec_bytes(),
            ),
    {
        let vb = vstd::slice::slice_to_vec(value.as_bytes());
        self.set_value(key, FlValue::String(vb));
    }

    /// Sets `key` to the integer `value`.
    pub fn set_i64(&mut self, key: &str, value: i64)
        ensures
            set_in(
                old(self).entries@,
                final(self).entries@,
                key.spec_bytes(),
                |v: FlValue| v == FlValue::Number(int_number(value)),
            ),
    {
        let n = FlNumber {
            is_integer: true,
            is_unsigned: false,
            is_double: false,
            as_int: value,
            as_unsigned: value as u64,
            float_bits: 0,
            double_bits: 0,
        };
        self.set_value(key, FlValue::Number(n));
    }

    /// A read-only view of the dictionary.
    pub fn as_dict(&self) -> (r: Dict<'_>)
        ensures
            r.inner == &self.entries,
    {
        Dict { inner: &self.entries }
    }

    /// The dictionary read as a data value: a dictionary is no data
    /// value, so the slice is empty.
    pub fn as_fleece_slice(&self) -> (r: FLSlice<'_>)
        ensures
            r.bytes@.len() == 0,
    {
        crate::fl_slice::fl_slice_empty()
    }
}

/// The text stored under `key`: `None` when the key is missing, its value is not a
/// string, or the string is not valid UTF-8.
pub open spec fn spec_get_text(entries: Seq<(Vec<u8>, FlValue)>, key: Seq<u8>) -> Option<Seq<char>> {
    let k = spec_key_index(entries, key);
    if k >= 0 {
        match entries[k].1 {
            FlValue::String(b) => if valid_utf8(b@) {
                Some(decode_utf8(b@))
            } else {
                None
            },
            _ => None,
        }
    } else {
        None
    }
}

/// Setting a key finds it: after the key is set, looking it up gives the entry that was
/// set, whether the key was there before or not.
pub proof fn lemma_set_then_find(
    before: Seq<(Vec<u8>, FlValue)>,
    after: Seq<(Vec<u8>, FlValue)>,
    key: Seq<u8>,
    holds: spec_fn(FlValue) -> bool,
)
    requires
        set_in(before, after, key, holds),
    ensures
        spec_key_index(after, key) >= 0,
        holds(after[spec_key_index(after, key)].1),
{
    lemma_key_index(before, key);
    lemma_key_index(after, key);
    let k = spec_key_index(before, key);
    let n = spec_key_index(after, key);
    if k >= 0 {
        assert(after[k].0@ == key);
        if n < 0 || n > k {
            assert(after[k].0@ != key);
        }
        if n >= 0 && n < k {
            assert(after[n] == before[n]);
            assert(before[n].0@ != key);
        }
    } else {
        let last = after.len() - 1;
        assert(after[last].0@ == key);
        if n < 0 {
            assert(after[last].0@ != key);
        }
        if n >= 0 && n < last {
            assert(after[n] == before[n]);
            assert(before[n].0@ != key);
        }
    }
}

/// What a read gives back of a write: after `set_string(key, value)`, the text under `key`
/// is `value`.
pub proof fn lemma_set_string_then_get(
    before: Seq<(Vec<u8>, FlValue)>,
    after: Seq<(Vec<u8>, FlValue)>,
    key: Seq<u8>,
    value: Seq<char>,
)
    requires
        set_in(before, after, key, |v: FlValue| v matches FlValue::String(b) && b@ == vstd::utf8::encode_utf8(value)),
    ensures
        spec_get_text(after, key) == Some(value),
{
    lemma_set_then_find(before, after, key, |v: FlValue| v matches FlValue::String(b) && b@ == vstd::utf8::encode_utf8(value));
    vstd::utf8::encode_utf8_valid_utf8(value);
    vstd::utf8::encode_utf8_decode_utf8(value);
}

impl<'a> Dict<'a> {
    /// A view of `dict`, `None` for a missing dictionary.
    pub fn new(dict: Option<&'a Vec<(Vec<u8>, FlValue)>>) -> (r: Option<Dict<'a>>)
        ensures
            dict is None ==> r is None,
            dict matches Some(d) ==> r matches Some(x) && x.inner == d,
    {
        match dict {
            Some(inner) => Some(Dict { inner }),
            None => None,
        }
    }

    /// The text stored under `prop_name`: `None` when the key is missing, its value is
    /// not a string, or the string is not valid UTF-8.
    pub fn get_as_str(&self, prop_name: &str) -> (r: Option<&'a str>)
        ensures
            r is None <==> spec_get_text(self.inner@, prop_name.spec_bytes()) is None,
            r matches Some(s) ==> spec_get_text(self.inner@, prop_name.spec_bytes()) == Some(s@),
    {
        match dict_get(self.inner, prop_name.as_bytes()) {
            Some(FlValue::String(b)) => {
                let r = utf8_str(b.as_slice());
                proof {
                    if let Some(s) = r {
                        lemma_str_bytes_decode(s);
                    }
                }
                r
            },
            _ => None,
        }
    }
}

} // verus!
