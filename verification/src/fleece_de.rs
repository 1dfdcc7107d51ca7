//! Reading typed data out of a Fleece value: the decisions of the deserializer.
//!
//! Each method reads the value the way the matching request of the serde data model
//! does, and hands back plain values; visiting them is left to the caller.
use vstd::prelude::*;
use vstd::utf8::*;
use vstd::string::StringSliceAdditionalSpecFns;
use crate::fleece::{
    FlValue, dict_get, spec_key_index, spec_type_name, spec_value_type, value_type_name,
};
use crate::fleece_error::{Error, ErrorV};
use crate::fl_slice::utf8_str;
use crate::text::{
    ascii_text, decimal_int, decimal_text_u64, int_error_message, parse_bool, parse_char,
    parse_i16, parse_i32, parse_i64, parse_i8, parse_u16, parse_u32, parse_u64, parse_u8,
    spec_int_error_message, spec_parse_bool, spec_parse_int, CharErrorKind, IntErrorKind,
};

verus! {

/// Reads Fleece values.
pub struct Deserializer<'de> {
    pub value: &'de FlValue,
}

/// What a value read as an enum starts with.
pub enum EnumStart<'de> {
    /// A string: the name of a unit variant.
    Unit(&'de str),
    /// A dictionary that holds one variant and its content.
    Variant(EnumAccess<'de>),
}

/// Walks the elements of an array.
pub struct ArrayAccess<'a> {
    pub arr: &'a Vec<FlValue>,
    pub n: usize,
    pub i: usize,
}

/// Walks the fields of a struct, looked up by name in a dictionary.
pub struct StructAccess<'a> {
    pub dict: &'a Vec<(Vec<u8>, FlValue)>,
    pub fields: &'static [&'static str],
    pub i: usize,
}

/// Reads the single entry of an enum dictionary.
pub struct EnumAccess<'a> {
    pub dict: &'a Vec<(Vec<u8>, FlValue)>,
}

/// Walks the entries of a dictionary in iteration order.
pub struct DictAccess<'a> {
    pub entries: &'a Vec<(Vec<u8>, FlValue)>,
    pub n: usize,
    pub pos: usize,
}

/// A message error.
pub open spec fn invalid(msg: Seq<char>) -> ErrorV {
    ErrorV::InvalidFormat(msg)
}

/// What reading `v` as a signed integer in `lo..=hi` gives.
pub open spec fn spec_signed(v: FlValue, lo: int, hi: int) -> Result<int, ErrorV> {
    if let FlValue::Number(n) = v {
        if n.is_integer {
            if lo <= n.as_int <= hi {
                Ok(n.as_int as int)
            } else {
                Err(invalid("Can not shrink i64 to smaller integer"@))
            }
        } else {
            Err(invalid("data type is not integer"@))
        }
    } else {
        Err(invalid("data type is not integer"@))
    }
}

/// What reading `v` as an unsigned integer up to `hi` gives.
pub open spec fn spec_unsigned(v: FlValue, hi: int) -> Result<int, ErrorV> {
    if let FlValue::Number(n) = v {
        if n.is_integer {
            if n.as_unsigned <= hi {
                Ok(n.as_unsigned as int)
            } else {
                Err(invalid("Can not shrink u64 to smaller unsigned integer"@))
            }
        } else {
            Err(invalid("data type is not integer"@))
        }
    } else {
        Err(invalid("data type is not integer"@))
    }
}

/// What reading `v` as a `bool` gives.
pub open spec fn spec_bool(v: FlValue) -> Result<bool, ErrorV> {
    if let FlValue::Bool(b) = v {
        Ok(b)
    } else {
        Err(invalid("data type is not boolean"@))
    }
}

/// What reading `v` as text gives.
pub open spec fn spec_str(v: FlValue) -> Result<Seq<char>, ErrorV> {
    if let FlValue::String(b) = v {
        if valid_utf8(b@) {
            Ok(decode_utf8(b@))
        } else {
            Err(invalid("not valid utf-8"@))
        }
    } else {
        Err(invalid("data type is not boolean"@))
    }
}

/// What reading `v` as a `char` gives.
pub open spec fn spec_char(v: FlValue) -> Result<char, ErrorV> {
    match spec_str(v) {
        Ok(s) => if s.len() == 1 {
            Ok(s[0])
        } else {
            Err(invalid("string("@ + s + ") should contain exactly one char"@))
        },
        Err(e) => Err(e),
    }
}

/// Text concatenation, for messages.
fn concat3(a: &str, b: &str, c: &str) -> (r: String)
    ensures
        r@ == a@ + b@ + c@,
{
    let mut s = String::from_str(a);
    s.append(b);
    s.append(c);
    s
}

impl<'de> Deserializer<'de> {
    /// A deserializer of `value`.
    pub fn new(value: &'de FlValue) -> (r: Deserializer<'de>)
        ensures
            r.value == value,
    {
        Deserializer { value }
    }

    /// A reader of the value that some Fleece data holds;
    /// `value` is `None` when the data does not pass validation.
    pub fn from_slice(value: Option<&'de FlValue>) -> (r: Result<Deserializer<'de>, Error>)
        ensures
            value matches Some(v) ==> (r matches Ok(d) && d.value == v),
            value is None ==> (r matches Err(e) && e@ == invalid("untrusted data validation failed"@)),
    {
        match value {
            Some(v) => Ok(Deserializer { value: v }),
            None => Err(Error::InvalidFormat(String::from_str("untrusted data validation failed"))),
        }
    }

    /// Self-describing reads are refused.
    pub fn deserialize_any(&self) -> (r: Result<(), Error>)
        ensures
            r is Err,
            r matches Err(e) ==> e@ == ErrorV::Unsupported(
                "deserialize self described format not supported for now"@,
            ),
    {
        Err(Error::Unsupported("deserialize self described format not supported for now"))
    }

    /// Values that the caller would skip are refused too.
    pub fn deserialize_ignored_any(&self) -> (r: Result<(), Error>)
        ensures
            r is Err,
            r matches Err(e) ==> e@ == ErrorV::Unsupported(
                "deserialize self described format not supported for now"@,
            ),
    {
        Err(Error::Unsupported("deserialize self described format not supported for now"))
    }

    /// Raw bytes are not read.
    pub fn deserialize_bytes(&self) -> (r: Result<(), Error>)
        ensures
            r is Err,
            r matches Err(e) ==> e@ == ErrorV::Unsupported(
                "deserialization of bytes not supported"@,
            ),
    {
        Err(Error::Unsupported("deserialization of bytes not supported"))
    }

    /// Raw byte buffers are not read.
    pub fn deserialize_byte_buf(&self) -> (r: Result<(), Error>)
        ensures
            r is Err,
            r matches Err(e) ==> e@ == ErrorV::Unsupported(
                "deserialization of byte buf not supported"@,
            ),
    {
        Err(Error::Unsupported("deserialization of byte buf not supported"))
    }

    /// Reads a boolean.
    pub fn deserialize_bool(&self) -> (r: Result<bool, Error>)
        ensures
            r matches Ok(b) ==> spec_bool(*self.value) == Ok::<bool, ErrorV>(b),
            r matches Err(e) ==> spec_bool(*self.value) == Err::<bool, ErrorV>(e@),
    {
        match self.value {
            FlValue::Bool(b) => Ok(*b),
            _ => Err(Error::InvalidFormat(String::from_str("data type is not boolean"))),
        }
    }

    fn parse_signed(&self, lo: i64, hi: i64) -> (r: Result<i64, Error>)
        ensures
            r matches Ok(x) ==> lo <= x <= hi && spec_signed(*self.value, lo as int, hi as int)
                == Ok::<int, ErrorV>(x as int),
            r matches Err(e) ==> spec_signed(*self.value, lo as int, hi as int) == Err::<
                int,
                ErrorV,
            >(e@),
    {
        match self.value {
            FlValue::Number(n) => {
                if n.is_integer {
                    if lo <= n.as_int && n.as_int <= hi {
                        Ok(n.as_int)
                    } else {
                        Err(
                            Error::InvalidFormat(
                                String::from_str("Can not shrink i64 to smaller integer"),
                            ),
                        )
                    }
                } else {
                    Err(Error::InvalidFormat(String::from_str("data type is not integer")))
                }
            },
            _ => Err(Error::InvalidFormat(String::from_str("data type is not integer"))),
        }
    }

    fn parse_unsigned(&self, hi: u64) -> (r: Result<u64, Error>)
        ensures
            r matches Ok(x) ==> x <= hi && spec_unsigned(*self.value, hi as int) == Ok::<
                int,
                ErrorV,
            >(x as int),
            r matches Err(e) ==> spec_unsigned(*self.value, hi as int) == Err::<int, ErrorV>(e@),
    {
        match self.value {
            FlValue::Number(n) => {
                if n.is_integer {
                    if n.as_unsigned <= hi {
                        Ok(n.as_unsigned)
                    } else {
                        Err(
                            Error::InvalidFormat(
                                String::from_str("Can not shrink u64 to smaller unsigned integer"),
                            ),
                        )
                    }
                } else {
                    Err(Error::InvalidFormat(String::from_str("data type is not integer")))
                }
            },
            _ => Err(Error::InvalidFormat(String::from_str("data type is not integer"))),
        }
    }

    /// Reads an `i8`.
    pub fn deserialize_i8(&self) -> (r: Result<i8, Error>)
        ensures
            r matches Ok(x) ==> spec_signed(*self.value, -128, 127) == Ok::<int, ErrorV>(x as int),
            r matches Err(e) ==> spec_signed(*self.value, -128, 127) == Err::<int, ErrorV>(e@),
    {
        match self.parse_signed(-128, 127) {
            Ok(x) => Ok(x as i8),
            Err(e) => Err(e),
        }
    }

    /// Reads an `i16`.
    pub fn deserialize_i16(&self) -> (r: Result<i16, Error>)
        ensures
            r matches Ok(x) ==> spec_signed(*self.value, -32768, 32767) == Ok::<int, ErrorV>(
                x as int,
            ),
            r matches Err(e) ==> spec_signed(*self.value, -32768, 32767) == Err::<int, ErrorV>(e@),
    {
        match self.parse_signed(-32768, 32767) {
            Ok(x) => Ok(x as i16),
            Err(e) => Err(e),
        }
    }

    /// Reads an `i32`.
    pub fn deserialize_i32(&self) -> (r: Result<i32, Error>)
        ensures
            r matches Ok(x) ==> spec_signed(*self.value, i32::MIN as int, i32::MAX as int) == Ok::<
                int,
                ErrorV,
            >(x as int),
            r matches Err(e) ==> spec_signed(*self.value, i32::MIN as int, i32::MAX as int)
                == Err::<int, ErrorV>(e@),
    {
        match self.parse_signed(i32::MIN as i64, i32::MAX as i64) {
            Ok(x) => Ok(x as i32),
            Err(e) => Err(e),
        }
    }

    /// Reads an `i64`.
    pub fn deserialize_i64(&self) -> (r: Result<i64, Error>)
        ensures
            r matches Ok(x) ==> spec_signed(*self.value, i64::MIN as int, i64::MAX as int) == Ok::<
                int,
                ErrorV,
            >(x as int),
            r matches Err(e) ==> spec_signed(*self.value, i64::MIN as int, i64::MAX as int)
                == Err::<int, ErrorV>(e@),
    {
        self.parse_signed(i64::MIN, i64::MAX)
    }

    /// Reads a `u8`.
    pub fn deserialize_u8(&self) -> (r: Result<u8, Error>)
        ensures
            r matches Ok(x) ==> spec_unsigned(*self.value, 255) == Ok::<int, ErrorV>(x as int),
            r matches Err(e) ==> spec_unsigned(*self.value, 255) == Err::<int, ErrorV>(e@),
    {
        match self.parse_unsigned(255) {
            Ok(x) => Ok(x as u8),
            Err(e) => Err(e),
        }
    }

    /// Reads a `u16`.
    pub fn deserialize_u16(&self) -> (r: Result<u16, Error>)
        ensures
            r matches Ok(x) ==> spec_unsigned(*self.value, 65535) == Ok::<int, ErrorV>(x as int),
            r matches Err(e) ==> spec_unsigned(*self.value, 65535) == Err::<int, ErrorV>(e@),
    {
        match self.parse_unsigned(65535) {
            Ok(x) => Ok(x as u16),
            Err(e) => Err(e),
        }
    }

    /// Reads a `u32`.
    pub fn deserialize_u32(&self) -> (r: Result<u32, Error>)
        ensures
            r matches Ok(x) ==> spec_unsigned(*self.value, u32::MAX as int) == Ok::<int, ErrorV>(
                x as int,
            ),
            r matches Err(e) ==> spec_unsigned(*self.value, u32::MAX as int) == Err::<int, ErrorV>(
                e@,
            ),
    {
        match self.parse_unsigned(u32::MAX as u64) {
            Ok(x) => Ok(x as u32),
            Err(e) => Err(e),
        }
    }

    /// Reads a `u64`.
    pub fn deserialize_u64(&self) -> (r: Result<u64, Error>)
        ensures
            r matches Ok(x) ==> spec_unsigned(*self.value, u64::MAX as int) == Ok::<int, ErrorV>(
                x as int,
            ),
            r matches Err(e) ==> spec_unsigned(*self.value, u64::MAX as int) == Err::<int, ErrorV>(
                e@,
            ),
    {
        self.parse_unsigned(u64::MAX)
    }

    /// Reads the bit pattern of an `f32` out of a number.
    pub fn deserialize_f32(&self) -> (r: Result<u32, Error>)
        ensures
            self.value is Number ==> r == Ok::<u32, Error>(self.value->Number_0.float_bits),
            !(self.value is Number) ==> (r matches Err(e) && e@ == invalid(
                "data type is not number"@,
            )),
    {
        match self.value {
            FlValue::Number(n) => Ok(n.float_bits),
            _ => Err(Error::InvalidFormat(String::from_str("data type is not number"))),
        }
    }

    /// Reads the bit pattern of an `f64` out of a number.
    pub fn deserialize_f64(&self) -> (r: Result<u64, Error>)
        ensures
            self.value is Number ==> r == Ok::<u64, Error>(self.value->Number_0.double_bits),
            !(self.value is Number) ==> (r matches Err(e) && e@ == invalid("data type is not f64"@)),
    {
        match self.value {
            FlValue::Number(n) => Ok(n.double_bits),
            _ => Err(Error::InvalidFormat(String::from_str("data type is not f64"))),
        }
    }

    /// Reads text, borrowed from the value.
    pub fn parse_str(&self) -> (r: Result<&'de str, Error>)
        ensures
            r matches Ok(s) ==> spec_str(*self.value) == Ok::<Seq<char>, ErrorV>(s@),
            r matches Err(e) ==> spec_str(*self.value) == Err::<Seq<char>, ErrorV>(e@),
    {
        match self.value {
            FlValue::String(b) => {
                match utf8_str(b.as_slice()) {
                    Some(s) => {
                        proof {
                            crate::fl_slice::lemma_str_bytes_decode(s);
                        }
                        Ok(s)
                    },
                    None => Err(Error::invalid_utf8()),
                }
            },
            _ => Err(Error::InvalidFormat(String::from_str("data type is not boolean"))),
        }
    }

    /// Reads text.
    pub fn deserialize_str(&self) -> (r: Result<&'de str, Error>)
        ensures
            r matches Ok(s) ==> spec_str(*self.value) == Ok::<Seq<char>, ErrorV>(s@),
            r matches Err(e) ==> spec_str(*self.value) == Err::<Seq<char>, ErrorV>(e@),
    {
        self.parse_str()
    }

    /// Reads a `char`: text that holds exactly one character.
    pub fn deserialize_char(&self) -> (r: Result<char, Error>)
        ensures
            r matches Ok(c) ==> spec_char(*self.value) == Ok::<char, ErrorV>(c),
            r matches Err(e) ==> spec_char(*self.value) == Err::<char, ErrorV>(e@),
    {
        let s = self.parse_str()?;
        if s.unicode_len() == 1 {
            Ok(s.get_char(0))
        } else {
            Err(Error::InvalidFormat(concat3("string(", s, ") should contain exactly one char")))
        }
    }

    /// Whether an optional value is present: anything but null is.
    pub fn deserialize_option(&self) -> (r: bool)
        ensures
            r == !(self.value is Null),
    {
        match self.value {
            FlValue::Null => false,
            _ => true,
        }
    }

    /// Reads a unit: a null.
    pub fn deserialize_unit(&self) -> (r: Result<(), Error>)
        ensures
            self.value is Null ==> r is Ok,
            !(self.value is Null) ==> (r matches Err(e) && e@ == invalid(
                "Expect null in the place of unit"@,
            )),
    {
        match self.value {
            FlValue::Null => Ok(()),
            _ => Err(Error::InvalidFormat(String::from_str("Expect null in the place of unit"))),
        }
    }

    /// Starts reading a sequence, a tuple or a tuple struct: the value must be an array.
    pub fn deserialize_seq(&self) -> (r: Result<ArrayAccess<'de>, Error>)
        ensures
            self.value is Array ==> (r matches Ok(a) && a.arr == &self.value->Array_0 && a.n
                == self.value->Array_0@.len() && a.i == 0),
            !(self.value is Array) ==> (r matches Err(e) && e@ == invalid(
                "data type is not array"@,
            )),
    {
        match self.value {
            FlValue::Array(a) => Ok(ArrayAccess::new(a, a.len())),
            _ => Err(Error::InvalidFormat(String::from_str("data type is not array"))),
        }
    }

    /// Starts reading a map: the value must be a dictionary.
    pub fn deserialize_map(&self) -> (r: Result<DictAccess<'de>, Error>)
        ensures
            self.value is Dict ==> (r matches Ok(a) && a.entries == &self.value->Dict_0 && a.n
                == self.value->Dict_0@.len() && a.pos == 0),
            !(self.value is Dict) ==> (r matches Err(e) && e@ == invalid(
                "map has "@ + spec_type_name(spec_value_type(*self.value))
                    + " type, should be kFLDict"@,
            )),
    {
        match self.value {
            FlValue::Dict(d) => Ok(DictAccess::new(d, d.len())),
            _ => {
                let t = self.value.value_type();
                Err(
                    Error::InvalidFormat(
                        concat3("map has ", value_type_name(t), " type, should be kFLDict"),
                    ),
                )
            },
        }
    }

    /// Starts reading the struct `name` with `fields`: the value must be a dictionary with
    /// at least as many entries as there are fields.
    pub fn deserialize_struct(&self, name: &str, fields: &'static [&'static str]) -> (r: Result<
        StructAccess<'de>,
        Error,
    >)
        ensures
            !(self.value is Dict) ==> (r matches Err(e) && e@ == invalid(
                "struct "@ + name@ + " has not dict type"@,
            )),
            self.value is Dict && self.value->Dict_0@.len() < fields@.len() ==> (r matches Err(e)
                && e@ == invalid(
                "struct "@ + name@ + " has invalid number of fields, expect "@ + ascii_text(
                    decimal_int(fields@.len() as int),
                ) + ", got "@ + ascii_text(decimal_int(self.value->Dict_0@.len() as int)),
            )),
            self.value is Dict && self.value->Dict_0@.len() >= fields@.len() ==> (r matches Ok(a)
                && a.dict == &self.value->Dict_0 && a.fields == fields && a.i == 0),
    {
        match self.value {
            FlValue::Dict(d) => {
                if d.len() < fields.len() {
                    let mut msg = concat3("struct ", name, " has invalid number of fields, expect ");
                    let expect = decimal_text_u64(fields.len() as u64);
                    msg.append(expect.as_str());
                    msg.append(", got ");
                    let got = decimal_text_u64(d.len() as u64);
                    msg.append(got.as_str());
                    Err(Error::InvalidFormat(msg))
                } else {
                    Ok(StructAccess::new(d, fields))
                }
            },
            _ => Err(Error::InvalidFormat(concat3("struct ", name, " has not dict type"))),
        }
    }

    /// Starts reading the enum `name`: a string names a unit variant, a dictionary holds a
    /// variant with content.
    pub fn deserialize_enum(&self, name: &str) -> (r: Result<EnumStart<'de>, Error>)
        ensures
            self.value is String ==> (match r {
                Ok(EnumStart::Unit(s)) => spec_str(*self.value) == Ok::<Seq<char>, ErrorV>(s@),
                Ok(EnumStart::Variant(_)) => false,
                Err(e) => spec_str(*self.value) == Err::<Seq<char>, ErrorV>(e@),
            }),
            self.value is Dict ==> (r matches Ok(EnumStart::Variant(a)) && a.dict
                == &self.value->Dict_0),
            !(self.value is String) && !(self.value is Dict) ==> (r matches Err(e) && e@ == invalid(
                "Invalid type "@ + spec_type_name(spec_value_type(*self.value)) + " for enum "@
                    + name@,
            )),
    {
        match self.value {
            FlValue::String(_) => {
                let s = self.parse_str()?;
                Ok(EnumStart::Unit(s))
            },
            FlValue::Dict(d) => Ok(EnumStart::Variant(EnumAccess::new(d))),
            _ => {
                let t = self.value.value_type();
                let mut msg = concat3("Invalid type ", value_type_name(t), " for enum ");
                msg.append(name);
                Err(Error::InvalidFormat(msg))
            },
        }
    }
}

impl<'a> ArrayAccess<'a> {
    /// Walks the first `n` elements of `arr`.
    pub fn new(arr: &'a Vec<FlValue>, n: usize) -> (r: ArrayAccess<'a>)
        ensures
            r.arr == arr,
            r.n == n,
            r.i == 0,
    {
        ArrayAccess { arr, n, i: 0 }
    }

    /// The next element, or `None` once `n` elements were given.
    pub fn next_element(&mut self) -> (r: Result<Option<Deserializer<'a>>, Error>)
        ensures
            final(self).arr == old(self).arr,
            final(self).n == old(self).n,
            old(self).i >= old(self).n ==> (r matches Ok(None) && final(self).i == old(self).i),
            old(self).i < old(self).n && old(self).i < old(self).arr@.len() ==> (r matches Ok(
                Some(d),
            ) && d.value == &old(self).arr@[old(self).i as int] && final(self).i == old(self).i
                + 1),
            old(self).i < old(self).n && old(self).i >= old(self).arr@.len() ==> (r matches Err(e)
                && e@ == invalid("not expecting null value in array"@) && final(self).i == old(self).i),
    {
        if self.i < self.n {
            if self.i < self.arr.len() {
                let value = &self.arr[self.i];
                self.i = self.i + 1;
                Ok(Some(Deserializer::new(value)))
            } else {
                Err(
                    Error::InvalidFormat(String::from_str("not expecting null value in array")),
                )
            }
        } else {
            Ok(None)
        }
    }

    /// The number of elements.
    pub fn size_hint(&self) -> (r: Option<usize>)
        ensures
            r == Some(self.n),
    {
        Some(self.n)
    }
}

impl<'a> StructAccess<'a> {
    /// Walks `fields`, in their order, through `dict`.
    pub fn new(dict: &'a Vec<(Vec<u8>, FlValue)>, fields: &'static [&'static str]) -> (r:
        StructAccess<'a>)
        ensures
            r.dict == dict,
            r.fields == fields,
            r.i == 0,
    {
        StructAccess { dict, fields, i: 0 }
    }

    /// The value of the next field, looked up by its name; `None` after the last field.
    pub fn next_element(&mut self) -> (r: Result<Option<Deserializer<'a>>, Error>)
        ensures
            final(self).dict == old(self).dict,
            final(self).fields == old(self).fields,
            old(self).i >= old(self).fields@.len() ==> (r matches Ok(None) && final(self).i == old(self).i),
            old(self).i < old(self).fields@.len() ==> ({
                let key = old(self).fields@[old(self).i as int];
                let k = spec_key_index(old(self).dict@, key.spec_bytes());
                &&& k >= 0 ==> (r matches Ok(Some(d)) && d.value == &old(self).dict@[k].1 && final(self).i == old(self).i + 1)
                &&& k < 0 ==> (r matches Err(e) && e@ == invalid(
                    "missing field `"@ + key@ + "` in fleece dict"@,
                ) && final(self).i == old(self).i)
            }),
    {
        if self.i < self.fields.len() {
            let key: &str = self.fields[self.i];
            match dict_get(self.dict, key.as_bytes()) {
                Some(value) => {
                    self.i = self.i + 1;
                    Ok(Some(Deserializer::new(value)))
                },
                None => Err(
                    Error::InvalidFormat(concat3("missing field `", key, "` in fleece dict")),
                ),
            }
        } else {
            Ok(None)
        }
    }

    /// The number of fields.
    pub fn size_hint(&self) -> (r: Option<usize>)
        ensures
            r == Some(self.fields@.len() as usize),
    {
        Some(self.fields.len())
    }
}

impl<'a> EnumAccess<'a> {
    /// Reads the enum held by `dict`.
    pub fn new(dict: &'a Vec<(Vec<u8>, FlValue)>) -> (r: EnumAccess<'a>)
        ensures
            r.dict == dict,
    {
        EnumAccess { dict }
    }

    /// The variant's name and a reader of its content: the dictionary must hold exactly
    /// one entry, whose key is the name.
    pub fn variant(&self) -> (r: Result<(&'a str, Deserializer<'a>), Error>)
        ensures
            self.dict@.len() != 1 ==> (r matches Err(e) && e@ == invalid(
                "enum should be dict with len 1, got "@ + ascii_text(
                    decimal_int(self.dict@.len() as int),
                ),
            )),
            self.dict@.len() == 1 && valid_utf8(self.dict@[0].0@) ==> (r matches Ok((name, d))
                && name@ == decode_utf8(self.dict@[0].0@) && d.value == &self.dict@[0].1),
            self.dict@.len() == 1 && !valid_utf8(self.dict@[0].0@) ==> (r matches Err(e) && e@
                == invalid("not valid utf-8"@)),
    {
        let n = self.dict.len();
        if n != 1 {
            let mut msg = String::from_str("enum should be dict with len 1, got ");
            let got = decimal_text_u64(n as u64);
            msg.append(got.as_str());
            return Err(Error::InvalidFormat(msg));
        }
        let entry = &self.dict[0];
        match utf8_str(entry.0.as_slice()) {
            Some(name) => {
                proof {
                    crate::fl_slice::lemma_str_bytes_decode(name);
                }
                Ok((name, Deserializer::new(&entry.1)))
            },
            None => Err(Error::invalid_utf8()),
        }
    }
}

impl<'a> DictAccess<'a> {
    /// Walks the entries of a dictionary that holds `n` of them.
    pub fn new(entries: &'a Vec<(Vec<u8>, FlValue)>, n: usize) -> (r: DictAccess<'a>)
        ensures
            r.entries == entries,
            r.n == n,
            r.pos == 0,
    {
        DictAccess { entries, n, pos: 0 }
    }

    /// The key of the next entry, or `None` when all were read.
    pub fn next_key(&self) -> (r: Result<Option<&'a str>, Error>)
        ensures
            self.pos >= self.entries@.len() ==> r matches Ok(None),
            self.pos < self.entries@.len() && valid_utf8(self.entries@[self.pos as int].0@) ==> (r
                matches Ok(Some(k)) && k@ == decode_utf8(self.entries@[self.pos as int].0@)),
            self.pos < self.entries@.len() && !valid_utf8(self.entries@[self.pos as int].0@) ==> (r
                matches Err(e) && e@ == invalid("not valid utf-8"@)),
    {
        if self.pos < self.entries.len() {
            match utf8_str(self.entries[self.pos].0.as_slice()) {
                Some(k) => {
                    proof {
                        crate::fl_slice::lemma_str_bytes_decode(k);
                    }
                    Ok(Some(k))
                },
                None => Err(Error::invalid_utf8()),
            }
        } else {
            Ok(None)
        }
    }

    /// A reader of the value of the current entry; moves on to the next entry.
    pub fn next_value(&mut self) -> (r: Result<Deserializer<'a>, Error>)
        ensures
            final(self).entries == old(self).entries,
            final(self).n == old(self).n,
            old(self).pos < old(self).entries@.len() ==> (r matches Ok(d) && d.value == &old(self).entries@[old(self).pos as int].1 && final(self).pos == old(self).pos + 1),
            old(self).pos >= old(self).entries@.len() ==> (r matches Err(e) && e@ == invalid(
                "not expecting null value in dict"@,
            ) && final(self).pos == old(self).pos),
    {
        if self.pos < self.entries.len() {
            let value = &self.entries[self.pos].1;
            self.pos = self.pos + 1;
            Ok(Deserializer::new(value))
        } else {
            Err(Error::InvalidFormat(String::from_str("not expecting null value in dict")))
        }
    }

    /// The number of entries.
    pub fn size_hint(&self) -> (r: Option<usize>)
        ensures
            r == Some(self.n),
    {
        Some(self.n)
    }
}


/// Reads scalars out of the text of a dictionary key.
pub struct DictKeySerializer<'a>(pub &'a str);

/// The error of a key text that is not a number of the asked type.
pub open spec fn key_int_error(k: IntErrorKind) -> ErrorV {
    invalid("parsing of "@ + "integer"@ + " failed: "@ + spec_int_error_message(k))
}

/// The message of a failed `char` parse.
pub open spec fn spec_char_error_message(k: CharErrorKind) -> Seq<char> {
    match k {
        CharErrorKind::EmptyString => "cannot parse char from empty string"@,
        CharErrorKind::TooManyChars => "too many characters in string"@,
    }
}

fn int_key_error(k: IntErrorKind) -> (r: Error)
    ensures
        r@ == key_int_error(k),
{
    Error::parse_failed("integer", int_error_message(k))
}

impl<'a> DictKeySerializer<'a> {
    /// Self-describing reads of a key are refused.
    pub fn deserialize_any(&self) -> (r: Result<(), Error>)
        ensures
            r is Err,
            r matches Err(e) ==> e@ == ErrorV::Unsupported("DictKeySerializer can not work with any"@),
    {
        Err(Error::Unsupported("DictKeySerializer can not work with any"))
    }

    /// Reads a `bool` key: the text must be "true" or "false".
    pub fn deserialize_bool(&self) -> (r: Result<bool, Error>)
        ensures
            spec_parse_bool(self.0.spec_bytes()) matches Some(b) ==> r matches Ok(x) && x == b,
            spec_parse_bool(self.0.spec_bytes()) is None ==> (r matches Err(e) && e@ == invalid(
                "parsing of "@ + "bool"@ + " failed: "@ + "provided string was not `true` or `false`"@,
            )),
    {
        match parse_bool(self.0) {
            Some(b) => Ok(b),
            None => Err(Error::parse_failed("bool", "provided string was not `true` or `false`")),
        }
    }

    /// Reads a `char` key: the text must hold exactly one character.
    pub fn deserialize_char(&self) -> (r: Result<char, Error>)
        ensures
            self.0@.len() == 1 ==> r == Ok::<char, Error>(self.0@[0]),
            self.0@.len() == 0 ==> (r matches Err(e) && e@ == invalid(
                "parsing of "@ + "char"@ + " failed: "@ + spec_char_error_message(CharErrorKind::EmptyString),
            )),
            self.0@.len() > 1 ==> (r matches Err(e) && e@ == invalid(
                "parsing of "@ + "char"@ + " failed: "@ + spec_char_error_message(CharErrorKind::TooManyChars),
            )),
    {
        match parse_char(self.0) {
            Ok(c) => Ok(c),
            Err(CharErrorKind::EmptyString) => Err(Error::parse_failed("char", "cannot parse char from empty string")),
            Err(CharErrorKind::TooManyChars) => Err(Error::parse_failed("char", "too many characters in string")),
        }
    }

    /// Reads a text key: the key itself.
    pub fn deserialize_str(&self) -> (r: &'a str)
        ensures
            r == self.0,
    {
        self.0
    }

    /// Reads an `i8` key from its decimal text.
    pub fn deserialize_i8(&self) -> (r: Result<i8, Error>)
        ensures
            r matches Ok(x) ==> spec_parse_int(self.0.spec_bytes(), true, -128, 127) == Ok::<int, IntErrorKind>(x as int),
            r matches Err(e) ==> spec_parse_int(self.0.spec_bytes(), true, -128, 127) matches Err(k) && e@ == key_int_error(k),
    {
        match parse_i8(self.0) {
            Ok(x) => Ok(x),
            Err(k) => Err(int_key_error(k)),
        }
    }

    /// Reads an `i16` key from its decimal text.
    pub fn deserialize_i16(&self) -> (r: Result<i16, Error>)
        ensures
            r matches Ok(x) ==> spec_parse_int(self.0.spec_bytes(), true, -32768, 32767) == Ok::<int, IntErrorKind>(x as int),
            r matches Err(e) ==> spec_parse_int(self.0.spec_bytes(), true, -32768, 32767) matches Err(k) && e@ == key_int_error(k),
    {
        match parse_i16(self.0) {
            Ok(x) => Ok(x),
            Err(k) => Err(int_key_error(k)),
        }
    }

    /// Reads an `i32` key from its decimal text.
    pub fn deserialize_i32(&self) -> (r: Result<i32, Error>)
        ensures
            r matches Ok(x) ==> spec_parse_int(self.0.spec_bytes(), true, i32::MIN as int, i32::MAX as int) == Ok::<int, IntErrorKind>(x as int),
            r matches Err(e) ==> spec_parse_int(self.0.spec_bytes(), true, i32::MIN as int, i32::MAX as int) matches Err(k) && e@ == key_int_error(k),
    {
        match parse_i32(self.0) {
            Ok(x) => Ok(x),
            Err(k) => Err(int_key_error(k)),
        }
    }

    /// Reads an `i64` key from its decimal text.
    pub fn deserialize_i64(&self) -> (r: Result<i64, Error>)
        ensures
            r matches Ok(x) ==> spec_parse_int(self.0.spec_bytes(), true, i64::MIN as int, i64::MAX as int) == Ok::<int, IntErrorKind>(x as int),
            r matches Err(e) ==> spec_parse_int(self.0.spec_bytes(), true, i64::MIN as int, i64::MAX as int) matches Err(k) && e@ == key_int_error(k),
    {
        match parse_i64(self.0) {
            Ok(x) => Ok(x),
            Err(k) => Err(int_key_error(k)),
        }
    }

    /// Reads an `u8` key from its decimal text.
    pub fn deserialize_u8(&self) -> (r: Result<u8, Error>)
        ensures
            r matches Ok(x) ==> spec_parse_int(self.0.spec_bytes(), false, 0, 255) == Ok::<int, IntErrorKind>(x as int),
            r matches Err(e) ==> spec_parse_int(self.0.spec_bytes(), false, 0, 255) matches Err(k) && e@ == key_int_error(k),
    {
        match parse_u8(self.0) {
            Ok(x) => Ok(x),
            Err(k) => Err(int_key_error(k)),
        }
    }

    /// Reads an `u16` key from its decimal text.
    pub fn deserialize_u16(&self) -> (r: Result<u16, Error>)
        ensures
            r matches Ok(x) ==> spec_parse_int(self.0.spec_bytes(), false, 0, 65535) == Ok::<int, IntErrorKind>(x as int),
            r matches Err(e) ==> spec_parse_int(self.0.spec_bytes(), false, 0, 65535) matches Err(k) && e@ == key_int_error(k),
    {
        match parse_u16(self.0) {
            Ok(x) => Ok(x),
            Err(k) => Err(int_key_error(k)),
        }
    }

    /// Reads an `u32` key from its decimal text.
    pub fn deserialize_u32(&self) -> (r: Result<u32, Error>)
        ensures
            r matches Ok(x) ==> spec_parse_int(self.0.spec_bytes(), false, 0, u32::MAX as int) == Ok::<int, IntErrorKind>(x as int),
            r matches Err(e) ==> spec_parse_int(self.0.spec_bytes(), false, 0, u32::MAX as int) matches Err(k) && e@ == key_int_error(k),
    {
        match parse_u32(self.0) {
            Ok(x) => Ok(x),
            Err(k) => Err(int_key_error(k)),
        }
    }

    /// Reads an `u64` key from its decimal text.
    pub fn deserialize_u64(&self) -> (r: Result<u64, Error>)
        ensures
            r matches Ok(x) ==> spec_parse_int(self.0.spec_bytes(), false, 0, u64::MAX as int) == Ok::<int, IntErrorKind>(x as int),
            r matches Err(e) ==> spec_parse_int(self.0.spec_bytes(), false, 0, u64::MAX as int) matches Err(k) && e@ == key_int_error(k),
    {
        match parse_u64(self.0) {
            Ok(x) => Ok(x),
            Err(k) => Err(int_key_error(k)),
        }
    }

    /// Keys are never read as bytes.
    pub fn deserialize_bytes(&self) -> (r: Result<(), Error>)
        ensures
            r is Err,
            r matches Err(e) ==> e@ == ErrorV::Unsupported("Can not deserialize dict key from bytes"@),
    {
        Err(Error::Unsupported("Can not deserialize dict key from bytes"))
    }

    /// Keys are never read as byte buf.
    pub fn deserialize_byte_buf(&self) -> (r: Result<(), Error>)
        ensures
            r is Err,
            r matches Err(e) ==> e@ == ErrorV::Unsupported("Can not deserialize dict key from byte buf"@),
    {
        Err(Error::Unsupported("Can not deserialize dict key from byte buf"))
    }

    /// Keys are never read as option.
    pub fn deserialize_option(&self) -> (r: Result<(), Error>)
        ensures
            r is Err,
            r matches Err(e) ==> e@ == ErrorV::Unsupported("Can not deserialize dict key from option"@),
    {
        Err(Error::Unsupported("Can not deserialize dict key from option"))
    }

    /// Keys are never read as unit.
    pub fn deserialize_unit(&self) -> (r: Result<(), Error>)
        ensures
            r is Err,
            r matches Err(e) ==> e@ == ErrorV::Unsupported("Can not deserialize dict key from unit"@),
    {
        Err(Error::Unsupported("Can not deserialize dict key from unit"))
    }

    /// Keys are never read as unit struct.
    pub fn deserialize_unit_struct(&self) -> (r: Result<(), Error>)
        ensures
            r is Err,
            r matches Err(e) ==> e@ == ErrorV::Unsupported("Can not deserialize dict key from unit struct"@),
    {
        Err(Error::Unsupported("Can not deserialize dict key from unit struct"))
    }

    /// Keys are never read as seq.
    pub fn deserialize_seq(&self) -> (r: Result<(), Error>)
        ensures
            r is Err,
            r matches Err(e) ==> e@ == ErrorV::Unsupported("Can not deserialize dict key from seq"@),
    {
        Err(Error::Unsupported("Can not deserialize dict key from seq"))
    }

    /// Keys are never read as tuple.
    pub fn deserialize_tuple(&self) -> (r: Result<(), Error>)
        ensures
            r is Err,
            r matches Err(e) ==> e@ == ErrorV::Unsupported("Can not deserialize dict key from tuple"@),
    {
        Err(Error::Unsupported("Can not deserialize dict key from tuple"))
    }

    /// Keys are never read as tuple struct.
    pub fn deserialize_tuple_struct(&self) -> (r: Result<(), Error>)
        ensures
            r is Err,
            r matches Err(e) ==> e@ == ErrorV::Unsupported("Can not deserialize dict key from tuple struct"@),
    {
        Err(Error::Unsupported("Can not deserialize dict key from tuple struct"))
    }

    /// Keys are never read as map.
    pub fn deserialize_map(&self) -> (r: Result<(), Error>)
        ensures
            r is Err,
            r matches Err(e) ==> e@ == ErrorV::Unsupported("Can not deserialize dict key from map"@),
    {
        Err(Error::Unsupported("Can not deserialize dict key from map"))
    }

    /// Keys are never read as struct.
    pub fn deserialize_struct(&self) -> (r: Result<(), Error>)
        ensures
            r is Err,
            r matches Err(e) ==> e@ == ErrorV::Unsupported("Can not deserialize dict key from struct"@),
    {
        Err(Error::Unsupported("Can not deserialize dict key from struct"))
    }

    /// Keys are never read as enum.
    pub fn deserialize_enum(&self) -> (r: Result<(), Error>)
        ensures
            r is Err,
            r matches Err(e) ==> e@ == ErrorV::Unsupported("Can not deserialize dict key from enum"@),
    {
        Err(Error::Unsupported("Can not deserialize dict key from enum"))
    }

    /// Keys are never read as identifier.
    pub fn deserialize_identifier(&self) -> (r: Result<(), Error>)
        ensures
            r is Err,
            r matches Err(e) ==> e@ == ErrorV::Unsupported("Can not deserialize dict key from identifier"@),
    {
        Err(Error::Unsupported("Can not deserialize dict key from identifier"))
    }

    /// Keys are never read as any.
    pub fn deserialize_ignored_any(&self) -> (r: Result<(), Error>)
        ensures
            r is Err,
            r matches Err(e) ==> e@ == ErrorV::Unsupported("Can not deserialize dict key from any"@),
    {
        Err(Error::Unsupported("Can not deserialize dict key from any"))
    }
}

} // verus!
