//! Typed reads of Fleece values in query results.
use vstd::prelude::*;
use vstd::utf8::{valid_utf8, decode_utf8, encode_utf8};
use crate::error::{Error, ErrorKind};
use crate::fleece::{FlValue, dict_get, spec_key_index};
use crate::fl_slice::{FLSlice, utf8_str, lemma_str_bytes_decode};
use crate::text::{ascii_text, decimal_int, decimal_text_i64, decimal_text_u64};

verus! {

/// A Fleece value, read by kind.
pub enum ValueRef<'a> {
    Null,
    Bool(bool),
    SignedInt(i64),
    UnsignedInt(u64),
    /// A double, by its bit pattern.
    Double(u64),
    String(&'a str),
    Array(ValueRefArray<'a>),
    Dict(ValueRefDict<'a>),
}

/// An array value.
pub struct ValueRefArray<'a>(pub &'a Vec<FlValue>);

/// A dictionary value.
pub struct ValueRefDict<'a>(pub &'a Vec<(Vec<u8>, FlValue)>);

/// The values that `ValueRef::new` reads without failing: no data value, valid UTF-8 in
/// strings, and numbers that are integers, unsigned or doubles.
pub open spec fn readable(v: FlValue) -> bool {
    match v {
        FlValue::Data(_) => false,
        FlValue::String(b) => valid_utf8(b@),
        FlValue::Number(n) => n.is_integer || n.is_unsigned || n.is_double,
        _ => true,
    }
}

/// What `ValueRef::new` makes of a value, by kind and content.
pub open spec fn spec_value_ref(v: &FlValue, r: ValueRef) -> bool {
    match v {
        FlValue::Undefined => r is Null,
        FlValue::Null => r is Null,
        FlValue::Bool(b) => r == ValueRef::Bool(*b),
        FlValue::Number(n) => if n.is_integer {
            r == ValueRef::SignedInt(n.as_int)
        } else if n.is_unsigned {
            r == ValueRef::UnsignedInt(n.as_unsigned)
        } else {
            r == ValueRef::Double(n.double_bits)
        },
        FlValue::String(b) => r matches ValueRef::String(s) && s@ == decode_utf8(b@),
        FlValue::Array(a) => r matches ValueRef::Array(x) && x.0 == a,
        FlValue::Dict(d) => r matches ValueRef::Dict(x) && x.0 == d,
        FlValue::Data(_) => false,
    }
}

/// Reading a value by kind keeps what it holds, for every readable value: a null or an
/// undefined value is null; a boolean is the same boolean; an integer number is that
/// signed integer, an unsigned one that unsigned integer, and any other number a double of
/// the same bits; a text is a string whose UTF-8 encoding is the stored bytes; an array and
/// a dictionary are views of the same elements and entries.
pub proof fn lemma_value_ref_keeps_content(v: FlValue, r: ValueRef)
    requires
        readable(v),
        spec_value_ref(&v, r),
    ensures
        (v is Null || v is Undefined) <==> r is Null,
        v matches FlValue::Bool(b) ==> (r matches ValueRef::Bool(c) && c == b),
        r matches ValueRef::Bool(c) ==> v == FlValue::Bool(c),
        v matches FlValue::Number(n) ==> (n.is_integer ==> (r matches ValueRef::SignedInt(x) && x == n.as_int)),
        v matches FlValue::Number(n) ==> (!n.is_integer && n.is_unsigned ==> (r matches ValueRef::UnsignedInt(x) && x
            == n.as_unsigned)),
        v matches FlValue::Number(n) ==> (!n.is_integer && !n.is_unsigned ==> (r matches ValueRef::Double(x) && x
            == n.double_bits)),
        v matches FlValue::String(b) ==> (r matches ValueRef::String(s) && encode_utf8(s@) == b@),
        v matches FlValue::Array(a) ==> (r matches ValueRef::Array(x) && x.0@ == a@),
        v matches FlValue::Dict(d) ==> (r matches ValueRef::Dict(x) && x.0@ == d@),
{
    if let FlValue::String(b) = v {
        vstd::utf8::decode_utf8_encode_utf8(b@);
    }
}

impl<'a> ValueRef<'a> {
    /// Reads `value` by kind.
    pub fn new(value: &'a FlValue) -> (r: ValueRef<'a>)
        requires
            readable(*value),
        ensures
            spec_value_ref(value, r),
    {
        match value {
            FlValue::Undefined => ValueRef::Null,
            FlValue::Null => ValueRef::Null,
            FlValue::Bool(b) => ValueRef::Bool(*b),
            FlValue::Number(n) => {
                if n.is_integer {
                    ValueRef::SignedInt(n.as_int)
                } else if n.is_unsigned {
                    ValueRef::UnsignedInt(n.as_unsigned)
                } else {
                    ValueRef::Double(n.double_bits)
                }
            },
            FlValue::String(b) => {
                match utf8_str(b.as_slice()) {
                    Some(s) => {
                        proof {
                            lemma_str_bytes_decode(s);
                        }
                        ValueRef::String(s)
                    },
                    None => ValueRef::Null,
                }
            },
            FlValue::Array(a) => ValueRef::Array(ValueRefArray(a)),
            FlValue::Dict(d) => ValueRef::Dict(ValueRefDict(d)),
            FlValue::Data(_) => ValueRef::Null,
        }
    }

    /// Whether the value is null.
    pub fn is_null(&self) -> (r: bool)
        ensures
            r == (self is Null),
    {
        match self {
            ValueRef::Null => true,
            _ => false,
        }
    }

    /// The value as text.
    pub fn as_str(&self) -> (r: Result<&'a str, Error>)
        ensures
            *self matches ValueRef::String(s) ==> r == Ok::<&'a str, Error>(s),
            !(self is String) ==> (r matches Err(e) && is_wrong_type(e@, "String,"@, *self)),
    {
        str_column_result(self)
    }

    /// The value as a `u64`.
    pub fn as_u64(&self) -> (r: Result<u64, Error>)
        ensures
            *self matches ValueRef::SignedInt(x) ==> (x >= 0 ==> r == Ok::<u64, Error>(x as u64)),
            *self matches ValueRef::SignedInt(x) ==> (x < 0 ==> (r matches Err(e) && e@
                == ErrorKind::LogicError(range_message(true, x as int, "u32"@)))),
            *self matches ValueRef::UnsignedInt(x) ==> r == Ok::<u64, Error>(x),
            !(self is SignedInt) && !(self is UnsignedInt) ==> (r matches Err(e) && is_wrong_type(e@, "SignedInt|UnsignedInt (u64)"@, *self)),
    {
        u64_column_result(self)
    }
}

/// What `format!("{:?}", s)` gives for a text: the text quoted, with escapes.
pub uninterp spec fn str_debug(s: Seq<char>) -> Seq<char>;

/// The `Debug` form of a text, quoted and escaped, as `format!("{:?}", s)` writes it.
#[verifier::external_body]
fn debug_str(s: &str) -> (r: String)
    ensures
        r@ == str_debug(s@),
{
    format!("{:?}", s)
}

/// Whether a value's debug text is fixed by its content here: a double's number is
/// printed in floating-point form, and an array or a dictionary by the engine's address,
/// and neither is produced by this library.
pub open spec fn debug_text_fixed(val: ValueRef) -> bool {
    !(val is Double) && !(val is Array) && !(val is Dict)
}

/// A value's debug text: the variant with its content. For a double, an array or a
/// dictionary, the text begins this way, and what follows is not fixed.
pub open spec fn spec_debug_text(val: ValueRef) -> Seq<char> {
    match val {
        ValueRef::Null => "Null"@,
        ValueRef::Bool(b) => if b { "Bool(true)"@ } else { "Bool(false)"@ },
        ValueRef::SignedInt(x) => "SignedInt("@ + ascii_text(decimal_int(x as int)) + ")"@,
        ValueRef::UnsignedInt(x) => "UnsignedInt("@ + ascii_text(decimal_int(x as int)) + ")"@,
        ValueRef::String(s) => "String("@ + str_debug(s@) + ")"@,
        ValueRef::Double(_) => "Double("@,
        ValueRef::Array(_) => "Array(ValueRefArray("@,
        ValueRef::Dict(_) => "Dict(ValueRefDict("@,
    }
}

/// The debug text of a value: exactly `spec_debug_text` where that is fixed, else text
/// that begins with it.
fn debug_text(val: &ValueRef) -> (r: String)
    ensures
        debug_text_fixed(*val) ==> r@ == spec_debug_text(*val),
        !debug_text_fixed(*val) ==> spec_debug_text(*val).is_prefix_of(r@),
{
    match val {
        ValueRef::Null => String::from_str("Null"),
        ValueRef::Bool(b) => if *b {
            String::from_str("Bool(true)")
        } else {
            String::from_str("Bool(false)")
        },
        ValueRef::SignedInt(x) => {
            let mut r = String::from_str("SignedInt(");
            let t = decimal_text_i64(*x);
            r.append(t.as_str());
            r.append(")");
            r
        },
        ValueRef::UnsignedInt(x) => {
            let mut r = String::from_str("UnsignedInt(");
            let t = decimal_text_u64(*x);
            r.append(t.as_str());
            r.append(")");
            r
        },
        ValueRef::String(s) => {
            let mut r = String::from_str("String(");
            let t = debug_str(s);
            r.append(t.as_str());
            r.append(")");
            r
        },
        ValueRef::Double(_) => {
            let mut r = String::from_str("Double(");
            let ghost head = r@;
            r.append("..)");
            assert(r@.subrange(0, head.len() as int) =~= head);
            r
        },
        ValueRef::Array(_) => {
            let mut r = String::from_str("Array(ValueRefArray(");
            let ghost head = r@;
            r.append("..))");
            assert(r@.subrange(0, head.len() as int) =~= head);
            r
        },
        ValueRef::Dict(_) => {
            let mut r = String::from_str("Dict(ValueRefDict(");
            let ghost head = r@;
            r.append("..))");
            assert(r@.subrange(0, head.len() as int) =~= head);
            r
        },
    }
}

/// The message for a value of another kind than expected, up to the value's debug text.
pub open spec fn wrong_type_head(expect: Seq<char>, val: ValueRef) -> Seq<char> {
    "Wrong ValueRef type, expect "@ + expect + " got "@ + spec_debug_text(val)
}

/// Whether `m` is the message for a value of another kind than expected: it names the
/// expected kind and prints the value by its debug text.
pub open spec fn is_wrong_type_message(m: Seq<char>, expect: Seq<char>, val: ValueRef) -> bool {
    if debug_text_fixed(val) {
        m == wrong_type_head(expect, val)
    } else {
        wrong_type_head(expect, val).is_prefix_of(m)
    }
}

/// Whether `e` is the error for a value of another kind than expected.
pub open spec fn is_wrong_type(e: ErrorKind, expect: Seq<char>, val: ValueRef) -> bool {
    e matches ErrorKind::LogicError(m) && is_wrong_type_message(m, expect, val)
}

/// The message for an integer out of the range of the type `target`, read from a column
/// of a signed or an unsigned integer.
pub open spec fn range_message(signed: bool, x: int, target: Seq<char>) -> Seq<char> {
    (if signed { "ValueRef(Signed) "@ } else { "ValueRef(Unsigned) "@ }) + ascii_text(decimal_int(x))
        + " to "@ + target + " conversation error: out of range integral type conversion attempted"@
}

fn wrong_type(expect: &str, val: &ValueRef) -> (r: Error)
    ensures
        is_wrong_type(r@, expect@, *val),
{
    let mut msg = String::from_str("Wrong ValueRef type, expect ");
    msg.append(expect);
    msg.append(" got ");
    let ghost before = msg@;
    let t = debug_text(val);
    msg.append(t.as_str());
    proof {
        let head = wrong_type_head(expect@, *val);
        if !debug_text_fixed(*val) {
            let d = spec_debug_text(*val);
            assert(t@.subrange(0, d.len() as int) =~= d);
            assert(msg@.subrange(0, head.len() as int) =~= head);
        }
    }
    Error::LogicError(msg)
}

fn conversion_error(prefix: &str, x: &str, target: &str) -> (r: Error)
    ensures
        r@ == ErrorKind::LogicError(
            prefix@ + x@ + " to "@ + target@ + " conversation error: out of range integral type conversion attempted"@,
        ),
{
    let mut msg = String::from_str(prefix);
    msg.append(x);
    msg.append(" to ");
    msg.append(target);
    msg.append(" conversation error: out of range integral type conversion attempted");
    Error::LogicError(msg)
}

/// Reads text out of a column.
pub fn str_column_result<'a>(val: &ValueRef<'a>) -> (r: Result<&'a str, Error>)
    ensures
        *val matches ValueRef::String(s) ==> r == Ok::<&'a str, Error>(s),
        !(val is String) ==> (r matches Err(e) && is_wrong_type(e@, "String,"@, *val)),
{
    match val {
        ValueRef::String(x) => Ok(*x),
        _ => Err(wrong_type("String,", val)),
    }
}

/// Reads an unsigned integer no larger than `hi` out of a column; `what` names the type.
fn unsigned_column_result(val: &ValueRef, hi: u64, what: &str) -> (r: Result<u64, Error>)
    ensures
        *val matches ValueRef::SignedInt(x) ==> (0 <= x <= hi ==> r == Ok::<u64, Error>(x as u64)),
        *val matches ValueRef::SignedInt(x) ==> (!(0 <= x <= hi) ==> (r matches Err(e) && e@ == ErrorKind::LogicError(
            range_message(true, x as int, what@),
        ))),
        *val matches ValueRef::UnsignedInt(x) ==> (x <= hi ==> r == Ok::<u64, Error>(x)),
        *val matches ValueRef::UnsignedInt(x) ==> (x > hi ==> (r matches Err(e) && e@ == ErrorKind::LogicError(
            range_message(false, x as int, what@),
        ))),
        !(val is SignedInt) && !(val is UnsignedInt) ==> (r matches Err(e) && is_wrong_type(e@, "SignedInt|UnsignedInt ("@ + what@ + ")"@, *val)),
{
    match val {
        ValueRef::SignedInt(x) => {
            if 0 <= *x && (*x as u64) <= hi {
                Ok(*x as u64)
            } else {
                let t = decimal_text_i64(*x);
                Err(conversion_error("ValueRef(Signed) ", t.as_str(), what))
            }
        },
        ValueRef::UnsignedInt(x) => {
            if *x <= hi {
                Ok(*x)
            } else {
                let t = decimal_text_u64(*x);
                Err(conversion_error("ValueRef(Unsigned) ", t.as_str(), what))
            }
        },
        _ => {
            let mut expect = String::from_str("SignedInt|UnsignedInt (");
            expect.append(what);
            expect.append(")");
            Err(wrong_type(expect.as_str(), val))
        },
    }
}

/// Reads a `u16` out of a column.
pub fn u16_column_result(val: &ValueRef) -> (r: Result<u16, Error>)
    ensures
        *val matches ValueRef::SignedInt(x) ==> (0 <= x <= u16::MAX ==> r == Ok::<u16, Error>(x as u16)),
        *val matches ValueRef::SignedInt(x) ==> (!(0 <= x <= u16::MAX) ==> (r matches Err(e) && e@
            == ErrorKind::LogicError(range_message(true, x as int, "u16"@)))),
        *val matches ValueRef::UnsignedInt(x) ==> (x <= u16::MAX ==> r == Ok::<u16, Error>(x as u16)),
        *val matches ValueRef::UnsignedInt(x) ==> (x > u16::MAX ==> (r matches Err(e) && e@
            == ErrorKind::LogicError(range_message(false, x as int, "u16"@)))),
        !(val is SignedInt) && !(val is UnsignedInt) ==> (r matches Err(e) && is_wrong_type(e@, "SignedInt|UnsignedInt ("@ + "u16"@ + ")"@, *val)),
{
    match unsigned_column_result(val, u16::MAX as u64, "u16") {
        Ok(x) => Ok(x as u16),
        Err(e) => Err(e),
    }
}

/// Reads a `u32` out of a column.
pub fn u32_column_result(val: &ValueRef) -> (r: Result<u32, Error>)
    ensures
        *val matches ValueRef::SignedInt(x) ==> (0 <= x <= u32::MAX ==> r == Ok::<u32, Error>(x as u32)),
        *val matches ValueRef::SignedInt(x) ==> (!(0 <= x <= u32::MAX) ==> (r matches Err(e) && e@
            == ErrorKind::LogicError(range_message(true, x as int, "u32"@)))),
        *val matches ValueRef::UnsignedInt(x) ==> (x <= u32::MAX ==> r == Ok::<u32, Error>(x as u32)),
        *val matches ValueRef::UnsignedInt(x) ==> (x > u32::MAX ==> (r matches Err(e) && e@
            == ErrorKind::LogicError(range_message(false, x as int, "u32"@)))),
        !(val is SignedInt) && !(val is UnsignedInt) ==> (r matches Err(e) && is_wrong_type(e@, "SignedInt|UnsignedInt ("@ + "u32"@ + ")"@, *val)),
{
    match unsigned_column_result(val, u32::MAX as u64, "u32") {
        Ok(x) => Ok(x as u32),
        Err(e) => Err(e),
    }
}

/// Reads a `u64` out of a column.
pub fn u64_column_result(val: &ValueRef) -> (r: Result<u64, Error>)
    ensures
        *val matches ValueRef::SignedInt(x) ==> (x >= 0 ==> r == Ok::<u64, Error>(x as u64)),
        *val matches ValueRef::SignedInt(x) ==> (x < 0 ==> (r matches Err(e) && e@
            == ErrorKind::LogicError(range_message(true, x as int, "u32"@)))),
        *val matches ValueRef::UnsignedInt(x) ==> r == Ok::<u64, Error>(x),
        !(val is SignedInt) && !(val is UnsignedInt) ==> (r matches Err(e) && is_wrong_type(e@, "SignedInt|UnsignedInt (u64)"@, *val)),
{
    match val {
        ValueRef::UnsignedInt(x) => Ok(*x),
        ValueRef::SignedInt(_) => unsigned_column_result(val, u64::MAX, "u32"),
        _ => Err(wrong_type("SignedInt|UnsignedInt (u64)", val)),
    }
}

/// Reads a `usize` out of a column.
pub fn usize_column_result(val: &ValueRef) -> (r: Result<usize, Error>)
    ensures
        *val matches ValueRef::SignedInt(x) ==> (0 <= x <= usize::MAX ==> r == Ok::<usize, Error>(x as usize)),
        *val matches ValueRef::SignedInt(x) ==> (!(0 <= x <= usize::MAX) ==> (r matches Err(e) && e@
            == ErrorKind::LogicError(range_message(true, x as int, "usize"@)))),
        *val matches ValueRef::UnsignedInt(x) ==> (x <= usize::MAX ==> r == Ok::<usize, Error>(x as usize)),
        *val matches ValueRef::UnsignedInt(x) ==> (x > usize::MAX ==> (r matches Err(e) && e@
            == ErrorKind::LogicError(range_message(false, x as int, "usize"@)))),
        !(val is SignedInt) && !(val is UnsignedInt) ==> (r matches Err(e) && is_wrong_type(e@, "SignedInt|UnsignedInt ("@ + "usize"@ + ")"@, *val)),
{
    match unsigned_column_result(val, usize::MAX as u64, "usize") {
        Ok(x) => Ok(x as usize),
        Err(e) => Err(e),
    }
}

/// Reads an `i64` out of a column.
pub fn i64_column_result(val: &ValueRef) -> (r: Result<i64, Error>)
    ensures
        *val matches ValueRef::SignedInt(x) ==> r == Ok::<i64, Error>(x),
        *val matches ValueRef::UnsignedInt(x) ==> (x <= i64::MAX ==> r == Ok::<i64, Error>(x as i64)),
        *val matches ValueRef::UnsignedInt(x) ==> (x > i64::MAX ==> (r matches Err(e) && e@ == ErrorKind::LogicError(
            "ValueRef (UnsignedInt) to i64 conversation failed: out of range integral type conversion attempted"@,
        ))),
        !(val is SignedInt) && !(val is UnsignedInt) ==> (r matches Err(e) && is_wrong_type(e@, "SignedInt|UnsignedInt (i64)"@, *val)),
{
    match val {
        ValueRef::SignedInt(x) => Ok(*x),
        ValueRef::UnsignedInt(x) => {
            if *x <= i64::MAX as u64 {
                Ok(*x as i64)
            } else {
                Err(Error::LogicError(String::from_str(
                    "ValueRef (UnsignedInt) to i64 conversation failed: out of range integral type conversion attempted",
                )))
            }
        },
        _ => Err(wrong_type("SignedInt|UnsignedInt (i64)", val)),
    }
}

impl<'a> ValueRefArray<'a> {
    /// The number of elements.
    pub fn len(&self) -> (r: u32)
        requires
            self.0@.len() <= u32::MAX,
        ensures
            r == self.0@.len(),
    {
        self.0.len() as u32
    }

    /// Whether the array is empty.
    pub fn is_empty(&self) -> (r: bool)
        ensures
            r == (self.0@.len() == 0),
    {
        self.0.len() == 0
    }

    /// The element at `idx`, read by kind; null past the end.
    pub fn get(&self, idx: u32) -> (r: ValueRef<'a>)
        requires
            idx < self.0@.len() ==> readable(self.0@[idx as int]),
        ensures
            idx < self.0@.len() ==> spec_value_ref(&self.0@[idx as int], r),
            idx >= self.0@.len() ==> r is Null,
    {
        if (idx as usize) < self.0.len() {
            ValueRef::new(&self.0[idx as usize])
        } else {
            ValueRef::Null
        }
    }
}

impl<'a> ValueRefDict<'a> {
    /// The number of entries.
    pub fn len(&self) -> (r: u32)
        requires
            self.0@.len() <= u32::MAX,
        ensures
            r == self.0@.len(),
    {
        self.0.len() as u32
    }

    /// Whether the dictionary is empty.
    pub fn is_empty(&self) -> (r: bool)
        ensures
            r == (self.0@.len() == 0),
    {
        self.0.len() == 0
    }

    /// The value under `key`, read by kind; null when the key is missing.
    pub fn get(&self, key: FLSlice) -> (r: ValueRef<'a>)
        requires
            spec_key_index(self.0@, key.bytes@) >= 0 ==> readable(self.0@[spec_key_index(self.0@, key.bytes@)].1),
        ensures
            spec_key_index(self.0@, key.bytes@) >= 0 ==> spec_value_ref(&self.0@[spec_key_index(self.0@, key.bytes@)].1, r),
            spec_key_index(self.0@, key.bytes@) < 0 ==> r is Null,
    {
        match dict_get(self.0, key.bytes) {
            Some(v) => ValueRef::new(v),
            None => ValueRef::Null,
        }
    }
}

} // verus!
