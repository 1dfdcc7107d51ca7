//! Decimal formatting and the parsing of dictionary keys back into scalars.
use vstd::prelude::*;
use vstd::string::StringSliceAdditionalSpecFns;

verus! {

/// The ASCII byte of decimal digit `d`.
pub open spec fn digit_byte(d: int) -> u8 {
    (48 + d) as u8
}

/// The decimal digits of `n`, without leading zeros.
pub open spec fn decimal_nat(n: nat) -> Seq<u8>
    decreases n,
{
    if n < 10 {
        seq![digit_byte(n as int)]
    } else {
        decimal_nat(n / 10).push(digit_byte((n % 10) as int))
    }
}

/// The decimal text of `i`: a minus sign before negative numbers, then the digits.
pub open spec fn decimal_int(i: int) -> Seq<u8> {
    if i < 0 {
        seq![45u8] + decimal_nat((-i) as nat)
    } else {
        decimal_nat(i as nat)
    }
}

/// Formats `v` in decimal with `itoa::Buffer::format`; the result is the text's bytes.
#[verifier::external_body]
pub(crate) fn itoa_i64(v: i64) -> (r: Vec<u8>)
    ensures
        r@ == decimal_int(v as int),
{
    let mut buffer = itoa::Buffer::new();
    buffer.format(v).as_bytes().to_vec()
}

/// Formats `v` in decimal with `itoa::Buffer::format`; the result is the text's bytes.
#[verifier::external_body]
pub(crate) fn itoa_u64(v: u64) -> (r: Vec<u8>)
    ensures
        r@ == decimal_int(v as int),
{
    let mut buffer = itoa::Buffer::new();
    buffer.format(v).as_bytes().to_vec()
}

/// Why a text is not an integer of the asked type.
#[derive(Clone, Copy, PartialEq, Eq, Structural, Debug)]
pub enum IntErrorKind {
    Empty,
    InvalidDigit,
    PosOverflow,
    NegOverflow,
}

/// Whether a byte is an ASCII digit.
pub open spec fn is_digit_byte(b: u8) -> bool {
    48 <= b <= 57
}

/// Reads the digits `ds` from the left into the running value `acc`, which moves away
/// from zero (downwards when `neg`); the first non-digit, or the first step that leaves
/// `lo..=hi`, ends the reading with an error.
pub open spec fn scan_digits(ds: Seq<u8>, acc: int, neg: bool, lo: int, hi: int) -> Result<
    int,
    IntErrorKind,
>
    decreases ds.len(),
{
    if ds.len() == 0 {
        Ok(acc)
    } else if !is_digit_byte(ds[0]) {
        Err(IntErrorKind::InvalidDigit)
    } else {
        let d = ds[0] - 48;
        let next = if neg { acc * 10 - d } else { acc * 10 + d };
        if next > hi {
            Err(IntErrorKind::PosOverflow)
        } else if next < lo {
            Err(IntErrorKind::NegOverflow)
        } else {
            scan_digits(ds.drop_first(), next, neg, lo, hi)
        }
    }
}

/// What `from_str` gives for the integer type with range `lo..=hi` on the text with bytes
/// `s`: an optional sign (`-` only for signed types) followed by decimal digits.
pub open spec fn spec_parse_int(s: Seq<u8>, signed: bool, lo: int, hi: int) -> Result<
    int,
    IntErrorKind,
> {
    if s.len() == 0 {
        Err(IntErrorKind::Empty)
    } else if (s[0] == 43 || s[0] == 45) && s.len() == 1 {
        Err(IntErrorKind::InvalidDigit)
    } else if s[0] == 43 {
        scan_digits(s.drop_first(), 0, false, lo, hi)
    } else if s[0] == 45 && signed {
        scan_digits(s.drop_first(), 0, true, lo, hi)
    } else {
        scan_digits(s, 0, false, lo, hi)
    }
}

/// The message of an integer parse error.
pub open spec fn spec_int_error_message(k: IntErrorKind) -> Seq<char> {
    match k {
        IntErrorKind::Empty => "cannot parse integer from empty string"@,
        IntErrorKind::InvalidDigit => "invalid digit found in string"@,
        IntErrorKind::PosOverflow => "number too large to fit in target type"@,
        IntErrorKind::NegOverflow => "number too small to fit in target type"@,
    }
}

/// The message of an integer parse error.
pub fn int_error_message(k: IntErrorKind) -> (r: &'static str)
    ensures
        r@ == spec_int_error_message(k),
{
    match k {
        IntErrorKind::Empty => "cannot parse integer from empty string",
        IntErrorKind::InvalidDigit => "invalid digit found in string",
        IntErrorKind::PosOverflow => "number too large to fit in target type",
        IntErrorKind::NegOverflow => "number too small to fit in target type",
    }
}

proof fn lemma_scan_step(ds: Seq<u8>, i: int, acc: int, neg: bool, lo: int, hi: int)
    requires
        0 <= i < ds.len(),
    ensures
        scan_digits(ds.subrange(i, ds.len() as int), acc, neg, lo, hi) == (if !is_digit_byte(
            ds[i],
        ) {
            Err(IntErrorKind::InvalidDigit)
        } else {
            let d = ds[i] - 48;
            let next = if neg { acc * 10 - d } else { acc * 10 + d };
            if next > hi {
                Err(IntErrorKind::PosOverflow)
            } else if next < lo {
                Err(IntErrorKind::NegOverflow)
            } else {
                scan_digits(ds.subrange(i + 1, ds.len() as int), next, neg, lo, hi)
            }
        }),
{
    let tail = ds.subrange(i, ds.len() as int);
    assert(tail[0] == ds[i]);
    assert(tail.drop_first() =~= ds.subrange(i + 1, ds.len() as int));
}

/// Reads the integer in range `lo..=hi` written in `s` (an optional sign, `-` only when
/// `signed`, then decimal digits), as the standard library's `from_str` does.
pub fn parse_int(s: &[u8], signed: bool, lo: i128, hi: i128) -> (r: Result<i128, IntErrorKind>)
    requires
        lo <= 0 <= hi,
        -0x1_0000_0000_0000_0000 <= lo,
        hi <= 0x1_0000_0000_0000_0000,
    ensures
        r matches Ok(v) ==> lo <= v <= hi,
        r matches Ok(v) ==> spec_parse_int(s@, signed, lo as int, hi as int) == Ok::<
            int,
            IntErrorKind,
        >(v as int),
        r matches Err(k) ==> spec_parse_int(s@, signed, lo as int, hi as int) == Err::<
            int,
            IntErrorKind,
        >(k),
{
    if s.len() == 0 {
        return Err(IntErrorKind::Empty);
    }
    if (s[0] == 43 || s[0] == 45) && s.len() == 1 {
        return Err(IntErrorKind::InvalidDigit);
    }
    let mut i: usize = 0;
    let mut neg = false;
    if s[0] == 43 {
        i = 1;
    } else if s[0] == 45 && signed {
        i = 1;
        neg = true;
    }
    proof {
        assert(s@.subrange(0, s@.len() as int) =~= s@);
        assert(s@.subrange(1, s@.len() as int) =~= s@.drop_first());
    }
    let mut acc: i128 = 0;
    while i < s.len()
        invariant
            i <= s@.len(),
            lo <= acc <= hi,
            lo <= 0 <= hi,
            -0x1_0000_0000_0000_0000 <= lo,
            hi <= 0x1_0000_0000_0000_0000,
            spec_parse_int(s@, signed, lo as int, hi as int) == scan_digits(
                s@.subrange(i as int, s@.len() as int),
                acc as int,
                neg,
                lo as int,
                hi as int,
            ),
        decreases s@.len() - i,
    {
        proof {
            lemma_scan_step(s@, i as int, acc as int, neg, lo as int, hi as int);
        }
        let c = s[i];
        if c < 48 || c > 57 {
            return Err(IntErrorKind::InvalidDigit);
        }
        let d = (c - 48) as i128;
        let next = if neg {
            acc * 10 - d
        } else {
            acc * 10 + d
        };
        if next > hi {
            return Err(IntErrorKind::PosOverflow);
        }
        if next < lo {
            return Err(IntErrorKind::NegOverflow);
        }
        acc = next;
        i = i + 1;
    }
    proof {
        assert(s@.subrange(i as int, s@.len() as int).len() == 0);
    }
    Ok(acc)
}


/// The text `s` read as `bool` by `from_str`: only "true" and "false" are accepted.
pub open spec fn spec_parse_bool(s: Seq<u8>) -> Option<bool> {
    if s == seq![116u8, 114, 117, 101] {
        Some(true)
    } else if s == seq![102u8, 97, 108, 115, 101] {
        Some(false)
    } else {
        None
    }
}

/// Reads a `bool` from text as `bool::from_str` does.
pub fn parse_bool(s: &str) -> (r: Option<bool>)
    ensures
        r == spec_parse_bool(s.spec_bytes()),
{
    let b = s.as_bytes();
    let t: [u8; 4] = [116u8, 114, 117, 101];
    let f: [u8; 5] = [102u8, 97, 108, 115, 101];
    proof {
        assert(t@ =~= seq![116u8, 114, 117, 101]);
        assert(f@ =~= seq![102u8, 97, 108, 115, 101]);
    }
    if crate::fl_slice::bytes_eq(b, t.as_slice()) {
        Some(true)
    } else if crate::fl_slice::bytes_eq(b, f.as_slice()) {
        Some(false)
    } else {
        None
    }
}

/// Why a text is not a single `char`.
#[derive(Clone, Copy, PartialEq, Eq, Structural, Debug)]
pub enum CharErrorKind {
    EmptyString,
    TooManyChars,
}

/// Reads a `char` from text as `char::from_str` does: the text must hold exactly one.
pub fn parse_char(s: &str) -> (r: Result<char, CharErrorKind>)
    ensures
        s@.len() == 0 ==> r == Err::<char, CharErrorKind>(CharErrorKind::EmptyString),
        s@.len() == 1 ==> r == Ok::<char, CharErrorKind>(s@[0]),
        s@.len() > 1 ==> r == Err::<char, CharErrorKind>(CharErrorKind::TooManyChars),
{
    let n = s.unicode_len();
    if n == 0 {
        Err(CharErrorKind::EmptyString)
    } else if n == 1 {
        Ok(s.get_char(0))
    } else {
        Err(CharErrorKind::TooManyChars)
    }
}

/// Reads an `i8` as `i8::from_str` does.
pub fn parse_i8(s: &str) -> (r: Result<i8, IntErrorKind>)
    ensures
        r matches Ok(v) ==> spec_parse_int(s.spec_bytes(), true, -128, 127) == Ok::<int, IntErrorKind>(v as int),
        r matches Err(k) ==> spec_parse_int(s.spec_bytes(), true, -128, 127) == Err::<int, IntErrorKind>(k),
{
    match parse_int(s.as_bytes(), true, -128, 127) {
        Ok(v) => Ok(v as i8),
        Err(k) => Err(k),
    }
}

/// Reads an `i16` as `i16::from_str` does.
pub fn parse_i16(s: &str) -> (r: Result<i16, IntErrorKind>)
    ensures
        r matches Ok(v) ==> spec_parse_int(s.spec_bytes(), true, -32768, 32767) == Ok::<int, IntErrorKind>(v as int),
        r matches Err(k) ==> spec_parse_int(s.spec_bytes(), true, -32768, 32767) == Err::<int, IntErrorKind>(k),
{
    match parse_int(s.as_bytes(), true, -32768, 32767) {
        Ok(v) => Ok(v as i16),
        Err(k) => Err(k),
    }
}

/// Reads an `i32` as `i32::from_str` does.
pub fn parse_i32(s: &str) -> (r: Result<i32, IntErrorKind>)
    ensures
        r matches Ok(v) ==> spec_parse_int(s.spec_bytes(), true, i32::MIN as int, i32::MAX as int) == Ok::<int, IntErrorKind>(v as int),
        r matches Err(k) ==> spec_parse_int(s.spec_bytes(), true, i32::MIN as int, i32::MAX as int) == Err::<int, IntErrorKind>(k),
{
    match parse_int(s.as_bytes(), true, i32::MIN as i128, i32::MAX as i128) {
        Ok(v) => Ok(v as i32),
        Err(k) => Err(k),
    }
}

/// Reads an `i64` as `i64::from_str` does.
pub fn parse_i64(s: &str) -> (r: Result<i64, IntErrorKind>)
    ensures
        r matches Ok(v) ==> spec_parse_int(s.spec_bytes(), true, i64::MIN as int, i64::MAX as int) == Ok::<int, IntErrorKind>(v as int),
        r matches Err(k) ==> spec_parse_int(s.spec_bytes(), true, i64::MIN as int, i64::MAX as int) == Err::<int, IntErrorKind>(k),
{
    match parse_int(s.as_bytes(), true, i64::MIN as i128, i64::MAX as i128) {
        Ok(v) => Ok(v as i64),
        Err(k) => Err(k),
    }
}

/// Reads a `u8` as `u8::from_str` does.
pub fn parse_u8(s: &str) -> (r: Result<u8, IntErrorKind>)
    ensures
        r matches Ok(v) ==> spec_parse_int(s.spec_bytes(), false, 0, 255) == Ok::<int, IntErrorKind>(v as int),
        r matches Err(k) ==> spec_parse_int(s.spec_bytes(), false, 0, 255) == Err::<int, IntErrorKind>(k),
{
    match parse_int(s.as_bytes(), false, 0, 255) {
        Ok(v) => Ok(v as u8),
        Err(k) => Err(k),
    }
}

/// Reads a `u16` as `u16::from_str` does.
pub fn parse_u16(s: &str) -> (r: Result<u16, IntErrorKind>)
    ensures
        r matches Ok(v) ==> spec_parse_int(s.spec_bytes(), false, 0, 65535) == Ok::<int, IntErrorKind>(v as int),
        r matches Err(k) ==> spec_parse_int(s.spec_bytes(), false, 0, 65535) == Err::<int, IntErrorKind>(k),
{
    match parse_int(s.as_bytes(), false, 0, 65535) {
        Ok(v) => Ok(v as u16),
        Err(k) => Err(k),
    }
}

/// Reads a `u32` as `u32::from_str` does.
pub fn parse_u32(s: &str) -> (r: Result<u32, IntErrorKind>)
    ensures
        r matches Ok(v) ==> spec_parse_int(s.spec_bytes(), false, 0, u32::MAX as int) == Ok::<int, IntErrorKind>(v as int),
        r matches Err(k) ==> spec_parse_int(s.spec_bytes(), false, 0, u32::MAX as int) == Err::<int, IntErrorKind>(k),
{
    match parse_int(s.as_bytes(), false, 0, u32::MAX as i128) {
        Ok(v) => Ok(v as u32),
        Err(k) => Err(k),
    }
}

/// Reads a `u64` as `u64::from_str` does.
pub fn parse_u64(s: &str) -> (r: Result<u64, IntErrorKind>)
    ensures
        r matches Ok(v) ==> spec_parse_int(s.spec_bytes(), false, 0, u64::MAX as int) == Ok::<int, IntErrorKind>(v as int),
        r matches Err(k) ==> spec_parse_int(s.spec_bytes(), false, 0, u64::MAX as int) == Err::<int, IntErrorKind>(k),
{
    match parse_int(s.as_bytes(), false, 0, u64::MAX as i128) {
        Ok(v) => Ok(v as u64),
        Err(k) => Err(k),
    }
}

proof fn lemma_decimal_nat_digits(n: nat)
    ensures
        decimal_nat(n).len() >= 1,
        forall|j: int| 0 <= j < decimal_nat(n).len() ==> is_digit_byte(#[trigger] decimal_nat(n)[j]),
    decreases n,
{
    if n >= 10 {
        lemma_decimal_nat_digits(n / 10);
    }
}

proof fn lemma_scan_decimal(n: nat, rest: Seq<u8>, neg: bool, lo: int, hi: int)
    requires
        lo <= 0 <= hi,
        !neg ==> n <= hi,
        neg ==> -n >= lo,
    ensures
        scan_digits(decimal_nat(n) + rest, 0, neg, lo, hi) == scan_digits(
            rest,
            if neg { -n } else { n as int },
            neg,
            lo,
            hi,
        ),
    decreases n,
{
    if n < 10 {
        let s = decimal_nat(n) + rest;
        assert(s[0] == digit_byte(n as int));
        assert(s.drop_first() =~= rest);
    } else {
        let d = n % 10;
        let q = n / 10;
        let tail = seq![digit_byte(d as int)] + rest;
        assert(decimal_nat(n) + rest =~= decimal_nat(q) + tail);
        lemma_scan_decimal(q, tail, neg, lo, hi);
        assert(tail[0] == digit_byte(d as int));
        assert(tail.drop_first() =~= rest);
        assert(q * 10 + d == n);
    }
}

/// Reading back the decimal text of an integer of the type gives the integer: what a
/// map key written as a number reads as.
pub proof fn lemma_decimal_roundtrip(i: int, signed: bool, lo: int, hi: int)
    requires
        lo <= 0 <= hi,
        lo <= i <= hi,
        i < 0 ==> signed,
    ensures
        spec_parse_int(decimal_int(i), signed, lo, hi) == Ok::<int, IntErrorKind>(i),
{
    if i < 0 {
        let m = (-i) as nat;
        lemma_decimal_nat_digits(m);
        lemma_scan_decimal(m, Seq::empty(), true, lo, hi);
        let s = decimal_int(i);
        assert(s.drop_first() =~= decimal_nat(m) + Seq::<u8>::empty());
    } else {
        let m = i as nat;
        lemma_decimal_nat_digits(m);
        lemma_scan_decimal(m, Seq::empty(), false, lo, hi);
        assert(decimal_int(i) =~= decimal_nat(m) + Seq::<u8>::empty());
        assert(is_digit_byte(decimal_nat(m)[0]));
    }
}


/// The characters of a run of ASCII bytes.
pub open spec fn ascii_text(b: Seq<u8>) -> Seq<char> {
    Seq::new(b.len(), |j: int| b[j] as char)
}

/// A run of ASCII bytes is valid UTF-8 and decodes to its own characters.
pub proof fn lemma_ascii_decode(b: Seq<u8>)
    requires
        forall|j: int| 0 <= j < b.len() ==> b[j] < 128,
    ensures
        vstd::utf8::valid_utf8(b),
        vstd::utf8::decode_utf8(b) == ascii_text(b),
{
    let chars = ascii_text(b);
    assert(vstd::utf8::is_ascii_chars(chars));
    vstd::utf8::is_ascii_chars_encode_utf8(chars);
    assert(vstd::utf8::encode_utf8(chars) =~= b);
    vstd::utf8::encode_utf8_valid_utf8(chars);
    vstd::utf8::encode_utf8_decode_utf8(chars);
}

proof fn lemma_decimal_ascii(i: int)
    ensures
        forall|j: int| 0 <= j < decimal_int(i).len() ==> decimal_int(i)[j] < 128,
{
    let m: nat = if i < 0 { (-i) as nat } else { i as nat };
    lemma_decimal_nat_digits(m);
    if i < 0 {
        assert forall|j: int| 0 <= j < decimal_int(i).len() implies decimal_int(i)[j] < 128 by {
            if j > 0 {
                assert(decimal_int(i)[j] == decimal_nat(m)[j - 1]);
            }
        }
    }
}

/// The decimal text of `v`.
pub fn decimal_text_u64(v: u64) -> (r: String)
    ensures
        r@ == ascii_text(decimal_int(v as int)),
{
    let bytes = itoa_u64(v);
    proof {
        lemma_decimal_ascii(v as int);
        lemma_ascii_decode(bytes@);
    }
    crate::fl_slice::utf8_lossy_string(bytes.as_slice())
}

/// The decimal text of `v`.
pub fn decimal_text_i64(v: i64) -> (r: String)
    ensures
        r@ == ascii_text(decimal_int(v as int)),
{
    let bytes = itoa_i64(v);
    proof {
        lemma_decimal_ascii(v as int);
        lemma_ascii_decode(bytes@);
    }
    crate::fl_slice::utf8_lossy_string(bytes.as_slice())
}

} // verus!
