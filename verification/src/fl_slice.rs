//! Byte slices handed between the library and the storage engine, and the small
//! computations made on them.
use vstd::prelude::*;
use vstd::utf8::*;
use vstd::string::StringSliceAdditionalSpecFns;

verus! {

/// A borrowed run of bytes (a `FLSlice`, also used for `FLString`).
#[derive(Clone, Copy)]
pub struct FLSlice<'a> {
    pub bytes: &'a [u8],
}

/// A borrowed run of bytes that the engine keeps on its heap.
#[derive(Clone, Copy)]
pub struct FLHeapSlice<'a> {
    pub bytes: &'a [u8],
}

/// A run of bytes that the caller owns (a `FLSliceResult`).
pub struct FLSliceResult {
    pub bytes: Vec<u8>,
}

/// An owned slice that releases its bytes when dropped.
pub struct FlSliceOwner(pub FLSliceResult);

/// What `String::from_utf8_lossy` makes of a byte sequence.
pub uninterp spec fn utf8_lossy(bytes: Seq<u8>) -> Seq<char>;

/// Decodes `bytes` as UTF-8 with `std::str::from_utf8`: `Some` exactly when the bytes are
/// valid UTF-8, and then a text whose encoding is these bytes.
#[verifier::external_body]
pub(crate) fn utf8_str(bytes: &[u8]) -> (r: Option<&str>)
    ensures
        r is Some <==> valid_utf8(bytes@),
        r matches Some(s) ==> s.spec_bytes() == bytes@,
{
    std::str::from_utf8(bytes).ok()
}

/// Decodes `bytes` with `String::from_utf8_lossy`, which replaces each invalid sequence
/// with U+FFFD; on valid UTF-8 it is the plain decoding. The text made of invalid input
/// is named, not stated.
#[verifier::external_body]
pub(crate) fn utf8_lossy_string(bytes: &[u8]) -> (r: String)
    ensures
        r@ == utf8_lossy(bytes@),
        valid_utf8(bytes@) ==> r@ == decode_utf8(bytes@),
{
    String::from_utf8_lossy(bytes).into_owned()
}

/// The text of a string that decoding its own bytes gives back.
pub proof fn lemma_str_bytes_decode(s: &str)
    ensures
        valid_utf8(s.spec_bytes()),
        decode_utf8(s.spec_bytes()) == s@,
{
    encode_utf8_valid_utf8(s@);
    encode_utf8_decode_utf8(s@);
}

/// Byte-wise equality of two slices.
pub fn bytes_eq(a: &[u8], b: &[u8]) -> (r: bool)
    ensures
        r == (a@ == b@),
{
    if a.len() != b.len() {
        return false;
    }
    let mut i: usize = 0;
    while i < a.len()
        invariant
            a@.len() == b@.len(),
            i <= a@.len(),
            forall|j: int| 0 <= j < i ==> a@[j] == b@[j],
        decreases a@.len() - i,
    {
        if a[i] != b[i] {
            return false;
        }
        i = i + 1;
    }
    assert(a@ =~= b@);
    true
}

/// Lexicographic order of byte sequences: the first differing byte decides, and a
/// proper prefix comes first. Negative, zero or positive as `a` sorts before, equal to,
/// or after `b`.
pub open spec fn spec_compare(a: Seq<u8>, b: Seq<u8>) -> int
    decreases a.len(),
{
    if a.len() == 0 {
        if b.len() == 0 { 0 } else { -1 }
    } else if b.len() == 0 {
        1
    } else if a[0] < b[0] {
        -1
    } else if a[0] > b[0] {
        1
    } else {
        spec_compare(a.drop_first(), b.drop_first())
    }
}

/// The order of byte sequences is antisymmetric: swapping the operands negates the
/// comparison, and only equal sequences compare equal.
pub proof fn lemma_compare_antisymmetric(a: Seq<u8>, b: Seq<u8>)
    ensures
        spec_compare(a, b) == -spec_compare(b, a),
        spec_compare(a, b) == 0 <==> a == b,
    decreases a.len(),
{
    if a.len() > 0 && b.len() > 0 && a[0] == b[0] {
        lemma_compare_antisymmetric(a.drop_first(), b.drop_first());
        if a.drop_first() == b.drop_first() {
            assert(a =~= seq![a[0]] + a.drop_first());
            assert(b =~= seq![b[0]] + b.drop_first());
        }
        if a == b {
            assert(a.drop_first() =~= b.drop_first());
        }
    } else if a.len() == 0 && b.len() == 0 {
        assert(a =~= b);
    } else if a.len() > 0 && b.len() > 0 {
        assert(a[0] != b[0]);
        assert(a != b);
    } else {
        assert(a.len() != b.len());
    }
}

proof fn lemma_compare_skip(a: Seq<u8>, b: Seq<u8>, i: int)
    requires
        0 <= i <= a.len(),
        i <= b.len(),
        forall|j: int| 0 <= j < i ==> a[j] == b[j],
    ensures
        spec_compare(a, b) == spec_compare(a.subrange(i, a.len() as int), b.subrange(i, b.len() as int)),
    decreases i,
{
    if i > 0 {
        assert(a.drop_first().subrange(i - 1, a.len() - 1) =~= a.subrange(i, a.len() as int));
        assert(b.drop_first().subrange(i - 1, b.len() - 1) =~= b.subrange(i, b.len() as int));
        lemma_compare_skip(a.drop_first(), b.drop_first(), i - 1);
    } else {
        assert(a.subrange(0, a.len() as int) =~= a);
        assert(b.subrange(0, b.len() as int) =~= b);
    }
}

/// Compares two slices as `FLSlice_Compare` does: -1, 0 or 1 as `a` sorts before, equal
/// to, or after `b` in lexicographic byte order.
pub fn slice_compare(a: FLSlice, b: FLSlice) -> (r: i32)
    ensures
        r == spec_compare(a.bytes@, b.bytes@),
        -1 <= r <= 1,
{
    let x = a.bytes;
    let y = b.bytes;
    let mut i: usize = 0;
    while i < x.len() && i < y.len()
        invariant
            x@ == a.bytes@,
            y@ == b.bytes@,
            i <= x@.len(),
            i <= y@.len(),
            forall|j: int| 0 <= j < i ==> x@[j] == y@[j],
        decreases x@.len() - i,
    {
        if x[i] != y[i] {
            proof {
                lemma_compare_skip(x@, y@, i as int);
                assert(x@.subrange(i as int, x@.len() as int)[0] == x@[i as int]);
                assert(y@.subrange(i as int, y@.len() as int)[0] == y@[i as int]);
            }
            if x[i] < y[i] {
                return -1;
            } else {
                return 1;
            }
        }
        i = i + 1;
    }
    proof {
        lemma_compare_skip(x@, y@, i as int);
    }
    if i < x.len() {
        1
    } else if i < y.len() {
        -1
    } else {
        0
    }
}

/// The empty slice.
pub fn fl_slice_empty<'a>() -> (r: FLSlice<'a>)
    ensures
        r.bytes@.len() == 0,
{
    FLSlice { bytes: &[] }
}

impl<'a> FLSlice<'a> {
    /// The slice that covers the bytes of `s`.
    pub fn from_str(s: &'a str) -> (r: FLSlice<'a>)
        ensures
            r.bytes@ == s.spec_bytes(),
    {
        FLSlice { bytes: s.as_bytes() }
    }

    /// The slice that covers `bytes`.
    pub fn from_bytes(bytes: &'a [u8]) -> (r: FLSlice<'a>)
        ensures
            r.bytes@ == bytes@,
    {
        FLSlice { bytes }
    }

    /// The bytes of the slice (empty for the null slice).
    pub fn as_bytes(&self) -> (r: &'a [u8])
        ensures
            r@ == self.bytes@,
    {
        self.bytes
    }

    /// The slice as text, `None` when its bytes are not valid UTF-8.
    pub fn to_str(&self) -> (r: Option<&'a str>)
        ensures
            r is Some <==> valid_utf8(self.bytes@),
            r matches Some(s) ==> s.spec_bytes() == self.bytes@ && s@ == decode_utf8(self.bytes@),
    {
        let r = utf8_str(self.bytes);
        proof {
            if let Some(s) = r {
                lemma_str_bytes_decode(s);
            }
        }
        r
    }
}

impl<'a> Default for FLSlice<'a> {
    fn default() -> (r: FLSlice<'a>)
        ensures
            r.bytes@.len() == 0,
    {
        fl_slice_empty()
    }
}

impl<'a> FLHeapSlice<'a> {
    /// The same bytes as a plain slice.
    pub fn as_fl_slice(&self) -> (r: FLSlice<'a>)
        ensures
            r.bytes@ == self.bytes@,
    {
        FLSlice { bytes: self.bytes }
    }
}

impl FLSliceResult {
    /// The owned slice that holds `bytes`.
    pub fn new(bytes: Vec<u8>) -> (r: FLSliceResult)
        ensures
            r.bytes@ == bytes@,
    {
        FLSliceResult { bytes }
    }

    /// The bytes of the slice (empty for the null slice).
    pub fn as_bytes(&self) -> (r: &[u8])
        ensures
            r@ == self.bytes@,
    {
        self.bytes.as_slice()
    }

    /// The bytes decoded as UTF-8, each invalid sequence replaced by U+FFFD.
    pub fn as_utf8_lossy(&self) -> (r: String)
        ensures
            r@ == utf8_lossy(self.bytes@),
            valid_utf8(self.bytes@) ==> r@ == decode_utf8(self.bytes@),
    {
        utf8_lossy_string(self.bytes.as_slice())
    }

    /// Whether the slice holds no byte.
    pub fn is_empty(&self) -> (r: bool)
        ensures
            r == (self.bytes@.len() == 0),
    {
        self.bytes.len() == 0
    }

    /// A borrowed view of the same bytes.
    pub fn as_fl_slice(&self) -> (r: FLSlice<'_>)
        ensures
            r.bytes@ == self.bytes@,
    {
        FLSlice { bytes: self.bytes.as_slice() }
    }
}

impl Default for FLSliceResult {
    fn default() -> (r: FLSliceResult)
        ensures
            r.bytes@.len() == 0,
    {
        FLSliceResult { bytes: Vec::new() }
    }
}

impl FlSliceOwner {
    /// Takes ownership of `x`.
    pub fn from_result(x: FLSliceResult) -> (r: FlSliceOwner)
        ensures
            r.0.bytes@ == x.bytes@,
    {
        FlSliceOwner(x)
    }

    /// The bytes of the slice.
    pub fn as_bytes(&self) -> (r: &[u8])
        ensures
            r@ == self.0.bytes@,
    {
        self.0.as_bytes()
    }

    /// The bytes decoded as UTF-8, each invalid sequence replaced by U+FFFD.
    pub fn as_utf8_lossy(&self) -> (r: String)
        ensures
            r@ == utf8_lossy(self.0.bytes@),
            valid_utf8(self.0.bytes@) ==> r@ == decode_utf8(self.0.bytes@),
    {
        self.0.as_utf8_lossy()
    }

    /// A borrowed view of the same bytes.
    pub fn as_fl_slice(&self) -> (r: FLSlice<'_>)
        ensures
            r.bytes@ == self.0.bytes@,
    {
        self.0.as_fl_slice()
    }
}

impl Default for FlSliceOwner {
    fn default() -> (r: FlSliceOwner)
        ensures
            r.0.bytes@.len() == 0,
    {
        FlSliceOwner(FLSliceResult::default())
    }
}

} // verus!
