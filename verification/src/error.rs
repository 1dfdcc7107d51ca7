//! Errors of the database layer.
use vstd::prelude::*;
use crate::fleece_error;
use crate::fl_slice::{utf8_lossy, utf8_lossy_string};
use crate::text::{ascii_text, decimal_int, decimal_text_i64, decimal_text_u64};

verus! {

/// The domain of an engine error code.
#[derive(Clone, Copy, PartialEq, Eq, Structural, Debug)]
pub enum C4ErrorDomain {
    LiteCoreDomain,
    POSIXDomain,
    SQLiteDomain,
    FleeceDomain,
    NetworkDomain,
    WebSocketDomain,
    MbedTLSDomain,
    MaxErrorDomainPlus1,
}

/// An error reported by the storage engine.
#[derive(Clone, Copy, PartialEq, Eq, Structural, Debug)]
pub struct C4Error {
    pub domain: C4ErrorDomain,
    pub code: i32,
    pub internal_info: u32,
}

/// The engine's code for a missing document.
pub const K_C4_ERROR_NOT_FOUND: i32 = 7;

/// The engine's code for a save that conflicts with a newer revision.
pub const K_C4_ERROR_CONFLICT: i32 = 8;

/// A text argument that holds a NUL byte: where the byte is, and
/// the bytes of the text.
#[derive(Debug)]
pub struct NulError {
    pub position: usize,
    pub bytes: Vec<u8>,
}

/// Errors of the database layer.
#[derive(Debug)]
pub enum Error {
    /// An error of the storage engine.
    C4Error(C4Error),
    /// A text was not valid UTF-8.
    InvalidUtf8,
    /// Some invariant was broken.
    LogicError(String),
    /// An error of reading or writing Fleece.
    SerdeFleece(fleece_error::Error),
    /// An argument contains a NUL byte.
    NulError(NulError),
    /// A query could not be compiled.
    InvalidQuery { pos: i32, query_expr: String, err: C4Error },
}

/// What an error is, as plain values.
pub enum ErrorKind {
    C4Error(C4Error),
    InvalidUtf8,
    LogicError(Seq<char>),
    SerdeFleece(fleece_error::ErrorV),
    NulError(usize, Seq<u8>),
    InvalidQuery(i32, Seq<char>, C4Error),
}

impl View for Error {
    type V = ErrorKind;

    open spec fn view(&self) -> ErrorKind {
        match self {
            Error::C4Error(e) => ErrorKind::C4Error(*e),
            Error::InvalidUtf8 => ErrorKind::InvalidUtf8,
            Error::LogicError(m) => ErrorKind::LogicError(m@),
            Error::SerdeFleece(e) => ErrorKind::SerdeFleece(e@),
            Error::NulError(n) => ErrorKind::NulError(n.position, n.bytes@),
            Error::InvalidQuery { pos, query_expr, err } => ErrorKind::InvalidQuery(
                *pos,
                query_expr@,
                *err,
            ),
        }
    }
}

/// The error value handed to the engine before a call that may fail.
pub fn c4error_init() -> (r: C4Error)
    ensures
        r.domain == C4ErrorDomain::MaxErrorDomainPlus1,
        r.code == 0,
        r.internal_info == 0,
{
    C4Error { domain: C4ErrorDomain::MaxErrorDomainPlus1, code: 0, internal_info: 0 }
}

/// Whether an engine error says that a document does not exist.
pub open spec fn is_not_found(e: C4Error) -> bool {
    e.domain == C4ErrorDomain::LiteCoreDomain && e.code == K_C4_ERROR_NOT_FOUND
}

/// Whether an engine error says that a save met a newer revision.
pub open spec fn is_conflict(e: C4Error) -> bool {
    e.domain == C4ErrorDomain::LiteCoreDomain && e.code == K_C4_ERROR_CONFLICT
}

impl Error {
    /// An engine error.
    pub fn from_c4(err: C4Error) -> (r: Error)
        ensures
            r@ == ErrorKind::C4Error(err),
    {
        Error::C4Error(err)
    }

    /// A Fleece error.
    pub fn from_fleece(err: fleece_error::Error) -> (r: Error)
        ensures
            r@ == ErrorKind::SerdeFleece(err@),
    {
        Error::SerdeFleece(err)
    }

    /// A NUL byte in an argument.
    pub fn from_nul(err: NulError) -> (r: Error)
        ensures
            r@ == ErrorKind::NulError(err.position, err.bytes@),
    {
        Error::NulError(err)
    }

    /// A broken invariant, described by `msg`.
    pub fn logic(msg: &str) -> (r: Error)
        ensures
            r@ == ErrorKind::LogicError(msg@),
    {
        Error::LogicError(String::from_str(msg))
    }

    /// Whether this is the engine's "not found" error.
    pub fn is_c4_not_found(&self) -> (r: bool)
        ensures
            r == (self@ matches ErrorKind::C4Error(e) && is_not_found(e)),
    {
        match self {
            Error::C4Error(e) => {
                matches!(e.domain, C4ErrorDomain::LiteCoreDomain) && e.code == K_C4_ERROR_NOT_FOUND
            },
            _ => false,
        }
    }
}

/// Checks that `s` holds no NUL byte, as `CString::new` does: the error gives the
/// position of the first one.
pub fn check_no_nul(s: &[u8]) -> (r: Result<(), NulError>)
    ensures
        r is Ok <==> forall|j: int| 0 <= j < s@.len() ==> s@[j] != 0,
        r matches Err(e) ==> e.position < s@.len() && s@[e.position as int] == 0 && forall|j: int|
            0 <= j < e.position ==> s@[j] != 0,
        r matches Err(e) ==> e.bytes@ == s@,
{
    let mut i: usize = 0;
    while i < s.len()
        invariant
            i <= s@.len(),
            forall|j: int| 0 <= j < i ==> s@[j] != 0,
        decreases s@.len() - i,
    {
        if s[i] == 0 {
            return Err(NulError { position: i, bytes: vstd::slice::slice_to_vec(s) });
        }
        i = i + 1;
    }
    Ok(())
}

/// The outcome of an engine call that reports success, or failure with an error filled in
/// (a call that returns a flag, or an object that is null on failure).
pub fn engine_result(ok: bool, err: C4Error) -> (r: Result<(), Error>)
    ensures
        ok ==> r is Ok,
        !ok ==> (r matches Err(e) && e@ == ErrorKind::C4Error(err)),
{
    if ok {
        Ok(())
    } else {
        Err(Error::C4Error(err))
    }
}

/// The text of an error: `desc` and `msg` are the engine's description and
/// message of the engine error that it holds, when it holds one.
pub open spec fn spec_display(k: ErrorKind, desc: Seq<char>, msg: Seq<char>) -> Seq<char> {
    match k {
        ErrorKind::C4Error(_) => "c4 error "@ + desc + ": "@ + msg,
        ErrorKind::InvalidUtf8 => "Utf8 encoding error"@,
        ErrorKind::LogicError(m) => "logic error: "@ + m,
        ErrorKind::SerdeFleece(e) => "serde+flecce error: "@ + fleece_error::spec_message(e),
        ErrorKind::NulError(pos, _) => "argument contains null character: "@
            + "nul byte found in provided data at position: "@ + ascii_text(decimal_int(pos as int)),
        ErrorKind::InvalidQuery(pos, expr, _) => "Can not parse query "@ + expr + ", error at "@
            + ascii_text(decimal_int(pos as int)) + ": "@ + desc + " "@ + msg,
    }
}

impl Error {
    /// The text of the error. `desc` and `msg` are the bytes of the engine's
    /// description and message of the engine error it holds (`c4error_getDescription`,
    /// `c4error_getMessage`), read with replacement of bad bytes; they are not used for
    /// the other errors.
    pub fn to_message(&self, desc: &[u8], msg: &[u8]) -> (r: String)
        ensures
            r@ == spec_display(self@, utf8_lossy(desc@), utf8_lossy(msg@)),
    {
        match self {
            Error::C4Error(_) => {
                let mut s = String::from_str("c4 error ");
                let d = utf8_lossy_string(desc);
                s.append(d.as_str());
                s.append(": ");
                let m = utf8_lossy_string(msg);
                s.append(m.as_str());
                s
            },
            Error::InvalidUtf8 => String::from_str("Utf8 encoding error"),
            Error::LogicError(m) => {
                let mut s = String::from_str("logic error: ");
                s.append(m.as_str());
                s
            },
            Error::SerdeFleece(e) => {
                let mut s = String::from_str("serde+flecce error: ");
                let t = e.to_message();
                s.append(t.as_str());
                s
            },
            Error::NulError(n) => {
                let mut s = String::from_str("argument contains null character: ");
                s.append("nul byte found in provided data at position: ");
                let p = decimal_text_u64(n.position as u64);
                s.append(p.as_str());
                s
            },
            Error::InvalidQuery { pos, query_expr, err: _ } => {
                let mut s = String::from_str("Can not parse query ");
                s.append(query_expr.as_str());
                s.append(", error at ");
                let p = decimal_text_i64(*pos as i64);
                s.append(p.as_str());
                s.append(": ");
                let d = utf8_lossy_string(desc);
                s.append(d.as_str());
                s.append(" ");
                let m = utf8_lossy_string(msg);
                s.append(m.as_str());
                s
            },
        }
    }
}

} // verus!
