//! Errors of the Fleece encoder and decoder.
use vstd::prelude::*;

verus! {

/// Error codes reported by the Fleece encoder.
#[derive(Clone, Copy, PartialEq, Eq, Structural, Debug)]
pub enum FlError {
    NoError,
    MemoryError,
    OutOfRange,
    InvalidData,
    EncodeError,
    JSONError,
    UnknownValue,
    InternalError,
    NotFound,
    SharedKeysStateError,
    POSIXError,
    Unsupported,
    Unknown,
}

/// Errors of serialization into, and deserialization out of, Fleece.
#[derive(Debug)]
pub enum Error {
    Fleece(FlError),
    Custom(String),
    Unsupported(&'static str),
    InvalidFormat(String),
}

/// What an `Error` says, as plain values.
pub enum ErrorV {
    Fleece(FlError),
    Custom(Seq<char>),
    Unsupported(Seq<char>),
    InvalidFormat(Seq<char>),
}

impl View for Error {
    type V = ErrorV;

    open spec fn view(&self) -> ErrorV {
        match self {
            Error::Fleece(e) => ErrorV::Fleece(*e),
            Error::Custom(s) => ErrorV::Custom(s@),
            Error::Unsupported(s) => ErrorV::Unsupported(s@),
            Error::InvalidFormat(s) => ErrorV::InvalidFormat(s@),
        }
    }
}

impl Error {
    /// The error of an encoder that reported `err`.
    pub fn from_fl_error(err: FlError) -> (r: Error)
        ensures
            r@ == ErrorV::Fleece(err),
    {
        Error::Fleece(err)
    }

    /// A text that is not valid UTF-8 was met.
    pub fn invalid_utf8() -> (r: Error)
        ensures
            r@ == ErrorV::InvalidFormat("not valid utf-8"@),
    {
        Error::InvalidFormat(String::from_str("not valid utf-8"))
    }

    /// A custom error raised by a serialized or deserialized type.
    pub fn custom(msg: String) -> (r: Error)
        ensures
            r@ == ErrorV::Custom(msg@),
    {
        Error::Custom(msg)
    }

    /// An error of a failed parse of a textual dictionary key, `what` naming the target
    /// type (such as "integer") and `detail` the parser's own message.
    pub fn parse_failed(what: &str, detail: &str) -> (r: Error)
        ensures
            r@ == ErrorV::InvalidFormat("parsing of "@ + what@ + " failed: "@ + detail@),
    {
        let mut msg = String::from_str("parsing of ");
        msg.append(what);
        msg.append(" failed: ");
        msg.append(detail);
        Error::InvalidFormat(msg)
    }

    /// The human readable text of a Fleece error code.
    pub fn fleece_message(err: FlError) -> (r: &'static str)
        ensures
            r@ == spec_fleece_message(err),
    {
        match err {
            FlError::NoError => "No error",
            FlError::MemoryError => "Out of memory, or allocation failed",
            FlError::OutOfRange => " Array index or iterator out of range",
            FlError::InvalidData => "Bad input data (NaN, non-string key, etc.)",
            FlError::EncodeError => "Structural error encoding (missing value, too many ends, etc.)",
            FlError::JSONError => "Error parsing JSON",
            FlError::UnknownValue => "Unparseable data in a Value (corrupt? Or from some distant future?)",
            FlError::InternalError => "Something that shouldn't happen",
            FlError::NotFound => "Key not found",
            FlError::SharedKeysStateError => "Misuse of shared keys (not in transaction, etc.)",
            FlError::POSIXError => "Posix error",
            FlError::Unsupported => "Operation is unsupported",
            FlError::Unknown => "Unknown fleece error",
        }
    }

    /// The text that describes this error to a person.
    pub fn to_message(&self) -> (r: String)
        ensures
            r@ == spec_message(self@),
    {
        match self {
            Error::Fleece(err) => {
                let mut s = String::from_str("FLeece error: ");
                s.append(Error::fleece_message(*err));
                s
            },
            Error::Custom(msg) => {
                let mut s = String::from_str("Custom error: ");
                s.append(msg.as_str());
                s
            },
            Error::Unsupported(msg) => {
                let mut s = String::from_str("Unsupporte operation: ");
                s.append(msg);
                s
            },
            Error::InvalidFormat(msg) => {
                let mut s = String::from_str("invalid fleece data: ");
                s.append(msg.as_str());
                s
            },
        }
    }
}

/// The text of a Fleece error code.
pub open spec fn spec_fleece_message(err: FlError) -> Seq<char> {
    match err {
        FlError::NoError => "No error"@,
        FlError::MemoryError => "Out of memory, or allocation failed"@,
        FlError::OutOfRange => " Array index or iterator out of range"@,
        FlError::InvalidData => "Bad input data (NaN, non-string key, etc.)"@,
        FlError::EncodeError => "Structural error encoding (missing value, too many ends, etc.)"@,
        FlError::JSONError => "Error parsing JSON"@,
        FlError::UnknownValue => "Unparseable data in a Value (corrupt? Or from some distant future?)"@,
        FlError::InternalError => "Something that shouldn't happen"@,
        FlError::NotFound => "Key not found"@,
        FlError::SharedKeysStateError => "Misuse of shared keys (not in transaction, etc.)"@,
        FlError::POSIXError => "Posix error"@,
        FlError::Unsupported => "Operation is unsupported"@,
        FlError::Unknown => "Unknown fleece error"@,
    }
}

/// The text that describes an error.
pub open spec fn spec_message(e: ErrorV) -> Seq<char> {
    match e {
        ErrorV::Fleece(err) => "FLeece error: "@ + spec_fleece_message(err),
        ErrorV::Custom(msg) => "Custom error: "@ + msg,
        ErrorV::Unsupported(msg) => "Unsupporte operation: "@ + msg,
        ErrorV::InvalidFormat(msg) => "invalid fleece data: "@ + msg,
    }
}

} // verus!
