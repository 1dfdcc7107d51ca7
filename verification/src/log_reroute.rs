//! The engine's log messages as lines of the `log` facade: their domain's short name and
//! their level.
use vstd::prelude::*;
use vstd::utf8::{valid_utf8, decode_utf8};
use crate::fl_slice::{utf8_lossy, utf8_lossy_string, utf8_str};

verus! {

/// The log domains of the engine that have a short name here.
#[derive(Clone, Copy, PartialEq, Eq, Structural, Debug)]
pub enum KnownLogDomain {
    Default,
    Database,
    Query,
    Sync,
    WebSocket,
}

/// The short name of a known domain.
pub open spec fn spec_known_domain_name(d: KnownLogDomain) -> Seq<char> {
    match d {
        KnownLogDomain::Default => "def"@,
        KnownLogDomain::Database => "db"@,
        KnownLogDomain::Query => "query"@,
        KnownLogDomain::Sync => "sync"@,
        KnownLogDomain::WebSocket => "websock"@,
    }
}

/// The name a log line shows for its domain: the short name of a known
/// domain, else the engine's name of the domain when it is UTF-8, else "unkndmn".
pub fn domain_name<'a>(known: Option<KnownLogDomain>, engine_name: &'a [u8]) -> (r: &'a str)
    ensures
        known matches Some(d) ==> r@ == spec_known_domain_name(d),
        known is None && valid_utf8(engine_name@) ==> r@ == decode_utf8(engine_name@),
        known is None && !valid_utf8(engine_name@) ==> r@ == "unkndmn"@,
{
    match known {
        Some(KnownLogDomain::Default) => "def",
        Some(KnownLogDomain::Database) => "db",
        Some(KnownLogDomain::Query) => "query",
        Some(KnownLogDomain::Sync) => "sync",
        Some(KnownLogDomain::WebSocket) => "websock",
        None => match utf8_str(engine_name) {
            Some(s) => {
                proof {
                    crate::fl_slice::lemma_str_bytes_decode(s);
                }
                s
            },
            None => "unkndmn",
        },
    }
}

/// The levels of the `log` facade.
#[derive(Clone, Copy, PartialEq, Eq, Structural, Debug)]
pub enum LogLevel {
    Error,
    Warn,
    Info,
    Debug,
    Trace,
}

/// The facade's level for an engine level (`C4LogLevel`, by its code): debug is traced,
/// verbose is debug, an error and "none" are errors, an unknown level is info.
pub open spec fn spec_log_level(code: i8) -> LogLevel {
    if code == 0 {
        LogLevel::Trace
    } else if code == 1 {
        LogLevel::Debug
    } else if code == 2 {
        LogLevel::Info
    } else if code == 3 {
        LogLevel::Warn
    } else if code == 4 || code == 5 {
        LogLevel::Error
    } else {
        LogLevel::Info
    }
}

/// The facade's level for the engine level with code `code`.
pub fn log_level(code: i8) -> (r: LogLevel)
    ensures
        r == spec_log_level(code),
{
    if code == 0 {
        LogLevel::Trace
    } else if code == 1 {
        LogLevel::Debug
    } else if code == 2 {
        LogLevel::Info
    } else if code == 3 {
        LogLevel::Warn
    } else if code == 4 || code == 5 {
        LogLevel::Error
    } else {
        LogLevel::Info
    }
}

/// The text of a log line: the domain's name, a space and the message decoded with
/// replacement of bad bytes, or "<null>" when the engine gave no message.
pub fn log_line(domain: &str, message: Option<&[u8]>) -> (r: String)
    ensures
        message matches Some(m) ==> r@ == domain@ + " "@ + utf8_lossy(m@),
        message is None ==> r@ == domain@ + " <null>"@,
{
    let mut line = String::from_str(domain);
    match message {
        Some(m) => {
            line.append(" ");
            let text = utf8_lossy_string(m);
            line.append(text.as_str());
        },
        None => {
            line.append(" <null>");
        },
    }
    line
}

/// How engine levels land on the facade's levels, over every code: only the engine's
/// debug level (0) is traced, only its verbose level (1) is debug, only its warning level
/// (3) is a warning, only its error (4) and "none" (5) levels are errors, and every other
/// code, the info level (2) among them, is info.
pub proof fn lemma_log_level_table(code: i8)
    ensures
        spec_log_level(code) == LogLevel::Trace <==> code == 0,
        spec_log_level(code) == LogLevel::Debug <==> code == 1,
        spec_log_level(code) == LogLevel::Warn <==> code == 3,
        spec_log_level(code) == LogLevel::Error <==> (code == 4 || code == 5),
        spec_log_level(code) == LogLevel::Info <==> !(0 <= code <= 5) || code == 2,
{
}

} // verus!
