//! The HTTP request that opens a replication WebSocket, made from the engine's address and
//! socket options.
use vstd::prelude::*;
use vstd::utf8::valid_utf8;
use vstd::string::StringSliceAdditionalSpecFns;
use crate::error::C4ErrorDomain;
use crate::fleece::{FlValue, dict_get, spec_key_index};
use crate::socket::{SocketError, invalid_request_error, K_NET_ERR_INVALID_URL};
use crate::text::{decimal_int, itoa_u64};
use crate::fl_slice::utf8_str;

verus! {

/// Makes `http::Uri` known to the verifier, as an opaque type.
#[verifier::external_type_specification]
#[verifier::external_body]
pub struct ExUri(http::Uri);

/// Makes `http::Request` known to the verifier, as an opaque type.
#[verifier::external_type_specification]
#[verifier::external_body]
#[verifier::reject_recursive_types(T)]
pub struct ExRequest<T>(http::Request<T>);

/// A request with no body, as the WebSocket handshake sends it.
pub type WsRequest = http::Request<()>;

/// What building a URI out of a scheme, an authority and a path and query gives:
/// `None` when the parts make a URI, else the error's text.
pub uninterp spec fn uri_build_error(scheme: Seq<u8>, authority: Seq<u8>, path: Seq<u8>) -> Option<
    Seq<char>,
>;

/// The headers of a request: each lower-case name with its value.
pub uninterp spec fn request_headers(req: http::Request<()>) -> Map<Seq<char>, Seq<u8>>;

/// The URI that `http::Uri::builder()` builds out of a scheme, an authority and a path and
/// query, when it builds one.
pub uninterp spec fn built_uri(scheme: Seq<u8>, authority: Seq<u8>, path: Seq<u8>) -> http::Uri;

/// The URI a request is addressed to.
pub uninterp spec fn request_uri(req: http::Request<()>) -> http::Uri;

/// No header at all.
pub open spec fn no_headers() -> Map<Seq<char>, Seq<u8>> {
    Map::empty()
}

/// Whether `http::HeaderValue::from_str` accepts these bytes: every byte is a tab or at
/// least 32, and none is 127.
pub open spec fn header_value_valid(bytes: Seq<u8>) -> bool {
    forall|i: int| 0 <= i < bytes.len() ==> ((bytes[i] >= 32 && bytes[i] != 127) || bytes[i] == 9)
}

/// Whether a name is made of lower-case letters and hyphens only, as the static header
/// names of `http` must be.
pub open spec fn lower_header_name(name: Seq<char>) -> bool {
    name.len() > 0 && forall|i: int| 0 <= i < name.len() ==> (('a' <= name[i] && name[i] <= 'z') || name[i] == '-')
}

/// Builds a URI with `http::Uri::builder()` from a scheme, an authority and a path and
/// query. Whether that succeeds, and the error's text when it does not, are named by
/// `uri_build_error`; the URI built is named by `built_uri`.
#[verifier::external_body]
fn build_uri(scheme: &[u8], authority: &[u8], path: &[u8]) -> (r: Result<http::Uri, String>)
    ensures
        r is Ok <==> uri_build_error(scheme@, authority@, path@) is None,
        r matches Err(m) ==> uri_build_error(scheme@, authority@, path@) == Some(m@),
        r matches Ok(u) ==> u == built_uri(scheme@, authority@, path@),
{
    match http::Uri::builder().scheme(scheme).authority(authority).path_and_query(path).build() {
        Ok(u) => Ok(u),
        Err(e) => Err(e.to_string()),
    }
}

/// A GET request for `uri` with an empty body. Its
/// source sets a method and a URI that convert without failing, so it never fails; the
/// request is addressed to `uri` and has no header yet.
#[verifier::external_body]
fn get_request(uri: http::Uri) -> (r: Result<WsRequest, String>)
    ensures
        r is Ok,
        r matches Ok(q) ==> request_headers(q) == no_headers(),
        r matches Ok(q) ==> request_uri(q) == uri,
{
    match http::Request::get(uri).body(()) {
        Ok(q) => Ok(q),
        Err(e) => Err(e.to_string()),
    }
}

/// Sets the header `name` of `req` to `value` (`http::HeaderValue::from_str`, then
/// `HeaderMap::insert`, which replaces an earlier value of the name). The value is refused,
/// with the error's text, when one of its bytes is not allowed; the request is then left
/// as it was. The request's URI is not touched.
#[verifier::external_body]
fn insert_header(req: &mut http::Request<()>, name: &'static str, value: &str) -> (r: Result<(), String>)
    requires
        lower_header_name(name@),
    ensures
        r is Ok <==> header_value_valid(value.spec_bytes()),
        r is Ok ==> request_headers(*final(req)) == request_headers(*old(req)).insert(name@, value.spec_bytes()),
        r matches Err(m) ==> m@ == "failed to parse header value"@,
        r is Err ==> *final(req) == *old(req),
        request_uri(*final(req)) == request_uri(*old(req)),
{
    match http::HeaderValue::from_str(value) {
        Ok(v) => {
            req.headers_mut().insert(name, v);
            Ok(())
        },
        Err(e) => Err(e.to_string()),
    }
}

/// The address the engine asks to connect to.
pub struct C4Address {
    pub scheme: Vec<u8>,
    pub hostname: Vec<u8>,
    pub port: u16,
    pub path: Vec<u8>,
}

/// The authority of the URI: the host name, a colon and the port in decimal.
pub open spec fn spec_authority(host: Seq<u8>, port: u16) -> Seq<u8> {
    host + seq![58u8] + decimal_int(port as int)
}

/// The key of the extra headers among the socket options.
pub open spec fn extra_headers_key() -> Seq<u8> {
    seq![104u8, 101, 97, 100, 101, 114, 115]
}

/// The key of the cookies among the socket options.
pub open spec fn cookies_key() -> Seq<u8> {
    seq![99u8, 111, 111, 107, 105, 101, 115]
}

/// The key of the WebSocket protocols among the socket options.
pub open spec fn protocols_key() -> Seq<u8> {
    seq![87u8, 83, 45, 80, 114, 111, 116, 111, 99, 111, 108, 115]
}

/// The value under `key` in the options, if there is one.
pub open spec fn option_value(entries: Seq<(Vec<u8>, FlValue)>, key: Seq<u8>) -> Option<FlValue> {
    if spec_key_index(entries, key) >= 0 {
        Some(entries[spec_key_index(entries, key)].1)
    } else {
        None
    }
}

/// The bytes of the text under `key` in the options, when there is a text there.
pub open spec fn option_text(entries: Seq<(Vec<u8>, FlValue)>, key: Seq<u8>) -> Option<Seq<u8>> {
    match option_value(entries, key) {
        Some(FlValue::String(b)) => Some(b@),
        _ => None,
    }
}

/// Whether the value under `key` can be read by kind: a missing value, or one that
/// `ValueRef` reads without failing (no data value, text in UTF-8).
pub open spec fn option_readable(entries: Seq<(Vec<u8>, FlValue)>, key: Seq<u8>) -> bool {
    match option_value(entries, key) {
        Some(FlValue::Data(_)) => false,
        Some(FlValue::String(b)) => valid_utf8(b@),
        _ => true,
    }
}

/// Whether the cookies among the options are a text that no header value can hold, so
/// that the request fails there and the protocols are never read.
pub open spec fn cookie_refused(entries: Seq<(Vec<u8>, FlValue)>) -> bool {
    option_text(entries, cookies_key()) matches Some(t) && !header_value_valid(t)
}

/// The options that the headers are made from: every value that is read on the way can be
/// read by kind, and extra headers are not given as a dictionary, which the transport does
/// not handle. The extra headers and the cookies are always read; the protocols only when
/// the cookies did not make the request fail.
pub open spec fn options_supported(options: Option<&FlValue>) -> bool {
    match options {
        Some(FlValue::Dict(d)) => {
            &&& option_readable(d@, extra_headers_key())
            &&& !(option_value(d@, extra_headers_key()) matches Some(FlValue::Dict(_)))
            &&& option_readable(d@, cookies_key())
            &&& (cookie_refused(d@) || option_readable(d@, protocols_key()))
        },
        _ => true,
    }
}

/// Adds the header of an optional text to the headers so far, or fails as `insert_header`
/// does.
pub open spec fn with_header(
    so_far: Result<Map<Seq<char>, Seq<u8>>, Seq<char>>,
    name: Seq<char>,
    text: Option<Seq<u8>>,
) -> Result<Map<Seq<char>, Seq<u8>>, Seq<char>> {
    match so_far {
        Err(e) => Err(e),
        Ok(m) => match text {
            None => Ok(m),
            Some(t) => if header_value_valid(t) {
                Ok(m.insert(name, t))
            } else {
                Err("failed to parse header value"@)
            },
        },
    }
}

/// The headers that the socket options add to a request that has the headers `start`, or
/// the text of the error.
pub open spec fn spec_headers_outcome(start: Map<Seq<char>, Seq<u8>>, options: Option<&FlValue>) -> Result<
    Map<Seq<char>, Seq<u8>>,
    Seq<char>,
> {
    match options {
        None => Err("options argument in open is not fleece Value"@),
        Some(FlValue::Dict(d)) => with_header(
            with_header(Ok(start), "cookie"@, option_text(d@, cookies_key())),
            "sec-websocket-protocol"@,
            option_text(d@, protocols_key()),
        ),
        Some(_) => Err("options argument in open is not fleece Dict"@),
    }
}

/// The headers of the request made from an address and socket options, or the text of the
/// error (all errors are bad-URL network errors).
pub open spec fn spec_request_outcome(addr: C4Address, options: Option<&FlValue>) -> Result<
    Map<Seq<char>, Seq<u8>>,
    Seq<char>,
> {
    match uri_build_error(addr.scheme@, spec_authority(addr.hostname@, addr.port), addr.path@) {
        Some(m) => Err(m),
        None => spec_headers_outcome(no_headers(), options),
    }
}

fn network_error(msg: &str) -> (r: SocketError)
    ensures
        r.domain == C4ErrorDomain::NetworkDomain,
        r.code == K_NET_ERR_INVALID_URL,
        r.message@ == msg@,
{
    invalid_request_error(String::from_str(msg))
}

/// The text under `key` in `entries`, when the value there is a text.
fn text_option<'a>(entries: &'a Vec<(Vec<u8>, FlValue)>, key: &[u8]) -> (r: Option<&'a str>)
    requires
        option_readable(entries@, key@),
    ensures
        r is Some <==> option_text(entries@, key@) is Some,
        r matches Some(s) ==> s.spec_bytes() == option_text(entries@, key@)->0,
{
    match dict_get(entries, key) {
        Some(FlValue::String(b)) => utf8_str(b.as_slice()),
        _ => None,
    }
}

/// Sets a header from an optional text, as the request is built.
fn add_text_header(
    req: &mut http::Request<()>,
    name: &'static str,
    text: Option<&str>,
) -> (r: Result<(), SocketError>)
    requires
        lower_header_name(name@),
    ensures
        text is None ==> r is Ok && request_headers(*final(req)) == request_headers(*old(req)),
        request_uri(*final(req)) == request_uri(*old(req)),
        text matches Some(t) ==> (r is Ok <==> header_value_valid(t.spec_bytes())),
        text matches Some(t) ==> (r is Ok ==> request_headers(*final(req)) == request_headers(*old(
            req,
        )).insert(name@, t.spec_bytes())),
        r matches Err(e) ==> e.domain == C4ErrorDomain::NetworkDomain && e.code
            == K_NET_ERR_INVALID_URL && e.message@ == "failed to parse header value"@,
{
    match text {
        None => Ok(()),
        Some(t) => match insert_header(req, name, t) {
            Ok(()) => Ok(()),
            Err(m) => Err(invalid_request_error(m)),
        },
    }
}

/// A GET request, with no header yet, of the URI built from the address's scheme, host and
/// port, and path; the error when the URI cannot be built.
pub fn address_request(addr: &C4Address) -> (r: Result<http::Request<()>, SocketError>)
    ensures
        r is Ok <==> uri_build_error(addr.scheme@, spec_authority(addr.hostname@, addr.port), addr.path@) is None,
        r matches Ok(q) ==> request_headers(q) == no_headers() && request_uri(q) == built_uri(
            addr.scheme@,
            spec_authority(addr.hostname@, addr.port),
            addr.path@,
        ),
        r matches Err(e) ==> e.domain == C4ErrorDomain::NetworkDomain && e.code == K_NET_ERR_INVALID_URL
            && uri_build_error(addr.scheme@, spec_authority(addr.hostname@, addr.port), addr.path@)
            == Some(e.message@),
{
    let mut authority = vstd::slice::slice_to_vec(addr.hostname.as_slice());
    authority.push(58u8);
    let mut port_text = itoa_u64(addr.port as u64);
    authority.append(&mut port_text);
    assert(authority@ =~= spec_authority(addr.hostname@, addr.port));
    let uri = match build_uri(addr.scheme.as_slice(), authority.as_slice(), addr.path.as_slice()) {
        Ok(u) => u,
        Err(m) => return Err(invalid_request_error(m)),
    };
    match get_request(uri) {
        Ok(q) => Ok(q),
        Err(m) => Err(invalid_request_error(m)),
    }
}

/// Adds the cookies and WebSocket protocols of the socket options to `req` as headers.
/// `options` is the options' Fleece value, `None` when the data is not Fleece. The
/// request's URI is not touched.
pub fn add_option_headers(req: &mut http::Request<()>, options: Option<&FlValue>) -> (r: Result<(), SocketError>)
    requires
        options_supported(options),
    ensures
        request_uri(*final(req)) == request_uri(*old(req)),
        r is Ok <==> spec_headers_outcome(request_headers(*old(req)), options) is Ok,
        r is Ok ==> spec_headers_outcome(request_headers(*old(req)), options) == Ok::<
            Map<Seq<char>, Seq<u8>>,
            Seq<char>,
        >(request_headers(*final(req))),
        r matches Err(e) ==> e.domain == C4ErrorDomain::NetworkDomain && e.code == K_NET_ERR_INVALID_URL
            && spec_headers_outcome(request_headers(*old(req)), options) == Err::<
            Map<Seq<char>, Seq<u8>>,
            Seq<char>,
        >(e.message@),
{
    let entries = match options {
        None => return Err(network_error("options argument in open is not fleece Value")),
        Some(FlValue::Dict(d)) => d,
        Some(_) => return Err(network_error("options argument in open is not fleece Dict")),
    };
    proof {
        reveal_strlit("cookie");
        reveal_strlit("sec-websocket-protocol");
        reveal_strlit("cookies");
        reveal_strlit("WS-Protocols");
        vstd::string::is_ascii_spec_bytes("cookies");
        vstd::string::is_ascii_spec_bytes("WS-Protocols");
    }
    assert("cookies".spec_bytes() =~= cookies_key());
    assert("WS-Protocols".spec_bytes() =~= protocols_key());
    let cookies = text_option(entries, "cookies".as_bytes());
    add_text_header(req, "cookie", cookies)?;
    let protocols = text_option(entries, "WS-Protocols".as_bytes());
    add_text_header(req, "sec-websocket-protocol", protocols)?;
    Ok(())
}

/// Whether `r` is the request made from `addr` and `options`: the headers and the URI on
/// success, the bad-URL network error with the outcome's text on failure.
pub open spec fn is_request_for(addr: C4Address, options: Option<&FlValue>, r: Result<http::Request<()>, SocketError>) -> bool {
    &&& (r is Ok <==> spec_request_outcome(addr, options) is Ok)
    &&& (r matches Ok(q) ==> spec_request_outcome(addr, options) == Ok::<
        Map<Seq<char>, Seq<u8>>,
        Seq<char>,
    >(request_headers(q)))
    &&& (r matches Ok(q) ==> request_uri(q) == built_uri(
        addr.scheme@,
        spec_authority(addr.hostname@, addr.port),
        addr.path@,
    ))
    &&& (r matches Err(e) ==> e.domain == C4ErrorDomain::NetworkDomain && e.code == K_NET_ERR_INVALID_URL
        && spec_request_outcome(addr, options) == Err::<Map<Seq<char>, Seq<u8>>, Seq<char>>(
        e.message@,
    ))
}

/// The request that opens the WebSocket for `addr`: a GET of the URI built from the
/// address's scheme, host and port, and path, with the cookies and WebSocket protocols of
/// the socket options as headers. The options are read only once the URI is built.
pub fn c4address_to_request(addr: &C4Address, options: Option<&FlValue>) -> (r: Result<
    http::Request<()>,
    SocketError,
>)
    requires
        uri_build_error(addr.scheme@, spec_authority(addr.hostname@, addr.port), addr.path@) is None
            ==> options_supported(options),
    ensures
        is_request_for(*addr, options, r),
{
    let mut req = address_request(addr)?;
    add_option_headers(&mut req, options)?;
    Ok(req)
}

/// Whether a value read under a key can be read by kind: no data value, and text in UTF-8.
fn value_readable(v: Option<&FlValue>) -> (r: bool)
    ensures
        r == (match v {
            Some(FlValue::Data(_)) => false,
            Some(FlValue::String(b)) => valid_utf8(b@),
            _ => true,
        }),
{
    match v {
        Some(FlValue::Data(_)) => false,
        Some(FlValue::String(b)) => utf8_str(b.as_slice()).is_some(),
        _ => true,
    }
}

/// Whether a header value may hold these bytes.
fn header_value_ok(b: &[u8]) -> (r: bool)
    ensures
        r == header_value_valid(b@),
{
    let mut i: usize = 0;
    while i < b.len()
        invariant
            i <= b@.len(),
            forall|j: int| 0 <= j < i ==> ((b@[j] >= 32 && b@[j] != 127) || b@[j] == 9),
        decreases b@.len() - i,
    {
        let c = b[i];
        if !((c >= 32 && c != 127) || c == 9) {
            return false;
        }
        i = i + 1;
    }
    true
}

/// Whether the socket options are ones the request can be made from (`options_supported`).
pub fn options_supported_check(options: Option<&FlValue>) -> (r: bool)
    ensures
        r == options_supported(options),
{
    let d = match options {
        Some(FlValue::Dict(d)) => d,
        _ => return true,
    };
    proof {
        reveal_strlit("headers");
        reveal_strlit("cookies");
        reveal_strlit("WS-Protocols");
        vstd::string::is_ascii_spec_bytes("headers");
        vstd::string::is_ascii_spec_bytes("cookies");
        vstd::string::is_ascii_spec_bytes("WS-Protocols");
    }
    assert("headers".spec_bytes() =~= extra_headers_key());
    assert("cookies".spec_bytes() =~= cookies_key());
    assert("WS-Protocols".spec_bytes() =~= protocols_key());
    let headers = dict_get(d, "headers".as_bytes());
    if !value_readable(headers) {
        return false;
    }
    if let Some(FlValue::Dict(_)) = headers {
        return false;
    }
    let cookies = dict_get(d, "cookies".as_bytes());
    if !value_readable(cookies) {
        return false;
    }
    if let Some(FlValue::String(b)) = cookies {
        if !header_value_ok(b.as_slice()) {
            return true;
        }
    }
    value_readable(dict_get(d, "WS-Protocols".as_bytes()))
}

/// The request that opens the WebSocket for `addr` when the options it reads are supported;
/// `None` when the URI is built and the options then read are not supported, which the
/// transport does not handle.
pub fn request_if_supported(addr: &C4Address, options: Option<&FlValue>) -> (r: Option<
    Result<http::Request<()>, SocketError>,
>)
    ensures
        r is None <==> (uri_build_error(addr.scheme@, spec_authority(addr.hostname@, addr.port), addr.path@)
            is None && !options_supported(options)),
        r matches Some(x) ==> is_request_for(*addr, options, x),
{
    let uri_ok = address_request(addr).is_ok();
    if uri_ok && !options_supported_check(options) {
        None
    } else {
        Some(c4address_to_request(addr, options))
    }
}

} // verus!
