use couchbase_lite::error::{c4error_init, C4Error, C4ErrorDomain, Error};
use couchbase_lite::fl_slice::FLSliceResult;
use couchbase_lite::fleece::FlValue;
use couchbase_lite::fleece_encoder::FlEncoder;
use couchbase_lite::fleece_error::FlError;
use couchbase_lite::fleece_ser::EncoderOp;
use couchbase_lite::replicator::{
    options_result, replicator_state, restart_check, retry_result, start_result, url_error,
    write_replicator_options, AcceptAllRevisions, C4Progress, C4ReplicatorMode, C4ReplicatorStatus,
    IgnoreDocumentsEnded, IgnoreStateChanges, ReplicatorActivityLevel, ReplicatorAuthentication,
    ReplicatorMode, ReplicatorParameters, ReplicatorState,
};
use couchbase_lite::socket::{
    close_state_code, close_state_from_code, completed_receive, headers_result, headers_to_dict,
    read_step, tungstenite_err_to_c4_err, CloseState, OpenAction, OpenEvent, OpenMachine, OpenPhase,
    ReadAction, ReadEvent, RequestCloseAction, RequestCloseEvent, RequestCloseMachine,
    RequestClosePhase, WsError, WsErrorKind, ClosedReport, SocketError, CLOSE_TIMEOUT_SECS, K_NET_ERR_INVALID_URL,
    K_NET_ERR_NOT_CONNECTED, K_NUM_NET_ERROR_CODES_PLUS_1, K_WEB_SOCKET_CLOSE_NORMAL,
};
use couchbase_lite::ws_request::{
    add_option_headers, address_request, c4address_to_request, options_supported_check, request_if_supported, C4Address,
};

#[test]
fn close_state_round_trips() {
    for s in [CloseState::Open, CloseState::Server, CloseState::Client] {
        assert_eq!(s, close_state_from_code(close_state_code(s)));
    }
    assert_eq!(2, close_state_code(CloseState::Client));
}

#[test]
fn completed_receive_never_goes_below_zero() {
    assert_eq!((6, false), completed_receive(10, 4));
    assert_eq!((0, true), completed_receive(10, 10));
    assert_eq!((0, true), completed_receive(3, 10));
}

#[test]
fn client_close_waits_for_ack() {
    let (mut m, next) = RequestCloseMachine::start(CloseState::Open, 1000, b"bye");
    assert_eq!(CloseState::Client, next);
    assert!(m.is_client_close);
    match m.step(RequestCloseEvent::Writer(true)) {
        Some(RequestCloseAction::SendCloseFrame { code, reason }) => {
            assert_eq!(1000, code);
            assert_eq!("bye", reason);
        }
        _ => panic!("expected a close frame"),
    }
    match m.step(RequestCloseEvent::FrameSent) {
        Some(RequestCloseAction::WaitForAck { timeout_secs }) => assert_eq!(CLOSE_TIMEOUT_SECS, timeout_secs),
        _ => panic!("expected a wait"),
    }
    match m.step(RequestCloseEvent::Ack(false)) {
        Some(RequestCloseAction::StopReadLoopAndReport(e)) => {
            assert_eq!(C4ErrorDomain::WebSocketDomain, e.domain);
            assert_eq!(1000, e.code);
            assert_eq!("bye", e.message);
        }
        _ => panic!("expected a report"),
    }
    assert_eq!(RequestClosePhase::Done, m.phase);
    assert!(m.step(RequestCloseEvent::Ack(true)).is_none());
}

#[test]
fn server_close_reports_after_send() {
    let (mut m, next) = RequestCloseMachine::start(CloseState::Server, -5, &[b'x', 0xff]);
    assert_eq!(CloseState::Server, next);
    assert_eq!(1, m.code);
    assert_eq!("x\u{FFFD}", m.reason);
    assert!(matches!(m.step(RequestCloseEvent::Writer(true)), Some(RequestCloseAction::SendCloseFrame { .. })));
    assert!(matches!(m.step(RequestCloseEvent::FrameSent), Some(RequestCloseAction::Report(e)) if e.code == -5));
}

#[test]
fn close_without_writer_only_stops() {
    let (mut m, _) = RequestCloseMachine::start(CloseState::Open, 1001, b"");
    assert!(matches!(m.step(RequestCloseEvent::Writer(false)), Some(RequestCloseAction::StopReadLoop)));
}

#[test]
fn read_loop_decisions() {
    let (s, a) = read_step(CloseState::Open, ReadEvent::Data(vec![1, 2, 3]));
    assert_eq!(CloseState::Open, s);
    assert!(matches!(a, ReadAction::Deliver(d) if d == vec![1, 2, 3]));
    let (s, a) = read_step(CloseState::Open, ReadEvent::Close(Some((1001, "away".to_string()))));
    assert_eq!(CloseState::Server, s);
    assert!(matches!(a, ReadAction::CloseRequested { code: 1001, reason } if reason == "away"));
    let (_, a) = read_step(CloseState::Open, ReadEvent::Close(None));
    assert!(matches!(a, ReadAction::CloseRequested { code: -1, reason } if reason.is_empty()));
    let (_, a) = read_step(CloseState::Server, ReadEvent::Close(None));
    assert!(matches!(a, ReadAction::Ignore));
    let (_, a) = read_step(CloseState::Client, ReadEvent::Close(None));
    assert!(matches!(a, ReadAction::ConfirmClose));
    let (_, a) = read_step(CloseState::Open, ReadEvent::Stopped);
    assert!(matches!(a, ReadAction::Finish(Err(e))
        if e.code == K_NET_ERR_NOT_CONNECTED && e.message == "open was interrupted by requestClose"));
    let (_, a) = read_step(CloseState::Open, ReadEvent::End);
    assert!(matches!(a, ReadAction::Finish(Ok(()))));
}

#[test]
fn websocket_errors_map_to_engine_codes() {
    let e = tungstenite_err_to_c4_err(&WsError { kind: WsErrorKind::ConnectionClosed, message: "closed".into() });
    assert_eq!((C4ErrorDomain::WebSocketDomain, K_WEB_SOCKET_CLOSE_NORMAL), (e.domain, e.code));
    assert_eq!("closed", e.message);
    let e = tungstenite_err_to_c4_err(&WsError { kind: WsErrorKind::Http(404), message: "HTTP error: 404".into() });
    assert_eq!((C4ErrorDomain::WebSocketDomain, 404), (e.domain, e.code));
    let e = tungstenite_err_to_c4_err(&WsError { kind: WsErrorKind::Io, message: "io".into() });
    assert_eq!((C4ErrorDomain::NetworkDomain, K_NUM_NET_ERROR_CODES_PLUS_1), (e.domain, e.code));
    let e = tungstenite_err_to_c4_err(&WsError { kind: WsErrorKind::Url, message: "url".into() });
    assert_eq!((C4ErrorDomain::NetworkDomain, K_NET_ERR_INVALID_URL), (e.domain, e.code));
}

#[test]
fn headers_become_a_dictionary() {
    let mut enc = FlEncoder::new();
    let headers = vec![("server".to_string(), b"x".to_vec()), ("upgrade".to_string(), b"websocket".to_vec())];
    headers_to_dict(&headers, &mut enc);
    assert_eq!(
        vec![
            EncoderOp::BeginDict(2),
            EncoderOp::WriteKey(b"server".to_vec()),
            EncoderOp::WriteString(b"x".to_vec()),
            EncoderOp::WriteKey(b"upgrade".to_vec()),
            EncoderOp::WriteString(b"websocket".to_vec()),
            EncoderOp::EndDict,
        ],
        enc.ops
    );
    let r = headers_result(true, FLSliceResult::new(vec![]), 4).err().unwrap();
    assert_eq!((C4ErrorDomain::FleeceDomain, 4), (r.domain, r.code));
    assert!(headers_result(true, FLSliceResult::new(vec![1]), 0).is_ok());
}

#[test]
fn open_sequence() {
    let mut m = OpenMachine::new();
    assert!(matches!(m.step(OpenEvent::Connected(101)), Some(OpenAction::EncodeHeaders)));
    match m.step(OpenEvent::HeadersEncoded { all_ok: true, data: FLSliceResult::new(vec![9]), err_code: 0 }) {
        Some(OpenAction::Open { status, headers }) => {
            assert_eq!(101, status);
            assert_eq!(vec![9], headers.as_bytes().to_vec());
        }
        _ => panic!("expected open"),
    }
    assert_eq!(OpenPhase::Reading, m.phase);
    assert!(matches!(m.step(OpenEvent::ReadLoopEnded(Ok(()))), Some(OpenAction::Finish)));
    let mut m = OpenMachine::new();
    let a = m.step(OpenEvent::ConnectFailed(WsError { kind: WsErrorKind::Tls, message: "tls".into() }));
    assert!(matches!(a, Some(OpenAction::Report(e)) if e.domain == C4ErrorDomain::NetworkDomain && e.code == 6));
}

fn address(scheme: &str) -> C4Address {
    C4Address {
        scheme: scheme.as_bytes().to_vec(),
        hostname: b"localhost".to_vec(),
        port: 4984,
        path: b"/db/_blipsync".to_vec(),
    }
}

fn options(entries: Vec<(&str, &str)>) -> FlValue {
    FlValue::Dict(
        entries
            .into_iter()
            .map(|(k, v)| (k.as_bytes().to_vec(), FlValue::String(v.as_bytes().to_vec())))
            .collect(),
    )
}

#[test]
fn request_carries_cookies_and_protocols() {
    let opts = options(vec![("WS-Protocols", "BLIP_3+CBMobile_3"), ("cookies", "a=b")]);
    let req = c4address_to_request(&address("ws"), Some(&opts)).ok().unwrap();
    assert_eq!("ws://localhost:4984/db/_blipsync", req.uri().to_string());
    assert_eq!("a=b", req.headers().get("cookie").unwrap());
    assert_eq!("BLIP_3+CBMobile_3", req.headers().get("sec-websocket-protocol").unwrap());
    let req = c4address_to_request(&address("ws"), Some(&options(vec![]))).ok().unwrap();
    assert!(req.headers().is_empty());
}

#[test]
fn request_errors() {
    let e = c4address_to_request(&address("ws"), None).err().unwrap();
    assert_eq!((C4ErrorDomain::NetworkDomain, K_NET_ERR_INVALID_URL), (e.domain, e.code));
    assert_eq!("options argument in open is not fleece Value", e.message);
    let e = c4address_to_request(&address("ws"), Some(&FlValue::Null)).err().unwrap();
    assert_eq!("options argument in open is not fleece Dict", e.message);
    let e = c4address_to_request(&address("ws"), Some(&options(vec![("cookies", "a\u{7f}")]))).err().unwrap();
    assert_eq!("failed to parse header value", e.message);
    let e = c4address_to_request(&address("w s"), Some(&options(vec![]))).err().unwrap();
    assert_eq!(K_NET_ERR_INVALID_URL, e.code);
}

#[test]
fn parameters_builders() {
    let p = ReplicatorParameters::default();
    assert!(matches!(p.auth, ReplicatorAuthentication::NoAuthentication));
    assert_eq!(
        ReplicatorMode { push: C4ReplicatorMode::Continuous, pull: C4ReplicatorMode::Continuous },
        p.mode
    );
    let p = p
        .with_push_mode(C4ReplicatorMode::OneShot)
        .with_pull_mode(C4ReplicatorMode::Disabled)
        .with_auth(ReplicatorAuthentication::SessionToken("tok".into()))
        .with_validation_func(7u8);
    assert_eq!(C4ReplicatorMode::OneShot, p.mode.push);
    assert_eq!(C4ReplicatorMode::Disabled, p.mode.pull);
    assert_eq!(7u8, p.validation_cb);
    let _: (IgnoreStateChanges, IgnoreDocumentsEnded) = (p.state_changed_callback, p.documents_ended_callback);
    let _ = AcceptAllRevisions;
}

#[test]
fn session_options_dictionary() {
    let mut enc = FlEncoder::new();
    write_replicator_options(&ReplicatorAuthentication::SessionToken("t0k".into()), &mut enc);
    assert_eq!(
        vec![
            EncoderOp::BeginDict(0),
            EncoderOp::WriteKey(b"auth".to_vec()),
            EncoderOp::BeginDict(0),
            EncoderOp::WriteKey(b"type".to_vec()),
            EncoderOp::WriteString(b"Session".to_vec()),
            EncoderOp::WriteKey(b"token".to_vec()),
            EncoderOp::WriteString(b"t0k".to_vec()),
            EncoderOp::EndDict,
            EncoderOp::EndDict,
        ],
        enc.ops
    );
    let mut enc = FlEncoder::new();
    write_replicator_options(&ReplicatorAuthentication::NoAuthentication, &mut enc);
    assert_eq!(vec![EncoderOp::BeginDict(0), EncoderOp::EndDict], enc.ops);
    let e = options_result(false, FLSliceResult::new(vec![1]), FlError::EncodeError).err().unwrap();
    assert!(matches!(e, Error::SerdeFleece(_)));
}

fn status(level: ReplicatorActivityLevel, code: i32) -> C4ReplicatorStatus {
    C4ReplicatorStatus {
        level,
        progress: C4Progress { units_completed: 1, units_total: 2, document_count: 3 },
        error: C4Error { domain: C4ErrorDomain::NetworkDomain, code, internal_info: 0 },
        flags: 0,
    }
}

#[test]
fn replicator_states() {
    assert!(matches!(ReplicatorState::from(status(ReplicatorActivityLevel::Stopping, 0)), ReplicatorState::Busy(p) if p.document_count == 3));
    assert!(matches!(start_result(status(ReplicatorActivityLevel::Stopped, 9)), Err(Error::C4Error(e)) if e.code == 9));
    assert!(start_result(status(ReplicatorActivityLevel::Connecting, 0)).is_ok());
    assert!(matches!(replicator_state(None), Ok(ReplicatorState::Offline)));
    assert!(matches!(replicator_state(Some(status(ReplicatorActivityLevel::Idle, 0))), Ok(ReplicatorState::Idle)));
    assert_eq!(true, retry_result(true, c4error_init()).unwrap());
    assert!(retry_result(false, status(ReplicatorActivityLevel::Idle, 2).error).is_err());
    assert!(matches!(url_error("x"), Error::LogicError(m) if m == "Can not parse URL x"));
    assert!(matches!(restart_check(false, true), Err(Error::LogicError(m)) if m.ends_with("(params)")));
    assert!(matches!(restart_check(true, false), Err(Error::LogicError(m)) if m.ends_with("(repl)")));
    assert!(restart_check(true, true).is_ok());
}

#[test]
fn socket_is_reported_closed_once() {
    let mut report = ClosedReport::new();
    let e = SocketError { domain: C4ErrorDomain::WebSocketDomain, code: 1000, message: "bye".to_string() };
    let first = report.report(e).unwrap();
    assert_eq!(1000, first.code);
    assert_eq!("bye", first.message);
    let e2 = SocketError { domain: C4ErrorDomain::NetworkDomain, code: 22, message: String::new() };
    assert!(report.report(e2).is_none());
    assert!(report.reported);
}

#[test]
fn options_are_read_only_after_the_uri() {
    let mut bad = options(vec![("cookies", "a=b")]);
    if let FlValue::Dict(d) = &mut bad {
        d.push((b"headers".to_vec(), FlValue::Dict(Vec::new())));
    }
    let e = c4address_to_request(&address("w s"), Some(&bad)).err().unwrap();
    assert_eq!(K_NET_ERR_INVALID_URL, e.code);
    let mut refused = options(vec![("cookies", "a\u{7f}")]);
    if let FlValue::Dict(d) = &mut refused {
        d.push((b"WS-Protocols".to_vec(), FlValue::Data(vec![1])));
    }
    let e = c4address_to_request(&address("ws"), Some(&refused)).err().unwrap();
    assert_eq!("failed to parse header value", e.message);
    let mut q = address_request(&address("ws")).ok().unwrap();
    assert!(q.headers().is_empty());
    add_option_headers(&mut q, Some(&options(vec![("cookies", "c=d")]))).ok().unwrap();
    assert_eq!("c=d", q.headers().get("cookie").unwrap());
    assert_eq!("ws://localhost:4984/db/_blipsync", q.uri().to_string());
}

#[test]
fn unsupported_options_are_found_after_the_uri() {
    let mut dict_headers = options(vec![]);
    if let FlValue::Dict(d) = &mut dict_headers {
        d.push((b"headers".to_vec(), FlValue::Dict(Vec::new())));
    }
    assert!(!options_supported_check(Some(&dict_headers)));
    assert!(request_if_supported(&address("ws"), Some(&dict_headers)).is_none());
    assert!(matches!(request_if_supported(&address("w s"), Some(&dict_headers)), Some(Err(_))));
    let mut refused = options(vec![("cookies", "a\u{7f}")]);
    if let FlValue::Dict(d) = &mut refused {
        d.push((b"WS-Protocols".to_vec(), FlValue::Data(vec![1])));
    }
    assert!(options_supported_check(Some(&refused)));
    assert!(options_supported_check(None));
    assert!(matches!(request_if_supported(&address("ws"), Some(&options(vec![("cookies", "x")]))), Some(Ok(_))));
}
