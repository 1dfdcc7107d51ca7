//! The decisions of the WebSocket transport that carries replication: who closes a
//! socket, what a received frame leads to, and which engine error a failure becomes.
use vstd::prelude::*;
use crate::error::C4ErrorDomain;
use vstd::utf8::encode_utf8;
use crate::fl_slice::{FLSliceResult, utf8_lossy, utf8_lossy_string};
use crate::fleece_encoder::FlEncoder;
use crate::fleece_ser::{EncoderOp, OpV, ops_view, str_utf8};

verus! {

/// The engine's close code for a normal close.
pub const K_WEB_SOCKET_CLOSE_NORMAL: i32 = 1000;
/// The engine's close code for a message that cannot be read.
pub const K_WEB_SOCKET_CLOSE_BAD_MESSAGE_FORMAT: i32 = 1007;
/// The first close code free for applications.
pub const K_WEB_SOCKET_CLOSE_FIRST_AVAILABLE: i32 = 5000;
/// The engine's network code for a bad URL.
pub const K_NET_ERR_INVALID_URL: i32 = 4;
/// The engine's network code for a failed TLS handshake.
pub const K_NET_ERR_TLS_HANDSHAKE_FAILED: i32 = 6;
/// The engine's network code for a socket that is not connected.
pub const K_NET_ERR_NOT_CONNECTED: i32 = 22;
/// One past the engine's last network code.
pub const K_NUM_NET_ERROR_CODES_PLUS_1: i32 = 28;
/// How long a client close waits for the server's close frame, in seconds.
pub const CLOSE_TIMEOUT_SECS: u64 = 5;

/// An error to hand to the engine: its domain, code and message.
#[derive(Debug)]
pub struct SocketError {
    pub domain: C4ErrorDomain,
    pub code: i32,
    pub message: String,
}

/// Which side started to close a socket.
#[derive(Clone, Copy, PartialEq, Eq, Structural, Debug)]
pub enum CloseState {
    /// Neither side has started to close.
    Open,
    Server,
    Client,
}

/// The byte that stands for a close state in the socket's atomic cell.
pub open spec fn spec_close_code(s: CloseState) -> u8 {
    match s {
        CloseState::Open => 0,
        CloseState::Server => 1,
        CloseState::Client => 2,
    }
}

/// The close state that a byte of the atomic cell stands for.
pub open spec fn spec_close_state(v: u8) -> CloseState {
    if v == 0 {
        CloseState::Open
    } else if v == 1 {
        CloseState::Server
    } else {
        CloseState::Client
    }
}

/// The byte stored for `s`.
pub fn close_state_code(s: CloseState) -> (r: u8)
    ensures
        r == spec_close_code(s),
{
    match s {
        CloseState::Open => 0,
        CloseState::Server => 1,
        CloseState::Client => 2,
    }
}

/// The state read back from a stored byte; only the bytes that
/// `close_state_code` stores are ever read.
pub fn close_state_from_code(v: u8) -> (r: CloseState)
    requires
        v <= 2,
    ensures
        r == spec_close_state(v),
        spec_close_code(r) == v,
{
    if v == 0 {
        CloseState::Open
    } else if v == 1 {
        CloseState::Server
    } else {
        CloseState::Client
    }
}

/// Reading back a stored close state gives the state that was stored, and every stored
/// byte can be read back.
pub proof fn lemma_close_state_roundtrip(s: CloseState)
    ensures
        spec_close_code(s) <= 2,
        spec_close_state(spec_close_code(s)) == s,
{
}

/// What is left of the bytes handed to the engine once it confirms `byte_count` of them,
/// never below zero, and whether the reader may go on.
pub fn completed_receive(available: usize, byte_count: usize) -> (r: (usize, bool))
    ensures
        r.0 == (if available >= byte_count { available - byte_count } else { 0 }),
        r.1 == (r.0 == 0),
{
    let left: usize = if available >= byte_count {
        available - byte_count
    } else {
        0
    };
    (left, left == 0)
}

/// The error of an open or a read that a close request interrupted.
pub fn interrupted_error() -> (r: SocketError)
    ensures
        r.domain == C4ErrorDomain::NetworkDomain,
        r.code == K_NET_ERR_NOT_CONNECTED,
        r.message@ == "open was interrupted by requestClose"@,
{
    SocketError {
        domain: C4ErrorDomain::NetworkDomain,
        code: K_NET_ERR_NOT_CONNECTED,
        message: String::from_str("open was interrupted by requestClose"),
    }
}

/// The error for a request that could not be made: a bad URL, with the error's text.
pub fn invalid_request_error(msg: String) -> (r: SocketError)
    ensures
        r.domain == C4ErrorDomain::NetworkDomain,
        r.code == K_NET_ERR_INVALID_URL,
        r.message@ == msg@,
{
    SocketError { domain: C4ErrorDomain::NetworkDomain, code: K_NET_ERR_INVALID_URL, message: msg }
}

/// The error for a failure of the Fleece encoder, by its code.
pub fn fleece_socket_error(code: i32) -> (r: SocketError)
    ensures
        r.domain == C4ErrorDomain::FleeceDomain,
        r.code == code,
        r.message@ == "fleece error"@,
{
    SocketError {
        domain: C4ErrorDomain::FleeceDomain,
        code,
        message: String::from_str("fleece error"),
    }
}

/// The kinds of failure of the WebSocket library, with what the mapping reads of them.
#[derive(Clone, Copy, PartialEq, Eq, Structural, Debug)]
pub enum WsErrorKind {
    ConnectionClosed,
    AlreadyClosed,
    Io,
    Tls,
    Capacity,
    Protocol,
    WriteBufferFull,
    Utf8,
    AttackAttempt,
    Url,
    /// An HTTP answer other than the upgrade, with its status.
    Http(u16),
    HttpFormat,
}

/// A failure of the WebSocket library: its kind and its text.
#[derive(Debug)]
pub struct WsError {
    pub kind: WsErrorKind,
    pub message: String,
}

/// The engine's domain and code for a failure of the WebSocket library.
pub open spec fn spec_ws_error_code(k: WsErrorKind) -> (C4ErrorDomain, i32) {
    match k {
        WsErrorKind::ConnectionClosed => (C4ErrorDomain::WebSocketDomain, K_WEB_SOCKET_CLOSE_NORMAL),
        WsErrorKind::AlreadyClosed => (
            C4ErrorDomain::WebSocketDomain,
            K_WEB_SOCKET_CLOSE_FIRST_AVAILABLE,
        ),
        WsErrorKind::Io => (C4ErrorDomain::NetworkDomain, K_NUM_NET_ERROR_CODES_PLUS_1),
        WsErrorKind::Tls => (C4ErrorDomain::NetworkDomain, K_NET_ERR_TLS_HANDSHAKE_FAILED),
        WsErrorKind::Capacity => (C4ErrorDomain::NetworkDomain, K_NUM_NET_ERROR_CODES_PLUS_1),
        WsErrorKind::Protocol => (C4ErrorDomain::NetworkDomain, K_NUM_NET_ERROR_CODES_PLUS_1),
        WsErrorKind::WriteBufferFull => (C4ErrorDomain::NetworkDomain, K_NUM_NET_ERROR_CODES_PLUS_1),
        WsErrorKind::Utf8 => (C4ErrorDomain::WebSocketDomain, K_WEB_SOCKET_CLOSE_BAD_MESSAGE_FORMAT),
        WsErrorKind::AttackAttempt => (C4ErrorDomain::NetworkDomain, K_NUM_NET_ERROR_CODES_PLUS_1),
        WsErrorKind::Url => (C4ErrorDomain::NetworkDomain, K_NET_ERR_INVALID_URL),
        WsErrorKind::Http(status) => (C4ErrorDomain::WebSocketDomain, status as i32),
        WsErrorKind::HttpFormat => (
            C4ErrorDomain::WebSocketDomain,
            K_WEB_SOCKET_CLOSE_BAD_MESSAGE_FORMAT,
        ),
    }
}

/// The engine error for a failure of the WebSocket library:
/// the domain and code by kind, and the failure's text as message.
pub fn tungstenite_err_to_c4_err(err: &WsError) -> (r: SocketError)
    ensures
        (r.domain, r.code) == spec_ws_error_code(err.kind),
        r.message@ == err.message@,
{
    let (domain, code): (C4ErrorDomain, i32) = match err.kind {
        WsErrorKind::ConnectionClosed => (C4ErrorDomain::WebSocketDomain, K_WEB_SOCKET_CLOSE_NORMAL),
        WsErrorKind::AlreadyClosed => (
            C4ErrorDomain::WebSocketDomain,
            K_WEB_SOCKET_CLOSE_FIRST_AVAILABLE,
        ),
        WsErrorKind::Io => (C4ErrorDomain::NetworkDomain, K_NUM_NET_ERROR_CODES_PLUS_1),
        WsErrorKind::Tls => (C4ErrorDomain::NetworkDomain, K_NET_ERR_TLS_HANDSHAKE_FAILED),
        WsErrorKind::Capacity => (C4ErrorDomain::NetworkDomain, K_NUM_NET_ERROR_CODES_PLUS_1),
        WsErrorKind::Protocol => (C4ErrorDomain::NetworkDomain, K_NUM_NET_ERROR_CODES_PLUS_1),
        WsErrorKind::WriteBufferFull => (C4ErrorDomain::NetworkDomain, K_NUM_NET_ERROR_CODES_PLUS_1),
        WsErrorKind::Utf8 => (C4ErrorDomain::WebSocketDomain, K_WEB_SOCKET_CLOSE_BAD_MESSAGE_FORMAT),
        WsErrorKind::AttackAttempt => (C4ErrorDomain::NetworkDomain, K_NUM_NET_ERROR_CODES_PLUS_1),
        WsErrorKind::Url => (C4ErrorDomain::NetworkDomain, K_NET_ERR_INVALID_URL),
        WsErrorKind::Http(status) => (C4ErrorDomain::WebSocketDomain, status as i32),
        WsErrorKind::HttpFormat => (
            C4ErrorDomain::WebSocketDomain,
            K_WEB_SOCKET_CLOSE_BAD_MESSAGE_FORMAT,
        ),
    };
    SocketError { domain, code, message: err.message.clone() }
}

/// Where a close request of the engine stands.
#[derive(Clone, Copy, PartialEq, Eq, Structural, Debug)]
pub enum RequestClosePhase {
    /// The transport is to say whether the socket has a writer.
    AwaitWriter,
    /// A close frame is being sent.
    AwaitSend,
    /// The server's close frame is awaited.
    AwaitAck,
    /// Nothing is left to do.
    Done,
}

/// What the transport reports back to a close request.
pub enum RequestCloseEvent {
    /// Whether the socket has a writer; it has one once it is open.
    Writer(bool),
    /// The close frame was handed to the writer; a failure to send it is only logged.
    FrameSent,
    /// Whether the server's close frame came within the timeout.
    Ack(bool),
}

/// What a close request asks of the transport next.
pub enum RequestCloseAction {
    /// Send a close frame with this code and reason.
    SendCloseFrame { code: u16, reason: String },
    /// Stop the open or the read loop; the socket never opened, and nothing is reported.
    StopReadLoop,
    /// Wait this many seconds for the server's close frame.
    WaitForAck { timeout_secs: u64 },
    /// Stop the read loop, then report the socket closed with this error unless the socket
    /// was reported closed already.
    StopReadLoopAndReport(SocketError),
    /// Report the socket closed with this error unless it was reported closed already.
    Report(SocketError),
}

/// A close request of the engine, from the call to the report.
pub struct RequestCloseMachine {
    pub phase: RequestClosePhase,
    /// This side started the close, so the server's answer is awaited.
    pub is_client_close: bool,
    /// The close code to send.
    pub code: u16,
    /// The close reason to send, and the message of the error reported.
    pub reason: String,
    /// The status the engine asked to close with: the code of the error reported.
    pub status: i32,
}

/// The close code sent for an engine status: the status where it fits in a `u16`, else 1.
pub open spec fn spec_close_frame_code(status: i32) -> u16 {
    if 0 <= status <= u16::MAX { status as u16 } else { 1 }
}

/// Whether `e` is the error a close request reports: the engine's status in the WebSocket
/// domain, with the reason as message.
pub open spec fn is_close_error(m: RequestCloseMachine, e: SocketError) -> bool {
    &&& e.domain == C4ErrorDomain::WebSocketDomain
    &&& e.code == m.status
    &&& e.message@ == m.reason@
}

impl RequestCloseMachine {
    /// Starts a close request with `status` and `message` while the socket is in `state`;
    /// also gives the state to store. A second close request of the engine is a broken
    /// invariant and is left out.
    pub fn start(state: CloseState, status: i32, message: &[u8]) -> (r: (RequestCloseMachine, CloseState))
        requires
            state != CloseState::Client,
        ensures
            r.0.phase == RequestClosePhase::AwaitWriter,
            r.0.is_client_close == (state == CloseState::Open),
            r.0.code == spec_close_frame_code(status),
            r.0.reason@ == utf8_lossy(message@),
            r.0.status == status,
            r.1 == CloseState::Client || r.1 == CloseState::Server,
            state == CloseState::Open ==> r.1 == CloseState::Client,
            state == CloseState::Server ==> r.1 == CloseState::Server,
    {
        let code: u16 = if 0 <= status && status <= 65535 {
            status as u16
        } else {
            1
        };
        let reason = utf8_lossy_string(message);
        let is_client_close = match state {
            CloseState::Open => true,
            _ => false,
        };
        let next = if is_client_close {
            CloseState::Client
        } else {
            CloseState::Server
        };
        (
            RequestCloseMachine {
                phase: RequestClosePhase::AwaitWriter,
                is_client_close,
                code,
                reason,
                status,
            },
            next,
        )
    }

    fn close_error(&self) -> (r: SocketError)
        ensures
            is_close_error(*self, r),
    {
        SocketError {
            domain: C4ErrorDomain::WebSocketDomain,
            code: self.status,
            message: self.reason.clone(),
        }
    }

    /// Takes the transport's report and says what to do next; an event that does not
    /// belong to the current phase changes nothing and asks nothing.
    pub fn step(&mut self, ev: RequestCloseEvent) -> (r: Option<RequestCloseAction>)
        ensures
            final(self).is_client_close == old(self).is_client_close,
            final(self).code == old(self).code,
            final(self).reason@ == old(self).reason@,
            final(self).status == old(self).status,
            old(self).phase == RequestClosePhase::AwaitWriter && ev == RequestCloseEvent::Writer(true)
                ==> final(self).phase == RequestClosePhase::AwaitSend && (r matches Some(
                RequestCloseAction::SendCloseFrame { code, reason },
            ) && code == old(self).code && reason@ == old(self).reason@),
            old(self).phase == RequestClosePhase::AwaitWriter && ev == RequestCloseEvent::Writer(false)
                ==> final(self).phase == RequestClosePhase::Done && r == Some(RequestCloseAction::StopReadLoop),
            old(self).phase == RequestClosePhase::AwaitSend && ev == RequestCloseEvent::FrameSent
                && old(self).is_client_close ==> final(self).phase == RequestClosePhase::AwaitAck
                && r == Some(RequestCloseAction::WaitForAck { timeout_secs: CLOSE_TIMEOUT_SECS }),
            old(self).phase == RequestClosePhase::AwaitSend && ev == RequestCloseEvent::FrameSent
                && !old(self).is_client_close ==> final(self).phase == RequestClosePhase::Done && (r matches Some(
                RequestCloseAction::Report(e),
            ) && is_close_error(*old(self), e)),
            old(self).phase == RequestClosePhase::AwaitAck && ev == RequestCloseEvent::Ack(true)
                ==> final(self).phase == RequestClosePhase::Done && (r matches Some(
                RequestCloseAction::Report(e),
            ) && is_close_error(*old(self), e)),
            old(self).phase == RequestClosePhase::AwaitAck && ev == RequestCloseEvent::Ack(false)
                ==> final(self).phase == RequestClosePhase::Done && (r matches Some(
                RequestCloseAction::StopReadLoopAndReport(e),
            ) && is_close_error(*old(self), e)),
            !(old(self).phase == RequestClosePhase::AwaitWriter && ev is Writer)
                && !(old(self).phase == RequestClosePhase::AwaitSend && ev is FrameSent)
                && !(old(self).phase == RequestClosePhase::AwaitAck && ev is Ack)
                ==> final(self).phase == old(self).phase && r is None,
    {
        match (self.phase, ev) {
            (RequestClosePhase::AwaitWriter, RequestCloseEvent::Writer(present)) => {
                if present {
                    self.phase = RequestClosePhase::AwaitSend;
                    Some(RequestCloseAction::SendCloseFrame { code: self.code, reason: self.reason.clone() })
                } else {
                    self.phase = RequestClosePhase::Done;
                    Some(RequestCloseAction::StopReadLoop)
                }
            },
            (RequestClosePhase::AwaitSend, RequestCloseEvent::FrameSent) => {
                if self.is_client_close {
                    self.phase = RequestClosePhase::AwaitAck;
                    Some(RequestCloseAction::WaitForAck { timeout_secs: CLOSE_TIMEOUT_SECS })
                } else {
                    self.phase = RequestClosePhase::Done;
                    Some(RequestCloseAction::Report(self.close_error()))
                }
            },
            (RequestClosePhase::AwaitAck, RequestCloseEvent::Ack(acked)) => {
                self.phase = RequestClosePhase::Done;
                if acked {
                    Some(RequestCloseAction::Report(self.close_error()))
                } else {
                    Some(RequestCloseAction::StopReadLoopAndReport(self.close_error()))
                }
            },
            _ => None,
        }
    }
}

/// Whether the engine was told that a socket closed. The engine is told at most once over
/// the socket's whole life, whichever of the open, the read loop or a close request ends
/// it first.
pub struct ClosedReport {
    pub reported: bool,
}

impl ClosedReport {
    /// A socket that was not reported closed yet.
    pub fn new() -> (r: ClosedReport)
        ensures
            !r.reported,
    {
        ClosedReport { reported: false }
    }

    /// Asks to report the socket closed with `e`: the error to hand to the engine the first
    /// time, and `None` every later time.
    pub fn report(&mut self, e: SocketError) -> (r: Option<SocketError>)
        ensures
            final(self).reported,
            r is Some <==> !old(self).reported,
            r matches Some(x) ==> x == e,
    {
        if self.reported {
            None
        } else {
            self.reported = true;
            Some(e)
        }
    }
}

/// What the read loop of an open socket gets from the WebSocket stream or from a close
/// request.
pub enum ReadEvent {
    /// A text or binary frame, with its payload.
    Data(Vec<u8>),
    /// A close frame, with its code and reason when it carries them.
    Close(Option<(u16, String)>),
    Ping,
    Pong,
    /// The stream ended.
    End,
    /// Reading failed.
    Failed(WsError),
    /// A close request stopped the loop.
    Stopped,
}

/// What the read loop does with an event.
pub enum ReadAction {
    /// Hand the payload to the engine and wait until it has confirmed all of it; then read on.
    Deliver(Vec<u8>),
    /// Tell the engine that the server asks to close, with this code and reason; the loop
    /// then ends without error.
    CloseRequested { code: i32, reason: String },
    /// A second close frame from the server, which is only logged; read on.
    Ignore,
    /// The server answered this side's close: wake the close request; the loop then ends
    /// without error.
    ConfirmClose,
    /// The loop ends with this outcome.
    Finish(Result<(), SocketError>),
}

/// The code and reason that the engine is told of a close frame: the frame's own, or -1 and
/// no reason when it carries none.
pub open spec fn spec_close_frame(frame: Option<(u16, String)>) -> (i32, Seq<char>) {
    match frame {
        Some((code, reason)) => (code as i32, reason@),
        None => (-1i32, Seq::empty()),
    }
}

/// The next close state and what to do, for an event of the read loop while the socket is in
/// `state`. Ping and pong frames are not handled by the transport and are left out.
pub fn read_step(state: CloseState, ev: ReadEvent) -> (r: (CloseState, ReadAction))
    requires
        !(ev is Ping),
        !(ev is Pong),
    ensures
        ev matches ReadEvent::Data(d) ==> r.0 == state && (r.1 matches ReadAction::Deliver(x) && x@ == d@),
        ev matches ReadEvent::Close(f) ==> (state == CloseState::Open ==> r.0 == CloseState::Server && (
        r.1 matches ReadAction::CloseRequested { code, reason } && (code, reason@) == spec_close_frame(f))),
        ev is Close && state == CloseState::Server ==> r.0 == state && r.1 is Ignore,
        ev is Close && state == CloseState::Client ==> r.0 == state && r.1 is ConfirmClose,
        ev is End ==> r.0 == state && r.1 == ReadAction::Finish(Ok(())),
        ev matches ReadEvent::Failed(e) ==> r.0 == state && (r.1 matches ReadAction::Finish(Err(x)) && (
        x.domain, x.code) == spec_ws_error_code(e.kind) && x.message@ == e.message@),
        ev is Stopped ==> r.0 == state && (r.1 matches ReadAction::Finish(Err(x))
            && x.domain == C4ErrorDomain::NetworkDomain && x.code == K_NET_ERR_NOT_CONNECTED
            && x.message@ == "open was interrupted by requestClose"@),
{
    match ev {
        ReadEvent::Data(d) => (state, ReadAction::Deliver(d)),
        ReadEvent::Close(frame) => {
            match state {
                CloseState::Open => {
                    let (code, reason): (i32, String) = match frame {
                        Some((c, text)) => (c as i32, text),
                        None => (-1, String::new()),
                    };
                    (CloseState::Server, ReadAction::CloseRequested { code, reason })
                },
                CloseState::Server => (state, ReadAction::Ignore),
                CloseState::Client => (state, ReadAction::ConfirmClose),
            }
        },
        ReadEvent::End => (state, ReadAction::Finish(Ok(()))),
        ReadEvent::Failed(e) => (state, ReadAction::Finish(Err(tungstenite_err_to_c4_err(&e)))),
        ReadEvent::Stopped => (state, ReadAction::Finish(Err(interrupted_error()))),
        ReadEvent::Ping => (state, ReadAction::Ignore),
        ReadEvent::Pong => (state, ReadAction::Ignore),
    }
}

/// The calls that write the headers of an HTTP response, in order, as the entries of a
/// Fleece dictionary.
pub open spec fn spec_header_entries(headers: Seq<(String, Vec<u8>)>) -> Seq<OpV>
    decreases headers.len(),
{
    if headers.len() == 0 {
        Seq::empty()
    } else {
        spec_header_entries(headers.drop_last()) + seq![
            OpV::WriteKey(encode_utf8(headers.last().0@)),
            OpV::WriteString(headers.last().1@),
        ]
    }
}

/// Writes the headers of an HTTP response into `enc` as a dictionary:
/// each name as key, each value as string.
pub fn headers_to_dict(headers: &Vec<(String, Vec<u8>)>, enc: &mut FlEncoder)
    ensures
        ops_view(final(enc).ops@) == ops_view(old(enc).ops@) + seq![OpV::BeginDict(headers@.len() as usize)]
            + spec_header_entries(headers@) + seq![OpV::EndDict],
{
    enc.ops.push(EncoderOp::BeginDict(headers.len()));
    let ghost start = ops_view(old(enc).ops@) + seq![OpV::BeginDict(headers@.len() as usize)];
    assert(ops_view(enc.ops@) =~= start);
    let mut i: usize = 0;
    while i < headers.len()
        invariant
            i <= headers@.len(),
            ops_view(enc.ops@) == start + spec_header_entries(headers@.subrange(0, i as int)),
        decreases headers@.len() - i,
    {
        let key = str_utf8(headers[i].0.as_str());
        let value = vstd::slice::slice_to_vec(headers[i].1.as_slice());
        let ghost before = enc.ops@;
        enc.ops.push(EncoderOp::WriteKey(key));
        enc.ops.push(EncoderOp::WriteString(value));
        proof {
            let sub = headers@.subrange(0, i + 1);
            assert(sub.drop_last() =~= headers@.subrange(0, i as int));
            assert(sub.last() == headers@[i as int]);
            assert(ops_view(enc.ops@) =~= ops_view(before) + seq![
                OpV::WriteKey(encode_utf8(headers@[i as int].0@)),
                OpV::WriteString(headers@[i as int].1@),
            ]);
        }
        i = i + 1;
    }
    let ghost before_end = enc.ops@;
    enc.ops.push(EncoderOp::EndDict);
    assert(headers@.subrange(0, headers@.len() as int) =~= headers@);
    assert(ops_view(enc.ops@) =~= ops_view(before_end) + seq![OpV::EndDict]);
}

/// The outcome of encoding the headers: the data when every call succeeded and the data is
/// not empty, else the encoder's error code as a Fleece error.
pub fn headers_result(all_ok: bool, data: FLSliceResult, err_code: i32) -> (r: Result<FLSliceResult, SocketError>)
    ensures
        all_ok && data.bytes@.len() != 0 ==> (r matches Ok(d) && d.bytes@ == data.bytes@),
        !(all_ok && data.bytes@.len() != 0) ==> (r matches Err(e) && e.domain
            == C4ErrorDomain::FleeceDomain && e.code == err_code && e.message@ == "fleece error"@),
{
    if !data.is_empty() && all_ok {
        Ok(data)
    } else {
        Err(fleece_socket_error(err_code))
    }
}

/// Where the opening of a socket stands.
#[derive(Clone, Copy, PartialEq, Eq, Structural, Debug)]
pub enum OpenPhase {
    Connecting,
    EncodingHeaders,
    Reading,
    Done,
}

/// What the transport reports back while a socket opens.
pub enum OpenEvent {
    /// The request could not be made; the socket never connects.
    RequestFailed(SocketError),
    /// The WebSocket handshake succeeded with this HTTP status.
    Connected(u16),
    /// The handshake failed.
    ConnectFailed(WsError),
    /// A close request stopped the opening.
    Stopped,
    /// The response's headers were encoded: whether every call succeeded, the data the
    /// encoder finished with, and its error code.
    HeadersEncoded { all_ok: bool, data: FLSliceResult, err_code: i32 },
    /// The read loop ended.
    ReadLoopEnded(Result<(), SocketError>),
}

/// What the opening of a socket asks of the transport next.
pub enum OpenAction {
    /// Encode the response's headers with `headers_to_dict`.
    EncodeHeaders,
    /// Tell the engine the HTTP status and headers, keep the writer, tell the engine that the
    /// socket is open, and run the read loop.
    Open { status: i32, headers: FLSliceResult },
    /// Report the socket closed with this error unless it was reported closed already.
    Report(SocketError),
    /// Nothing more to do.
    Finish,
}

/// The opening of a socket, from the connection to the end of the read loop.
pub struct OpenMachine {
    pub phase: OpenPhase,
    /// The HTTP status of the handshake, once it is known.
    pub status: u16,
}

impl OpenMachine {
    /// An opening that waits for the connection.
    pub fn new() -> (r: OpenMachine)
        ensures
            r.phase == OpenPhase::Connecting,
    {
        OpenMachine { phase: OpenPhase::Connecting, status: 0 }
    }

    /// Takes the transport's report and says what to do next; an event that does not belong
    /// to the current phase changes nothing and asks nothing.
    pub fn step(&mut self, ev: OpenEvent) -> (r: Option<OpenAction>)
        ensures
            old(self).phase == OpenPhase::Connecting ==> (ev matches OpenEvent::RequestFailed(e) ==> final(self).phase
                == OpenPhase::Done && (r matches Some(OpenAction::Report(x)) && x.domain == e.domain && x.code
                == e.code && x.message@ == e.message@)),
            old(self).phase == OpenPhase::Connecting ==> (ev matches OpenEvent::Connected(st) ==> final(self).phase
                == OpenPhase::EncodingHeaders && final(self).status == st && r == Some(OpenAction::EncodeHeaders)),
            old(self).phase == OpenPhase::Connecting ==> (ev matches OpenEvent::ConnectFailed(e) ==> final(self).phase
                == OpenPhase::Done && (r matches Some(OpenAction::Report(x)) && (x.domain, x.code)
                == spec_ws_error_code(e.kind) && x.message@ == e.message@)),
            old(self).phase == OpenPhase::Connecting ==> (ev is Stopped ==> final(self).phase == OpenPhase::Done && (
            r matches Some(OpenAction::Report(x)) && x.domain == C4ErrorDomain::NetworkDomain && x.code
                == K_NET_ERR_NOT_CONNECTED && x.message@ == "open was interrupted by requestClose"@)),
            old(self).phase == OpenPhase::EncodingHeaders ==> (ev matches OpenEvent::HeadersEncoded { all_ok, data, err_code }
                ==> (all_ok && data.bytes@.len() != 0 ==> final(self).phase == OpenPhase::Reading && (r matches Some(
                OpenAction::Open { status, headers },
            ) && status == old(self).status as i32 && headers.bytes@ == data.bytes@))),
            old(self).phase == OpenPhase::EncodingHeaders ==> (ev matches OpenEvent::HeadersEncoded { all_ok, data, err_code }
                ==> (!(all_ok && data.bytes@.len() != 0) ==> final(self).phase == OpenPhase::Done && (r matches Some(
                OpenAction::Report(x),
            ) && x.domain == C4ErrorDomain::FleeceDomain && x.code == err_code && x.message@ == "fleece error"@))),
            old(self).phase == OpenPhase::Reading ==> (ev matches OpenEvent::ReadLoopEnded(Err(e)) ==> final(self).phase
                == OpenPhase::Done && (r matches Some(OpenAction::Report(x)) && x.domain == e.domain && x.code
                == e.code && x.message@ == e.message@)),
            old(self).phase == OpenPhase::Reading ==> (ev matches OpenEvent::ReadLoopEnded(Ok(_))
                ==> final(self).phase == OpenPhase::Done && r == Some(OpenAction::Finish)),
            !(old(self).phase == OpenPhase::Connecting && (ev is RequestFailed || ev is Connected
                || ev is ConnectFailed || ev is Stopped)) && !(old(self).phase == OpenPhase::EncodingHeaders
                && ev is HeadersEncoded) && !(old(self).phase == OpenPhase::Reading && ev is ReadLoopEnded)
                ==> final(self).phase == old(self).phase && final(self).status == old(self).status && r is None,
    {
        match (self.phase, ev) {
            (OpenPhase::Connecting, OpenEvent::RequestFailed(e)) => {
                self.phase = OpenPhase::Done;
                Some(OpenAction::Report(e))
            },
            (OpenPhase::Connecting, OpenEvent::Connected(st)) => {
                self.phase = OpenPhase::EncodingHeaders;
                self.status = st;
                Some(OpenAction::EncodeHeaders)
            },
            (OpenPhase::Connecting, OpenEvent::ConnectFailed(e)) => {
                self.phase = OpenPhase::Done;
                Some(OpenAction::Report(tungstenite_err_to_c4_err(&e)))
            },
            (OpenPhase::Connecting, OpenEvent::Stopped) => {
                self.phase = OpenPhase::Done;
                Some(OpenAction::Report(interrupted_error()))
            },
            (OpenPhase::EncodingHeaders, OpenEvent::HeadersEncoded { all_ok, data, err_code }) => {
                match headers_result(all_ok, data, err_code) {
                    Ok(d) => {
                        self.phase = OpenPhase::Reading;
                        Some(OpenAction::Open { status: self.status as i32, headers: d })
                    },
                    Err(e) => {
                        self.phase = OpenPhase::Done;
                        Some(OpenAction::Report(e))
                    },
                }
            },
            (OpenPhase::Reading, OpenEvent::ReadLoopEnded(res)) => {
                self.phase = OpenPhase::Done;
                match res {
                    Ok(()) => Some(OpenAction::Finish),
                    Err(e) => Some(OpenAction::Report(e)),
                }
            },
            _ => None,
        }
    }
}

} // verus!
