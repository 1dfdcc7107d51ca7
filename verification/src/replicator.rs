//! Replication: its parameters, the options it hands the engine, and the state the engine
//! reports of it.
use vstd::prelude::*;
use vstd::string::StringSliceAdditionalSpecFns;
use vstd::utf8::encode_utf8;
use crate::error::{C4Error, Error, ErrorKind};
use crate::fl_slice::FLSliceResult;
use crate::fleece_encoder::{EncodeValue, FlEncoder};
use crate::fleece_error;
use crate::fleece_ser::{EncoderOp, OpV, ops_view, str_utf8};

verus! {

/// How a replicator moves documents in one direction.
#[derive(Clone, Copy, PartialEq, Eq, Structural, Debug)]
pub enum C4ReplicatorMode {
    Disabled,
    Passive,
    OneShot,
    Continuous,
}

/// The modes of a replication, pushing and pulling.
#[derive(Clone, Copy, PartialEq, Eq, Structural, Debug)]
pub struct ReplicatorMode {
    pub push: C4ReplicatorMode,
    pub pull: C4ReplicatorMode,
}

/// How a replicator proves who it is to the remote side.
pub enum ReplicatorAuthentication {
    /// A session token.
    SessionToken(String),
    /// A user name and password.
    Basic { username: String, password: String },
    /// No credentials.
    NoAuthentication,
}

impl Clone for ReplicatorAuthentication {
    fn clone(&self) -> (r: ReplicatorAuthentication)
        ensures
            r == *self,
    {
        match self {
            ReplicatorAuthentication::SessionToken(t) => ReplicatorAuthentication::SessionToken(t.clone()),
            ReplicatorAuthentication::Basic { username, password } => ReplicatorAuthentication::Basic {
                username: username.clone(),
                password: password.clone(),
            },
            ReplicatorAuthentication::NoAuthentication => ReplicatorAuthentication::NoAuthentication,
        }
    }
}

/// The parameters of a replication: its callbacks, credentials and modes.
/// The callbacks are kept as given and called by the transport.
pub struct ReplicatorParameters<StateCallback, DocumentsEndedCallback, ValidationF> {
    pub validation_cb: ValidationF,
    pub state_changed_callback: StateCallback,
    pub documents_ended_callback: DocumentsEndedCallback,
    pub auth: ReplicatorAuthentication,
    pub mode: ReplicatorMode,
}

/// The validation callback of the default parameters: it accepts every revision.
pub struct AcceptAllRevisions;

/// The state callback of the default parameters: it does nothing.
pub struct IgnoreStateChanges;

/// The documents-ended callback of the default parameters: it does nothing.
pub struct IgnoreDocumentsEnded;

impl<SC, DEC, V> ReplicatorParameters<SC, DEC, V> {
    /// The same parameters with other credentials.
    pub fn with_auth(self, auth: ReplicatorAuthentication) -> (r: Self)
        ensures
            r.auth == auth,
            r.mode == self.mode,
            r.validation_cb == self.validation_cb,
            r.state_changed_callback == self.state_changed_callback,
            r.documents_ended_callback == self.documents_ended_callback,
    {
        ReplicatorParameters {
            validation_cb: self.validation_cb,
            state_changed_callback: self.state_changed_callback,
            documents_ended_callback: self.documents_ended_callback,
            auth,
            mode: self.mode,
        }
    }

    /// The same parameters with a callback that can reject incoming revisions. It takes the
    /// collection, document id, revision id, revision flags and body, and returns false to
    /// reject the revision.
    pub fn with_validation_func<ValidationF>(self, validation_cb: ValidationF) -> (r:
        ReplicatorParameters<SC, DEC, ValidationF>)
        ensures
            r.validation_cb == validation_cb,
            r.auth == self.auth,
            r.mode == self.mode,
            r.state_changed_callback == self.state_changed_callback,
            r.documents_ended_callback == self.documents_ended_callback,
    {
        ReplicatorParameters {
            validation_cb,
            state_changed_callback: self.state_changed_callback,
            documents_ended_callback: self.documents_ended_callback,
            auth: self.auth,
            mode: self.mode,
        }
    }

    /// The same parameters with a callback told of each change of the replicator's state.
    pub fn with_state_changed_callback<StateCallback>(self, state_changed_callback: StateCallback) -> (r:
        ReplicatorParameters<StateCallback, DEC, V>)
        ensures
            r.state_changed_callback == state_changed_callback,
            r.auth == self.auth,
            r.mode == self.mode,
            r.validation_cb == self.validation_cb,
            r.documents_ended_callback == self.documents_ended_callback,
    {
        ReplicatorParameters {
            validation_cb: self.validation_cb,
            state_changed_callback,
            documents_ended_callback: self.documents_ended_callback,
            auth: self.auth,
            mode: self.mode,
        }
    }

    /// The same parameters with a callback told of the replication of each document.
    pub fn with_documents_ended_callback<DocumentsEndedCallback>(
        self,
        documents_ended_callback: DocumentsEndedCallback,
    ) -> (r: ReplicatorParameters<SC, DocumentsEndedCallback, V>)
        ensures
            r.documents_ended_callback == documents_ended_callback,
            r.auth == self.auth,
            r.mode == self.mode,
            r.validation_cb == self.validation_cb,
            r.state_changed_callback == self.state_changed_callback,
    {
        ReplicatorParameters {
            validation_cb: self.validation_cb,
            state_changed_callback: self.state_changed_callback,
            documents_ended_callback,
            auth: self.auth,
            mode: self.mode,
        }
    }

    /// The same parameters with another push mode (from this database to the other side).
    pub fn with_push_mode(self, push: C4ReplicatorMode) -> (r: Self)
        ensures
            r.mode == (ReplicatorMode { push, pull: self.mode.pull }),
            r.auth == self.auth,
            r.validation_cb == self.validation_cb,
            r.state_changed_callback == self.state_changed_callback,
            r.documents_ended_callback == self.documents_ended_callback,
    {
        ReplicatorParameters {
            validation_cb: self.validation_cb,
            state_changed_callback: self.state_changed_callback,
            documents_ended_callback: self.documents_ended_callback,
            auth: self.auth,
            mode: ReplicatorMode { push, pull: self.mode.pull },
        }
    }

    /// The same parameters with another pull mode (from the other side to this database).
    pub fn with_pull_mode(self, pull: C4ReplicatorMode) -> (r: Self)
        ensures
            r.mode == (ReplicatorMode { push: self.mode.push, pull }),
            r.auth == self.auth,
            r.validation_cb == self.validation_cb,
            r.state_changed_callback == self.state_changed_callback,
            r.documents_ended_callback == self.documents_ended_callback,
    {
        ReplicatorParameters {
            validation_cb: self.validation_cb,
            state_changed_callback: self.state_changed_callback,
            documents_ended_callback: self.documents_ended_callback,
            auth: self.auth,
            mode: ReplicatorMode { push: self.mode.push, pull },
        }
    }
}

impl Default for ReplicatorParameters<IgnoreStateChanges, IgnoreDocumentsEnded, AcceptAllRevisions> {
    /// Continuous push and pull, no credentials, callbacks that accept every revision and
    /// ignore every report.
    fn default() -> (r: Self)
        ensures
            r.auth is NoAuthentication,
            r.mode == (ReplicatorMode {
                push: C4ReplicatorMode::Continuous,
                pull: C4ReplicatorMode::Continuous,
            }),
    {
        ReplicatorParameters {
            validation_cb: AcceptAllRevisions,
            state_changed_callback: IgnoreStateChanges,
            documents_ended_callback: IgnoreDocumentsEnded,
            auth: ReplicatorAuthentication::NoAuthentication,
            mode: ReplicatorMode {
                push: C4ReplicatorMode::Continuous,
                pull: C4ReplicatorMode::Continuous,
            },
        }
    }
}

/// What a replicator is doing.
#[derive(Clone, Copy, PartialEq, Eq, Structural, Debug)]
pub enum ReplicatorActivityLevel {
    Stopped,
    Offline,
    Connecting,
    Idle,
    Busy,
    Stopping,
}

/// How far a replication has come.
#[derive(Clone, Copy, PartialEq, Eq, Structural, Debug)]
pub struct C4Progress {
    pub units_completed: u64,
    pub units_total: u64,
    pub document_count: u64,
}

/// What the engine reports of a replicator.
#[derive(Clone, Copy, PartialEq, Eq, Structural, Debug)]
pub struct C4ReplicatorStatus {
    pub level: ReplicatorActivityLevel,
    pub progress: C4Progress,
    pub error: C4Error,
    pub flags: i32,
}

/// The states of a replicator.
pub enum ReplicatorState {
    /// Finished, or stopped by a fatal error.
    Stopped(Error),
    /// Offline: replication does not work.
    Offline,
    /// The connection is being made.
    Connecting,
    /// A continuous replicator has caught up and waits for changes.
    Idle,
    /// Connected and working.
    Busy(C4Progress),
}

/// The state that a status stands for: a stopping replicator counts as busy.
pub open spec fn spec_state_of(status: C4ReplicatorStatus) -> ReplicatorState {
    match status.level {
        ReplicatorActivityLevel::Stopped => ReplicatorState::Stopped(Error::C4Error(status.error)),
        ReplicatorActivityLevel::Offline => ReplicatorState::Offline,
        ReplicatorActivityLevel::Connecting => ReplicatorState::Connecting,
        ReplicatorActivityLevel::Idle => ReplicatorState::Idle,
        ReplicatorActivityLevel::Busy => ReplicatorState::Busy(status.progress),
        ReplicatorActivityLevel::Stopping => ReplicatorState::Busy(status.progress),
    }
}

impl From<C4ReplicatorStatus> for ReplicatorState {
    fn from(status: C4ReplicatorStatus) -> (r: ReplicatorState)
        ensures
            r == spec_state_of(status),
    {
        match status.level {
            ReplicatorActivityLevel::Stopped => ReplicatorState::Stopped(Error::C4Error(status.error)),
            ReplicatorActivityLevel::Offline => ReplicatorState::Offline,
            ReplicatorActivityLevel::Connecting => ReplicatorState::Connecting,
            ReplicatorActivityLevel::Idle => ReplicatorState::Idle,
            ReplicatorActivityLevel::Busy => ReplicatorState::Busy(status.progress),
            ReplicatorActivityLevel::Stopping => ReplicatorState::Busy(status.progress),
        }
    }
}

impl vstd::std_specs::convert::FromSpecImpl<C4ReplicatorStatus> for ReplicatorState {
    open spec fn obeys_from_spec() -> bool {
        true
    }

    open spec fn from_spec(status: C4ReplicatorStatus) -> ReplicatorState {
        spec_state_of(status)
    }
}

/// The state a status is reported as, for every status: a stopped replicator carries the
/// status's error; offline, connecting and idle levels are those states; a busy or a
/// stopping replicator is busy and carries the status's progress, and it is the only state
/// that carries one.
pub proof fn lemma_state_of_status(status: C4ReplicatorStatus)
    ensures
        status.level == ReplicatorActivityLevel::Stopped <==> (spec_state_of(status) matches ReplicatorState::Stopped(e)
            && e@ == ErrorKind::C4Error(status.error)),
        status.level == ReplicatorActivityLevel::Offline <==> spec_state_of(status) is Offline,
        status.level == ReplicatorActivityLevel::Connecting <==> spec_state_of(status) is Connecting,
        status.level == ReplicatorActivityLevel::Idle <==> spec_state_of(status) is Idle,
        (status.level == ReplicatorActivityLevel::Busy || status.level == ReplicatorActivityLevel::Stopping)
            <==> spec_state_of(status) is Busy,
        spec_state_of(status) matches ReplicatorState::Busy(p) ==> p == status.progress,
{
}

/// Basic credentials are written under their own keys: in the options written for a user
/// name and a password, the string right after the key "username" is the user name, the
/// string right after the key "password" is the password, and each key is written once.
pub proof fn lemma_basic_credentials_written(username: String, password: String)
    ensures
        ({
            let ops = spec_auth_options(ReplicatorAuthentication::Basic { username, password });
            &&& exists|i: int| 0 <= i < ops.len() - 1 && ops[i] == key_op("username"@)
            &&& exists|i: int| 0 <= i < ops.len() - 1 && ops[i] == key_op("password"@)
            &&& forall|i: int| 0 <= i < ops.len() - 1 && #[trigger] ops[i] == key_op("username"@) ==> ops[i + 1]
                == string_op(username@)
            &&& forall|i: int| 0 <= i < ops.len() - 1 && #[trigger] ops[i] == key_op("password"@) ==> ops[i + 1]
                == string_op(password@)
        }),
{
    let ops = spec_auth_options(ReplicatorAuthentication::Basic { username, password });
    reveal_strlit("auth");
    reveal_strlit("type");
    reveal_strlit("username");
    reveal_strlit("password");
    vstd::utf8::encode_utf8_decode_utf8("auth"@);
    vstd::utf8::encode_utf8_decode_utf8("type"@);
    vstd::utf8::encode_utf8_decode_utf8("username"@);
    vstd::utf8::encode_utf8_decode_utf8("password"@);
    assert("auth"@ != "username"@ && "type"@ != "username"@ && "password"@ != "username"@) by {
        assert("auth"@.len() != "username"@.len());
        assert("password"@[0] != "username"@[0]);
    }
    assert("auth"@ != "password"@ && "type"@ != "password"@);
    assert(ops[5] == key_op("username"@));
    assert(ops[7] == key_op("password"@));
}

/// Every kind of credentials is written as one dictionary: a session token under "auth"
/// as a dictionary whose "type" is "Session" and whose "token" is the token, and no
/// credentials as an empty dictionary.
pub proof fn lemma_session_and_none_written(token: String)
    ensures
        ({
            let ops = spec_auth_options(ReplicatorAuthentication::SessionToken(token));
            &&& ops.len() == 9
            &&& ops[0] == OpV::BeginDict(0) && ops[ops.len() - 1] == OpV::EndDict
            &&& ops[1] == key_op("auth"@) && ops[2] == OpV::BeginDict(0)
            &&& ops[3] == key_op("type"@) && ops[4] == string_op("Session"@)
            &&& ops[5] == key_op("token"@) && ops[6] == string_op(token@)
            &&& ops[7] == OpV::EndDict
        }),
        spec_auth_options(ReplicatorAuthentication::NoAuthentication) == seq![OpV::BeginDict(0), OpV::EndDict],
        spec_auth_options(ReplicatorAuthentication::Basic { username: token, password: token })[4]
            == string_op("Basic"@),
{
}

/// The outcome of starting a replicator, by the status read right after the start:
/// the error of a stopped replicator, else success.
pub fn start_result(status: C4ReplicatorStatus) -> (r: Result<(), Error>)
    ensures
        status.level == ReplicatorActivityLevel::Stopped ==> (r matches Err(e) && e@ == ErrorKind::C4Error(
            status.error,
        )),
        status.level != ReplicatorActivityLevel::Stopped ==> r is Ok,
{
    let state = ReplicatorState::from(status);
    match state {
        ReplicatorState::Stopped(err) => Err(err),
        _ => Ok(()),
    }
}

/// The outcome of asking an offline replicator to reconnect: whether it
/// will, when the engine reported no error code, else that error.
pub fn retry_result(will_reconnect: bool, err: C4Error) -> (r: Result<bool, Error>)
    ensures
        err.code == 0 ==> r == Ok::<bool, Error>(will_reconnect),
        err.code != 0 ==> (r matches Err(e) && e@ == ErrorKind::C4Error(err)),
{
    if err.code == 0 {
        Ok(will_reconnect)
    } else {
        Err(Error::C4Error(err))
    }
}

/// The state of a database's replication: offline when no
/// replicator was started, else the state its status stands for.
pub fn replicator_state(status: Option<C4ReplicatorStatus>) -> (r: Result<ReplicatorState, Error>)
    ensures
        status is None ==> (r matches Ok(s) && s is Offline),
        status matches Some(st) ==> r == Ok::<ReplicatorState, Error>(spec_state_of(st)),
{
    match status {
        Some(st) => Ok(ReplicatorState::from(st)),
        None => Ok(ReplicatorState::Offline),
    }
}

/// The error for a URL that the engine cannot parse.
pub fn url_error(url: &str) -> (r: Error)
    ensures
        r@ == ErrorKind::LogicError("Can not parse URL "@ + url@),
{
    let mut msg = String::from_str("Can not parse URL ");
    msg.append(url);
    Error::LogicError(msg)
}

/// Checks that a replication was started before it is restarted:
/// its parameters are checked first, then its replicator.
pub fn restart_check(has_params: bool, has_replicator: bool) -> (r: Result<(), Error>)
    ensures
        !has_params ==> (r matches Err(e) && e@ == ErrorKind::LogicError(
            "you call restart_replicator, but have not yet call start_replicator (params)"@,
        )),
        has_params && !has_replicator ==> (r matches Err(e) && e@ == ErrorKind::LogicError(
            "you call restart_replicator, but have not yet call start_replicator (repl)"@,
        )),
        has_params && has_replicator ==> r is Ok,
{
    if !has_params {
        return Err(Error::logic(
            "you call restart_replicator, but have not yet call start_replicator (params)",
        ));
    }
    if !has_replicator {
        return Err(Error::logic(
            "you call restart_replicator, but have not yet call start_replicator (repl)",
        ));
    }
    Ok(())
}

/// The UTF-8 bytes of a text written as a key.
pub open spec fn key_op(s: Seq<char>) -> OpV {
    OpV::WriteKey(encode_utf8(s))
}

/// The UTF-8 bytes of a text written as a string.
pub open spec fn string_op(s: Seq<char>) -> OpV {
    OpV::WriteString(encode_utf8(s))
}

/// The encoder calls that write the options of a replicator: a dictionary that holds, under
/// "auth", the kind of credentials and the credentials, or an empty one without credentials.
pub open spec fn spec_auth_options(auth: ReplicatorAuthentication) -> Seq<OpV> {
    match auth {
        ReplicatorAuthentication::SessionToken(token) => seq![
            OpV::BeginDict(0),
            key_op("auth"@),
            OpV::BeginDict(0),
            key_op("type"@),
            string_op("Session"@),
            key_op("token"@),
            string_op(token@),
            OpV::EndDict,
            OpV::EndDict,
        ],
        ReplicatorAuthentication::Basic { username, password } => seq![
            OpV::BeginDict(0),
            key_op("auth"@),
            OpV::BeginDict(0),
            key_op("type"@),
            string_op("Basic"@),
            key_op("username"@),
            string_op(username@),
            key_op("password"@),
            string_op(password@),
            OpV::EndDict,
            OpV::EndDict,
        ],
        ReplicatorAuthentication::NoAuthentication => seq![OpV::BeginDict(0), OpV::EndDict],
    }
}

fn push_op(enc: &mut FlEncoder, op: EncoderOp)
    ensures
        ops_view(final(enc).ops@) == ops_view(old(enc).ops@).push(op@),
{
    enc.ops.push(op);
    assert(ops_view(enc.ops@) =~= ops_view(old(enc).ops@).push(op@));
}

fn push_key(enc: &mut FlEncoder, key: &str)
    ensures
        ops_view(final(enc).ops@) == ops_view(old(enc).ops@).push(key_op(key@)),
{
    push_op(enc, EncoderOp::WriteKey(str_utf8(key)));
}

fn push_string(enc: &mut FlEncoder, text: &str)
    ensures
        ops_view(final(enc).ops@) == ops_view(old(enc).ops@).push(string_op(text@)),
{
    let ok = text.encode(enc);
}

/// Writes the options dictionary of a new replicator with credentials `auth` into `enc`.
pub fn write_replicator_options(auth: &ReplicatorAuthentication, enc: &mut FlEncoder)
    ensures
        ops_view(final(enc).ops@) == ops_view(old(enc).ops@) + spec_auth_options(*auth),
{
    let ghost start = ops_view(old(enc).ops@);
    push_op(enc, EncoderOp::BeginDict(0));
    match auth {
        ReplicatorAuthentication::SessionToken(token) => {
            push_key(enc, "auth");
            push_op(enc, EncoderOp::BeginDict(0));
            push_key(enc, "type");
            push_string(enc, "Session");
            push_key(enc, "token");
            push_string(enc, token.as_str());
            push_op(enc, EncoderOp::EndDict);
        },
        ReplicatorAuthentication::Basic { username, password } => {
            push_key(enc, "auth");
            push_op(enc, EncoderOp::BeginDict(0));
            push_key(enc, "type");
            push_string(enc, "Basic");
            push_key(enc, "username");
            push_string(enc, username.as_str());
            push_key(enc, "password");
            push_string(enc, password.as_str());
            push_op(enc, EncoderOp::EndDict);
        },
        ReplicatorAuthentication::NoAuthentication => {},
    }
    push_op(enc, EncoderOp::EndDict);
    assert(ops_view(enc.ops@) =~= start + spec_auth_options(*auth));
}

/// The outcome of finishing the options dictionary (the `fleece!` macro): the data when every
/// call succeeded and the data is not empty, else the encoder's error.
pub fn options_result(all_ok: bool, data: FLSliceResult, err: fleece_error::FlError) -> (r: Result<FLSliceResult, Error>)
    ensures
        all_ok && data.bytes@.len() != 0 ==> (r matches Ok(d) && d.bytes@ == data.bytes@),
        !(all_ok && data.bytes@.len() != 0) ==> (r matches Err(e) && e@ == ErrorKind::SerdeFleece(
            fleece_error::ErrorV::Fleece(err),
        )),
{
    if all_ok && !data.is_empty() {
        Ok(data)
    } else {
        Err(Error::SerdeFleece(fleece_error::Error::from_fl_error(err)))
    }
}

} // verus!
