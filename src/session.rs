//! What a client session decides.
//!
//! A session waits for a login, then answers requests one at a time. Each
//! request is first decided here (`AppState::begin_request`): answered at
//! once, ignored, or turned into a backend call. The transport edge performs
//! the call and hands its result back (`AppState::finish_*`), which gives the
//! reply and, after a successful change, the filesystem event for every
//! other session. A download or upload holds a transfer slot from its
//! admission to its completion, whatever the backend answered.
use vstd::prelude::*;

use crate::auth::{auth_error_text, generated, refreshed, AuthError, TokenPair};
use crate::filebrowser::{fb_error_text, FilebrowserError};
use crate::protocol::{ClientMessage, FileEntryResponse, FsEvent, ServerMessage, TokenPairResponse};
use crate::server::{same_services, transfer_step, AppState, SessionView, TransferOp};
use crate::state::{FileEntry, FileType};

verus! {

/// Message of a download or upload refused by the transfer gate.
pub open spec fn too_many_transfers() -> Seq<char> {
    "Too many concurrent transfers"@
}

/// Message sent when a connection closes without a valid login.
pub open spec fn auth_required() -> Seq<char> {
    "Authentication required"@
}

/// A backend call that a request needs.
#[derive(Debug)]
pub enum BackendCall {
    ListDir { path: String },
    Download { path: String },
    Upload { path: String, content: Vec<u8> },
    Delete { path: String },
    Rename { from: String, to: String },
    Mkdir { path: String },
}

/// What to do with a request.
#[derive(Debug)]
pub enum Step {
    /// Send this reply.
    Reply(ServerMessage),
    /// Send nothing.
    Silent,
    /// Perform this backend call, then finish the request with its result.
    Call(BackendCall),
}

/// The end of a request: the reply, and the filesystem event to broadcast.
#[derive(Debug)]
pub struct Outcome {
    pub reply: ServerMessage,
    pub event: Option<FsEvent>,
}

/// Whether `m` is `OpError { op, path, message }` with these views.
pub open spec fn is_op_error(m: ServerMessage, op: Seq<char>, path: Seq<char>, message: Seq<char>) -> bool {
    m matches ServerMessage::OpError { op: o, path: p, message: e } && o@ == op && p@ == path
        && e@ == message
}

/// Whether `m` is an `OpError { op, path, .. }` whose message is that of `e`.
pub open spec fn is_backend_error(
    m: ServerMessage,
    op: Seq<char>,
    path: Seq<char>,
    e: FilebrowserError,
) -> bool {
    m matches ServerMessage::OpError { op: o, path: p, message: t } && o@ == op && p@ == path
        && fb_error_text(e, t@)
}

/// Whether `m` is `OpSuccess { op, path }` with these views.
pub open spec fn is_op_success(m: ServerMessage, op: Seq<char>, path: Seq<char>) -> bool {
    m matches ServerMessage::OpSuccess { op: o, path: p } && o@ == op && p@ == path
}

/// Whether `r` is the listing entry for `e`.
pub open spec fn response_of(e: FileEntry, r: FileEntryResponse) -> bool {
    &&& r.name == e.name
    &&& r.path == e.path
    &&& r.is_dir == (e.file_type == FileType::Directory)
    &&& r.size == e.size
    &&& r.modified == e.modified
    &&& r.mime_type == e.mime_type
}

/// Whether `m` is the reply to a token request with this result.
pub open spec fn token_reply_of(r: Result<TokenPair, AuthError>, m: ServerMessage) -> bool {
    match r {
        Ok(pair) => m matches ServerMessage::AuthSuccess(t) && t.access_token == pair.access_token
            && t.refresh_token == pair.refresh_token && t.expires_in == pair.expires_in,
        Err(e) => m matches ServerMessage::AuthError { message } && auth_error_text(e, message@),
    }
}

/// The reply to a login or refresh whose token request gave `r`.
pub fn token_reply(r: Result<TokenPair, AuthError>) -> (m: ServerMessage)
    ensures
        token_reply_of(r, m),
{
    match r {
        Ok(pair) => ServerMessage::AuthSuccess(
            TokenPairResponse {
                access_token: pair.access_token,
                refresh_token: pair.refresh_token,
                expires_in: pair.expires_in,
            },
        ),
        Err(e) => ServerMessage::AuthError { message: e.message() },
    }
}

/// The reply sent when a connection closes without a valid login.
pub fn auth_failure_reply() -> (m: ServerMessage)
    ensures
        m matches ServerMessage::AuthError { message } && message@ == auth_required(),
{
    ServerMessage::AuthError { message: "Authentication required".to_string() }
}

/// Whether a username and password pass the credential check: both
/// non-empty.
pub open spec fn credentials_ok(username: Seq<char>, password: Seq<char>) -> bool {
    username.len() > 0 && password.len() > 0
}

/// The credential check: any non-empty username and password.
pub fn accept_credentials(username: &str, password: &str) -> (r: bool)
    ensures
        r == credentials_ok(username@, password@),
{
    !username.is_empty() && !password.is_empty()
}

/// What a message does to a connection waiting for its login.
#[derive(Debug)]
pub enum AuthStep {
    /// A login with accepted credentials, for this user.
    Accept(String),
    /// A login with refused credentials: the connection is closed.
    Reject,
    /// Not a login: keep waiting.
    Ignore,
}

/// What a message does to a connection waiting for its login.
pub fn auth_step(msg: ClientMessage) -> (r: AuthStep)
    ensures
        match msg {
            ClientMessage::Login { username, password } => if credentials_ok(username@, password@) {
                r matches AuthStep::Accept(u) && u == username
            } else {
                r is Reject
            },
            _ => r is Ignore,
        },
{
    match msg {
        ClientMessage::Login { username, password } => {
            if accept_credentials(username.as_str(), password.as_str()) {
                AuthStep::Accept(username)
            } else {
                AuthStep::Reject
            }
        },
        _ => AuthStep::Ignore,
    }
}

/// The reply to a listing that gave `r`.
pub fn list_outcome(path: String, r: Result<Vec<FileEntry>, FilebrowserError>) -> (o: Outcome)
    ensures
        o.event is None,
        match r {
            Ok(entries) => o.reply matches ServerMessage::DirListing { path: p, entries: v } && p@
                == path@ && v.len() == entries.len() && forall|i: int|
                0 <= i < v.len() ==> response_of(#[trigger] entries[i], v[i]),
            Err(e) => is_backend_error(o.reply, "list"@, path@, e),
        },
{
    match r {
        Ok(entries) => {
            let ghost all = entries@;
            let mut v: Vec<FileEntryResponse> = Vec::new();
            for e in it: entries
                invariant
                    it.seq() == all,
                    v.len() == it.index(),
                    forall|j: int| 0 <= j < v.len() ==> response_of(#[trigger] all[j], v[j]),
            {
                let is_dir = e.is_dir();
                v.push(
                    FileEntryResponse {
                        name: e.name,
                        path: e.path,
                        is_dir,
                        size: e.size,
                        modified: e.modified,
                        mime_type: e.mime_type,
                    },
                );
            }
            Outcome { reply: ServerMessage::DirListing { path, entries: v }, event: None }
        },
        Err(e) => Outcome {
            reply: ServerMessage::OpError { op: "list".to_string(), path, message: e.message() },
            event: None,
        },
    }
}

/// The reply to a download that gave `r`.
pub fn download_outcome(path: String, r: Result<Vec<u8>, FilebrowserError>) -> (o: Outcome)
    ensures
        o.event is None,
        match r {
            Ok(content) => o.reply matches ServerMessage::FileContent { path: p, content: c, mime_type }
                && p@ == path@ && c@ == content@ && mime_type is None,
            Err(e) => is_backend_error(o.reply, "download"@, path@, e),
        },
{
    match r {
        Ok(content) => Outcome {
            reply: ServerMessage::FileContent { path, content, mime_type: None },
            event: None,
        },
        Err(e) => Outcome {
            reply: ServerMessage::OpError { op: "download".to_string(), path, message: e.message() },
            event: None,
        },
    }
}

/// The reply and event of a change (`op`) on `path` that gave `r`; `event`
/// is broadcast on success.
fn change_outcome(op: &str, path: String, r: Result<(), FilebrowserError>, event: FsEvent) -> (o:
    Outcome)
    ensures
        match r {
            Ok(()) => is_op_success(o.reply, op@, path@) && o.event == Some(event),
            Err(e) => is_backend_error(o.reply, op@, path@, e) && o.event is None,
        },
{
    match r {
        Ok(()) => Outcome {
            reply: ServerMessage::OpSuccess { op: op.to_string(), path },
            event: Some(event),
        },
        Err(e) => Outcome {
            reply: ServerMessage::OpError { op: op.to_string(), path, message: e.message() },
            event: None,
        },
    }
}

/// The reply and event of an upload that gave `r`: on success, a file was
/// created at `path`.
pub fn upload_outcome(path: String, r: Result<(), FilebrowserError>) -> (o: Outcome)
    ensures
        match r {
            Ok(()) => is_op_success(o.reply, "upload"@, path@) && (o.event matches Some(
                FsEvent::Created { path: p, is_dir },
            ) && p@ == path@ && !is_dir),
            Err(e) => is_backend_error(o.reply, "upload"@, path@, e) && o.event is None,
        },
{
    let event = FsEvent::Created { path: path.clone(), is_dir: false };
    change_outcome("upload", path, r, event)
}

/// The reply and event of a deletion that gave `r`.
pub fn delete_outcome(path: String, r: Result<(), FilebrowserError>) -> (o: Outcome)
    ensures
        match r {
            Ok(()) => is_op_success(o.reply, "delete"@, path@) && (o.event matches Some(
                FsEvent::Deleted { path: p },
            ) && p@ == path@),
            Err(e) => is_backend_error(o.reply, "delete"@, path@, e) && o.event is None,
        },
{
    let event = FsEvent::Deleted { path: path.clone() };
    change_outcome("delete", path, r, event)
}

/// The reply and event of a rename that gave `r`; the reply names the source.
pub fn rename_outcome(from: String, to: String, r: Result<(), FilebrowserError>) -> (o: Outcome)
    ensures
        match r {
            Ok(()) => is_op_success(o.reply, "rename"@, from@) && (o.event matches Some(
                FsEvent::Renamed { from: f, to: t },
            ) && f@ == from@ && t@ == to@),
            Err(e) => is_backend_error(o.reply, "rename"@, from@, e) && o.event is None,
        },
{
    let event = FsEvent::Renamed { from: from.clone(), to };
    change_outcome("rename", from, r, event)
}

/// The reply and event of a directory creation that gave `r`.
pub fn mkdir_outcome(path: String, r: Result<(), FilebrowserError>) -> (o: Outcome)
    ensures
        match r {
            Ok(()) => is_op_success(o.reply, "mkdir"@, path@) && (o.event matches Some(
                FsEvent::Created { path: p, is_dir },
            ) && p@ == path@ && is_dir),
            Err(e) => is_backend_error(o.reply, "mkdir"@, path@, e) && o.event is None,
        },
{
    let event = FsEvent::Created { path: path.clone(), is_dir: true };
    change_outcome("mkdir", path, r, event)
}

/// The reply to a download or upload that the transfer gate refused.
fn refused_transfer(op: &str, path: String) -> (m: ServerMessage)
    ensures
        is_op_error(m, op@, path@, too_many_transfers()),
{
    ServerMessage::OpError {
        op: op.to_string(),
        path,
        message: "Too many concurrent transfers".to_string(),
    }
}

/// Whether a step is the decision for a request, given whether the transfer
/// gate admitted it (for a download or upload).
pub open spec fn decided(msg: ClientMessage, admitted: bool, step: Step) -> bool {
    match msg {
        ClientMessage::Ping => step matches Step::Reply(ServerMessage::Pong),
        ClientMessage::RefreshToken { .. } => step matches Step::Reply(m) && (m is AuthSuccess
            || m is AuthError),
        ClientMessage::ListDir { path } => step matches Step::Call(BackendCall::ListDir { path: p })
            && p@ == path@,
        ClientMessage::Download { path } => if admitted {
            step matches Step::Call(BackendCall::Download { path: p }) && p@ == path@
        } else {
            step matches Step::Reply(m) && is_op_error(m, "download"@, path@, too_many_transfers())
        },
        ClientMessage::Upload { path, content } => if admitted {
            step matches Step::Call(BackendCall::Upload { path: p, content: c }) && p@ == path@ && c@
                == content@
        } else {
            step matches Step::Reply(m) && is_op_error(m, "upload"@, path@, too_many_transfers())
        },
        ClientMessage::Delete { path } => step matches Step::Call(BackendCall::Delete { path: p })
            && p@ == path@,
        ClientMessage::Rename { from, to } => step matches Step::Call(
            BackendCall::Rename { from: f, to: t },
        ) && f@ == from@ && t@ == to@,
        ClientMessage::Mkdir { path } => step matches Step::Call(BackendCall::Mkdir { path: p })
            && p@ == path@,
        ClientMessage::Capabilities(_) => step is Silent,
        ClientMessage::OffloadResult { .. } => step is Silent,
        ClientMessage::Login { .. } => step is Silent,
    }
}

/// Whether `after` is `before` with one more message.
pub open spec fn announced(before: Seq<ServerMessage>, after: Seq<ServerMessage>) -> bool {
    after.len() == before.len() + 1 && after.drop_last() == before
}

/// The hub messages after an outcome: its event, if any, is added.
pub open spec fn hub_after(before: Seq<ServerMessage>, after: Seq<ServerMessage>, event: Option<
    FsEvent,
>) -> bool {
    match event {
        Some(e) => after == before.push(ServerMessage::FsEvent(e)),
        None => after == before,
    }
}

/// Whether two states agree on everything but the hub messages.
pub open spec fn keeps_all_but_hub(a: AppState, b: AppState) -> bool {
    &&& a.sessions() == b.sessions()
    &&& a.active() == b.active()
    &&& a.max_transfers() == b.max_transfers()
    &&& a.token_authority() == b.token_authority()
    &&& a.backend_client() == b.backend_client()
    &&& a.interval() == b.interval()
    &&& a.latest_load() == b.latest_load()
}

/// Whether a request asks for a transfer slot.
pub open spec fn is_transfer(msg: ClientMessage) -> bool {
    msg is Download || msg is Upload
}

impl AppState {
    /// Decide a request of session `client_id`. A download or upload takes
    /// a transfer slot if one is free, and is refused otherwise; capabilities
    /// are recorded; offload results and repeated logins are ignored.
    pub fn begin_request(&mut self, client_id: &str, msg: ClientMessage) -> (step: Step)
        requires
            old(self).wf(),
        ensures
            final(self).wf(),
            final(self).max_transfers() == old(self).max_transfers(),
            is_transfer(msg) ==> {
                let (n, admitted) = transfer_step(
                    old(self).active(),
                    old(self).max_transfers(),
                    TransferOp::Start,
                );
                &&& final(self).active() == n
                &&& decided(msg, admitted, step)
                &&& final(self).sessions() == old(self).sessions()
            },
            !is_transfer(msg) ==> {
                &&& final(self).active() == old(self).active()
                &&& decided(msg, false, step)
            },
            match msg {
                ClientMessage::Capabilities(caps) => old(self).sessions().contains_key(client_id@)
                    ==> final(self).sessions() == old(self).sessions().insert(
                    client_id@,
                    SessionView {
                        username: old(self).sessions()[client_id@].username,
                        capabilities: Some(caps),
                    },
                ),
                _ => true,
            },
            !(msg is Capabilities && old(self).sessions().contains_key(client_id@))
                ==> final(self).sessions() == old(self).sessions(),
            same_services(*final(self), *old(self)),
            msg matches ClientMessage::RefreshToken { refresh_token } ==> exists|
                r: Result<TokenPair, AuthError>,
            |
                #[trigger] refreshed(old(self).token_authority(), refresh_token@, r) && (
                step matches Step::Reply(m) && token_reply_of(r, m)),
    {
        match msg {
            ClientMessage::Ping => Step::Reply(ServerMessage::Pong),
            ClientMessage::RefreshToken { refresh_token } => {
                let r = self.jwt().refresh_tokens(refresh_token.as_str());
                let ghost gr = r;
                let m = token_reply(r);
                assert(refreshed(self.token_authority(), refresh_token@, gr));
                Step::Reply(m)
            },
            ClientMessage::ListDir { path } => Step::Call(BackendCall::ListDir { path }),
            ClientMessage::Download { path } => {
                if self.start_transfer() {
                    Step::Call(BackendCall::Download { path })
                } else {
                    Step::Reply(refused_transfer("download", path))
                }
            },
            ClientMessage::Upload { path, content } => {
                if self.start_transfer() {
                    Step::Call(BackendCall::Upload { path, content })
                } else {
                    Step::Reply(refused_transfer("upload", path))
                }
            },
            ClientMessage::Delete { path } => Step::Call(BackendCall::Delete { path }),
            ClientMessage::Rename { from, to } => Step::Call(BackendCall::Rename { from, to }),
            ClientMessage::Mkdir { path } => Step::Call(BackendCall::Mkdir { path }),
            ClientMessage::Capabilities(caps) => {
                self.update_client_capabilities(client_id, caps);
                Step::Silent
            },
            ClientMessage::OffloadResult { .. } => Step::Silent,
            ClientMessage::Login { .. } => Step::Silent,
        }
    }

    /// Broadcast the event of an outcome, if any, and return its reply.
    fn conclude(&mut self, o: Outcome) -> (m: ServerMessage)
        requires
            old(self).wf(),
        ensures
            final(self).wf(),
            m == o.reply,
            hub_after(old(self).published(), final(self).published(), o.event),
            o.event matches Some(e) ==> announced(old(self).published(), final(self).published())
                && final(self).published().last() == ServerMessage::FsEvent(e),
            keeps_all_but_hub(*final(self), *old(self)),
    {
        match o.event {
            Some(e) => {
                self.broadcast(ServerMessage::FsEvent(e));
                assert(self.published().drop_last() =~= old(self).published());
            },
            None => {},
        }
        o.reply
    }

    /// Finish a listing with the backend's result; nothing is broadcast.
    pub fn finish_list_dir(&self, path: String, r: Result<Vec<FileEntry>, FilebrowserError>) -> (m:
        ServerMessage)
        ensures
            match r {
                Ok(entries) => m matches ServerMessage::DirListing { path: p, entries: v } && p@
                    == path@ && v.len() == entries.len() && forall|i: int|
                    0 <= i < v.len() ==> response_of(#[trigger] entries[i], v[i]),
                Err(e) => is_backend_error(m, "list"@, path@, e),
            },
    {
        list_outcome(path, r).reply
    }

    /// Finish a download with the backend's result; its transfer slot is
    /// released and nothing is broadcast.
    pub fn finish_download(&mut self, path: String, r: Result<Vec<u8>, FilebrowserError>) -> (m:
        ServerMessage)
        requires
            old(self).wf(),
        ensures
            final(self).wf(),
            final(self).active() == transfer_step(
                old(self).active(),
                old(self).max_transfers(),
                TransferOp::End,
            ).0,
            final(self).max_transfers() == old(self).max_transfers(),
            final(self).sessions() == old(self).sessions(),
            same_services(*final(self), *old(self)),
            match r {
                Ok(content) => m matches ServerMessage::FileContent { path: p, content: c, mime_type }
                    && p@ == path@ && c@ == content@ && mime_type is None,
                Err(e) => is_backend_error(m, "download"@, path@, e),
            },
    {
        self.end_transfer();
        download_outcome(path, r).reply
    }

    /// Finish an upload with the backend's result; its transfer slot is
    /// released, and on success every session hears of the new file.
    pub fn finish_upload(&mut self, path: String, r: Result<(), FilebrowserError>) -> (m:
        ServerMessage)
        requires
            old(self).wf(),
        ensures
            final(self).wf(),
            final(self).active() == transfer_step(
                old(self).active(),
                old(self).max_transfers(),
                TransferOp::End,
            ).0,
            final(self).max_transfers() == old(self).max_transfers(),
            final(self).sessions() == old(self).sessions(),
            final(self).token_authority() == old(self).token_authority(),
            final(self).backend_client() == old(self).backend_client(),
            final(self).interval() == old(self).interval(),
            final(self).latest_load() == old(self).latest_load(),
            match r {
                Ok(()) => is_op_success(m, "upload"@, path@) && announced(
                    old(self).published(),
                    final(self).published(),
                ) && (final(self).published().last() matches ServerMessage::FsEvent(
                    FsEvent::Created { path: p, is_dir },
                ) && p@ == path@ && !is_dir),
                Err(e) => is_backend_error(m, "upload"@, path@, e) && final(self).published() == old(
                    self,
                ).published(),
            },
    {
        self.end_transfer();
        let o = upload_outcome(path, r);
        self.conclude(o)
    }

    /// Finish a deletion; on success every session hears of it.
    pub fn finish_delete(&mut self, path: String, r: Result<(), FilebrowserError>) -> (m:
        ServerMessage)
        requires
            old(self).wf(),
        ensures
            final(self).wf(),
            keeps_all_but_hub(*final(self), *old(self)),
            match r {
                Ok(()) => is_op_success(m, "delete"@, path@) && announced(
                    old(self).published(),
                    final(self).published(),
                ) && (final(self).published().last() matches ServerMessage::FsEvent(
                    FsEvent::Deleted { path: p },
                ) && p@ == path@),
                Err(e) => is_backend_error(m, "delete"@, path@, e) && final(self).published() == old(
                    self,
                ).published(),
            },
    {
        let o = delete_outcome(path, r);
        self.conclude(o)
    }

    /// Finish a rename; on success every session hears of it.
    pub fn finish_rename(&mut self, from: String, to: String, r: Result<(), FilebrowserError>) -> (m:
        ServerMessage)
        requires
            old(self).wf(),
        ensures
            final(self).wf(),
            keeps_all_but_hub(*final(self), *old(self)),
            match r {
                Ok(()) => is_op_success(m, "rename"@, from@) && announced(
                    old(self).published(),
                    final(self).published(),
                ) && (final(self).published().last() matches ServerMessage::FsEvent(
                    FsEvent::Renamed { from: f, to: t },
                ) && f@ == from@ && t@ == to@),
                Err(e) => is_backend_error(m, "rename"@, from@, e) && final(self).published() == old(
                    self,
                ).published(),
            },
    {
        let o = rename_outcome(from, to, r);
        self.conclude(o)
    }

    /// Finish a directory creation; on success every session hears of it.
    pub fn finish_mkdir(&mut self, path: String, r: Result<(), FilebrowserError>) -> (m:
        ServerMessage)
        requires
            old(self).wf(),
        ensures
            final(self).wf(),
            keeps_all_but_hub(*final(self), *old(self)),
            match r {
                Ok(()) => is_op_success(m, "mkdir"@, path@) && announced(
                    old(self).published(),
                    final(self).published(),
                ) && (final(self).published().last() matches ServerMessage::FsEvent(
                    FsEvent::Created { path: p, is_dir },
                ) && p@ == path@ && is_dir),
                Err(e) => is_backend_error(m, "mkdir"@, path@, e) && final(self).published() == old(
                    self,
                ).published(),
            },
    {
        let o = mkdir_outcome(path, r);
        self.conclude(o)
    }

    /// Open a session for a user who logged in: issue a token pair, register
    /// the session and reply `AuthSuccess` with the tokens, with the
    /// session's hub subscription. Where no pair can be issued (the clock
    /// cannot be read) the reply is `AuthError` and nothing is registered.
    pub fn open_session(&mut self, id: String, username: String) -> (r: (
        Option<tokio::sync::broadcast::Receiver<ServerMessage>>,
        ServerMessage,
    ))
        requires
            old(self).wf(),
        ensures
            final(self).wf(),
            final(self).active() == old(self).active(),
            final(self).max_transfers() == old(self).max_transfers(),
            same_services(*final(self), *old(self)),
            exists|t: Result<TokenPair, AuthError>|
                #[trigger] generated(old(self).token_authority(), username@, None, t)
                    && token_reply_of(t, r.1) && (t is Ok <==> r.0 is Some),
            r.0 is Some ==> final(self).sessions() == old(self).sessions().insert(
                id@,
                SessionView { username: username@, capabilities: None },
            ),
            r.0 is None ==> final(self).sessions() == old(self).sessions(),
    {
        let tokens = self.jwt().generate_tokens(username.as_str(), None);
        let ghost gt = tokens;
        let ok = tokens.is_ok();
        let reply = token_reply(tokens);
        assert(generated(self.token_authority(), username@, None, gt));
        if ok {
            let rx = self.register_client(id, username);
            (Some(rx), reply)
        } else {
            (None, reply)
        }
    }
}

/// Login request of the HTTP endpoint.
#[derive(Debug, Clone)]
pub struct LoginRequest {
    pub username: String,
    pub password: String,
}

/// Login response of the HTTP endpoint.
#[derive(Debug, Clone)]
pub struct LoginResponse {
    pub access_token: String,
    pub refresh_token: String,
    pub expires_in: u64,
}

/// HTTP status of a refused login.
pub const STATUS_UNAUTHORIZED: u16 = 401;

/// HTTP status of a login whose tokens could not be issued.
pub const STATUS_INTERNAL_ERROR: u16 = 500;

impl AppState {
    /// Answer the HTTP login endpoint: 401 for refused credentials, else a
    /// freshly issued token pair, or 500 where none can be issued (the clock
    /// cannot be read).
    pub fn http_login(&self, req: &LoginRequest) -> (r: Result<LoginResponse, u16>)
        ensures
            !credentials_ok(req.username@, req.password@) ==> r == Err::<LoginResponse, u16>(
                STATUS_UNAUTHORIZED,
            ),
            credentials_ok(req.username@, req.password@) ==> exists|
                t: Result<TokenPair, AuthError>,
            |
                #[trigger] generated(self.token_authority(), req.username@, None, t) && (t is Err
                    ==> r == Err::<LoginResponse, u16>(STATUS_INTERNAL_ERROR)) && (t is Ok ==> ({
                    let pair = t->Ok_0;
                    let resp = r->Ok_0;
                    &&& r is Ok
                    &&& resp.access_token == pair.access_token
                    &&& resp.refresh_token == pair.refresh_token
                    &&& resp.expires_in == pair.expires_in
                })),
    {
        if !accept_credentials(req.username.as_str(), req.password.as_str()) {
            return Err(STATUS_UNAUTHORIZED);
        }
        let t = self.jwt().generate_tokens(req.username.as_str(), None);
        let ghost gt = t;
        assert(generated(self.token_authority(), req.username@, None, gt));
        match t {
            Ok(tokens) => Ok(
                LoginResponse {
                    access_token: tokens.access_token,
                    refresh_token: tokens.refresh_token,
                    expires_in: tokens.expires_in,
                },
            ),
            Err(_) => Err(STATUS_INTERNAL_ERROR),
        }
    }
}

} // verus!
