//! Messages exchanged between clients and the daemon.
//!
//! The wire form is JSON text frames with a `type` tag; the encoding lives at
//! the transport edge. Here the messages are plain values.
use vstd::prelude::*;

verus! {

/// Messages sent from a client to the daemon.
#[derive(Debug, Clone)]
pub enum ClientMessage {
    /// Authenticate with username and password.
    Login { username: String, password: String },
    /// Trade a refresh token for a fresh token pair.
    RefreshToken { refresh_token: String },
    /// List a directory.
    ListDir { path: String },
    /// Download a file (answered with `FileContent`).
    Download { path: String },
    /// Upload a file.
    Upload { path: String, content: Vec<u8> },
    /// Delete a file or directory.
    Delete { path: String },
    /// Rename or move a file or directory.
    Rename { from: String, to: String },
    /// Create a directory.
    Mkdir { path: String },
    /// Report the client's resources, for offload decisions.
    Capabilities(ClientCapabilities),
    /// Answer to an offload request.
    OffloadResult { task_id: String, result: Vec<u8> },
    /// Keepalive.
    Ping,
}

/// Messages sent from the daemon to a client.
#[derive(Debug, Clone)]
pub enum ServerMessage {
    /// Authentication succeeded.
    AuthSuccess(TokenPairResponse),
    /// Authentication failed.
    AuthError { message: String },
    /// A directory listing.
    DirListing { path: String, entries: Vec<FileEntryResponse> },
    /// The content of a downloaded file.
    FileContent { path: String, content: Vec<u8>, mime_type: Option<String> },
    /// An operation completed.
    OpSuccess { op: String, path: String },
    /// An operation failed.
    OpError { op: String, path: String, message: String },
    /// A load report.
    Load(ServerLoad),
    /// A request that the client perform a task.
    OffloadRequest { task_id: String, task: OffloadTask },
    /// A filesystem change (advisory).
    FsEvent(FsEvent),
    /// Answer to `Ping`.
    Pong,
    /// A generic error.
    Error { message: String },
}

/// A token pair as sent to clients.
#[derive(Debug, Clone)]
pub struct TokenPairResponse {
    pub access_token: String,
    pub refresh_token: String,
    pub expires_in: u64,
}

/// One entry of a directory listing.
#[derive(Debug, Clone)]
pub struct FileEntryResponse {
    pub name: String,
    pub path: String,
    pub is_dir: bool,
    pub size: u64,
    /// Unix seconds.
    pub modified: i64,
    pub mime_type: Option<String>,
}

/// The daemon's resource load.
///
/// CPU usage is held in hundredths of a percent (`9650` is 96.5 %).
#[derive(Debug, Clone)]
pub struct ServerLoad {
    pub cpu_hundredths: u32,
    pub ram_free_mb: u64,
    pub io_busy: bool,
    /// Advisory actions for clients, in definition order, without repeats.
    pub hints: Vec<LoadHint>,
}

/// Advisory actions for clients under load.
#[derive(Debug, Clone, Copy, PartialEq, Eq, Structural)]
pub enum LoadHint {
    /// Reduce concurrent transfers.
    ThrottleTransfers,
    /// Generate thumbnails on the client.
    GenerateThumbnailsLocally,
    /// Search on the client.
    SearchLocally,
    /// The daemon is recovering; operations may be slow.
    Recovering,
}

/// A client's self-reported resources.
#[derive(Debug, Clone, Copy, PartialEq, Eq, Structural)]
pub struct ClientCapabilities {
    pub cpu_cores: u32,
    pub has_gpu: bool,
    pub ram_free_mb: u64,
    pub on_ac_power: bool,
    pub can_generate_thumbnails: bool,
    pub can_search_locally: bool,
    pub can_compress: bool,
}

/// Work that may be handed to a capable client.
#[derive(Debug, Clone)]
pub enum OffloadTask {
    /// Make a thumbnail of an image or video.
    Thumbnail { path: String, source: Vec<u8>, width: u32, height: u32 },
    /// Search text in files.
    Search { query: String, paths: Vec<String> },
}

/// A filesystem change, broadcast to every session.
#[derive(Debug, Clone)]
pub enum FsEvent {
    Created { path: String, is_dir: bool },
    Modified { path: String },
    Deleted { path: String },
    Renamed { from: String, to: String },
}

} // verus!
