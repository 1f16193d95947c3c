//! pibox: the verified core of an orchestration daemon that sits between thin
//! clients and a local file-management HTTP service.
//!
//! The daemon:
//! - `auth`: stateless signed access / refresh tokens and their claims
//! - `claims_text`: the canonical JSON text of token claims
//! - `protocol`: the messages exchanged with clients
//! - `filebrowser`: the backend client's URLs, status mapping and records
//! - `load`: adaptive hints derived from CPU and memory pressure
//! - `server`: shared server state (sessions, transfer gate, offload policy)
//! - `session`: the decisions of a client session, request by request
//! - `config`: configuration records and their defaults
//!
//! The clients:
//! - `state`: the view model (cursor, selection, undo)
//! - `terminal`: the terminal client's actions and key bindings
//! - `gui`: the graphical client's messages and key bindings
//!
//! And `text`: character sequences, decimal numerals, string building.
use vstd::prelude::*;

pub mod auth;
pub mod claims_text;
pub mod config;
pub mod filebrowser;
pub mod gui;
pub mod load;
pub mod protocol;
pub mod server;
pub mod session;
pub mod state;
pub mod terminal;
pub mod text;

pub use auth::{Claims, JwtAuth, TokenPair};
pub use config::Config;
pub use filebrowser::FilebrowserClient;
pub use protocol::{ClientMessage, ServerMessage};
pub use state::{AppState, FileEntry, FileType};

verus! {

/// Default WebSocket port of the daemon.
pub const DEFAULT_WS_PORT: u16 = 9280;

/// Default port of the file-management backend (localhost only).
pub const DEFAULT_FILEBROWSER_PORT: u16 = 8080;

} // verus!
