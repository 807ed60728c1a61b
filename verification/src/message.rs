//! Wire messages between a client (phone or desktop) and the gateway.
//!
//! Direction is implied by the authenticated role, so no routing labels are
//! embedded here: the gateway attaches them based on which side sent a frame.
//! On the wire each message is a JSON object tagged by `"type"` with the
//! variant's snake_case name.

use vstd::prelude::*;

use crate::session::{ClientRole, DeviceId, SessionId};

verus! {

/// One entry in a directory listing (file or subdirectory): read-only
/// metadata, no content.
#[derive(Debug, Clone, PartialEq)]
pub struct DirEntry {
    pub name: String,
    pub is_dir: bool,
    pub size: u64,
    pub modified_ms: i64,
}

/// Messages a client (phone or desktop) sends to the gateway.
#[derive(Debug, Clone)]
pub enum ClientMessage {
    /// First frame on a connection. Authenticates and classifies the role.
    Auth { token: String, role: ClientRole, device_id: DeviceId },
    /// Keystrokes/input destined for the PTY. `data` is base64-encoded bytes.
    /// Phone -> desktop (routed).
    TerminalInput { session_id: SessionId, data: String },
    /// Resize the PTY. Phone -> desktop (routed).
    TerminalResize { session_id: SessionId, cols: u16, rows: u16 },
    /// Phone asks the desktop to spawn a new PTY session.
    OpenSession { shell: Option<String> },
    /// Phone asks to close a PTY session.
    CloseSession { session_id: SessionId },
    /// Phone asks the desktop to list a directory (read-only). `request_id`
    /// correlates the asynchronous listing. Phone -> desktop (routed).
    ListDir { request_id: String, path: String },
    /// Phone asks the desktop to read a small text file (read-only).
    ReadFile { request_id: String, path: String },
    /// Phone asks the desktop to read a small image file (read-only).
    ReadImage { request_id: String, path: String },
    /// Desktop spawned the requested PTY.
    ReportSessionOpened { session_id: SessionId },
    /// PTY session ended.
    ReportSessionClosed { session_id: SessionId },
    /// Session-level error on the desktop side.
    ReportSessionError { session_id: SessionId, message: String },
    /// A dangerous-command pattern matched on the desktop (warn only:
    /// execution still proceeds).
    ReportDanger { session_id: SessionId, command: String, pattern: String },
    /// Desktop's response to a `ListDir` request.
    ReportDirListing { request_id: String, path: String, entries: Vec<DirEntry> },
    /// Desktop's response to a `ReadFile` request. `content` is `None` on
    /// error (see `error`); `truncated` is true if the file exceeded the cap.
    ReportFileContent {
        request_id: String,
        path: String,
        content: Option<String>,
        truncated: bool,
        error: Option<String>,
    },
    /// Desktop's response to a `ReadImage` request.
    ReportImageContent {
        request_id: String,
        path: String,
        mime_type: Option<String>,
        data_base64: Option<String>,
        truncated: bool,
        error: Option<String>,
    },
    /// Heartbeat.
    Ping { ts_ms: i64 },
}

/// Messages the gateway sends to a client (phone or desktop).
#[derive(Debug, Clone)]
pub enum ServerMessage {
    /// Authentication succeeded. `session_id` is connection-scoped (distinct
    /// from PTY session ids, which arrive via `SessionOpened`).
    AuthOk { session_id: SessionId, server_time_ms: i64 },
    /// Authentication failed. The connection will be closed.
    AuthFail { reason: String },
    /// Small / out-of-band terminal payload. Bulk output rides binary frames.
    TerminalOutput { session_id: SessionId, data: String },
    /// A dangerous-command pattern matched (warn only).
    DangerWarn { session_id: SessionId, command: String, pattern: String },
    /// Desktop spawned the requested PTY session.
    SessionOpened { session_id: SessionId },
    /// PTY session ended.
    SessionClosed { session_id: SessionId },
    /// A session-level error.
    SessionError { session_id: SessionId, message: String },
    /// Desktop agent connection state, routed to phones.
    DesktopOnline { device_id: DeviceId },
    /// Desktop agent disconnected.
    DesktopOffline { device_id: DeviceId },
    /// Heartbeat reply.
    Pong { ts_ms: i64, server_time_ms: i64 },
    /// Read-only directory listing, correlated by `request_id`.
    DirListing { request_id: String, path: String, entries: Vec<DirEntry> },
    /// Read-only file content, correlated by `request_id`.
    FileContent {
        request_id: String,
        path: String,
        content: Option<String>,
        truncated: bool,
        error: Option<String>,
    },
    /// Read-only image content, correlated by `request_id`.
    ImageContent {
        request_id: String,
        path: String,
        mime_type: Option<String>,
        data_base64: Option<String>,
        truncated: bool,
        error: Option<String>,
    },
    /// Generic protocol-level error.
    Error { code: String, message: String },
}

} // verus!
