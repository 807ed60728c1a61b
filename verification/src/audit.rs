//! Audit log records.
//!
//! The gateway records security-relevant events (logins, session lifecycle,
//! danger warnings, file access). The decisions of what to record live in
//! [`crate::gateway`]; writing the rows (with their timestamp) is done by the
//! gateway's audit writer.

use vstd::prelude::*;

verus! {

/// The kinds of audited events.
#[derive(Debug, Clone, Copy, PartialEq, Eq, Structural)]
pub enum AuditEvent {
    AuthOk,
    AuthFail,
    SessionOpen,
    SessionClose,
    SessionError,
    DangerWarn,
    DesktopOnline,
    DesktopOffline,
    DirList,
    FileRead,
    ImageRead,
}

/// The name an event is stored under.
pub open spec fn event_name(e: AuditEvent) -> Seq<char> {
    match e {
        AuditEvent::AuthOk => "auth_ok"@,
        AuditEvent::AuthFail => "auth_fail"@,
        AuditEvent::SessionOpen => "session_open"@,
        AuditEvent::SessionClose => "session_close"@,
        AuditEvent::SessionError => "session_error"@,
        AuditEvent::DangerWarn => "danger_warn"@,
        AuditEvent::DesktopOnline => "desktop_online"@,
        AuditEvent::DesktopOffline => "desktop_offline"@,
        AuditEvent::DirList => "dir_list"@,
        AuditEvent::FileRead => "file_read"@,
        AuditEvent::ImageRead => "image_read"@,
    }
}

impl AuditEvent {
    /// The name the event is stored under.
    pub fn name(&self) -> (s: &'static str)
        ensures
            s@ == event_name(*self),
    {
        match self {
            AuditEvent::AuthOk => "auth_ok",
            AuditEvent::AuthFail => "auth_fail",
            AuditEvent::SessionOpen => "session_open",
            AuditEvent::SessionClose => "session_close",
            AuditEvent::SessionError => "session_error",
            AuditEvent::DangerWarn => "danger_warn",
            AuditEvent::DesktopOnline => "desktop_online",
            AuditEvent::DesktopOffline => "desktop_offline",
            AuditEvent::DirList => "dir_list",
            AuditEvent::FileRead => "file_read",
            AuditEvent::ImageRead => "image_read",
        }
    }
}

/// One audit row, without its timestamp (taken when it is written).
#[derive(Debug, Clone)]
pub struct AuditEntry {
    pub event: AuditEvent,
    /// Who acted, e.g. `desktop:dev-ws` or `phone:dev-ws`.
    pub actor: String,
    /// The PTY session concerned, as its UUID text.
    pub session_id: Option<String>,
    /// Free-form detail, e.g. the matched command of a danger warning.
    pub detail: Option<String>,
}

/// The text of an optional string.
pub open spec fn opt_text(s: Option<String>) -> Option<Seq<char>> {
    match s {
        Some(t) => Some(t@),
        None => None,
    }
}

/// `entry` is a record of `event` by `actor` with the given session and
/// detail.
pub open spec fn records(
    entry: AuditEntry,
    event: AuditEvent,
    actor: Seq<char>,
    session_id: Option<Seq<char>>,
    detail: Option<Seq<char>>,
) -> bool {
    &&& entry.event == event
    &&& entry.actor@ == actor
    &&& opt_text(entry.session_id) == session_id
    &&& opt_text(entry.detail) == detail
}

} // verus!
