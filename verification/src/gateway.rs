//! The gateway's decisions: admitting a connection on its first frame, and
//! routing what a desktop agent or a phone sends.
//!
//! The gateway is a router: it authenticates connections, classifies them as
//! desktop or phone, audits security-relevant events and forwards frames
//! between a desktop agent and the phone linked to it. Socket I/O, the token
//! check and the registry of live connections are run around these
//! functions.

use vstd::prelude::*;

use crate::audit::{records, AuditEntry, AuditEvent};
use crate::auth::{role_from_claims, role_of_name, Claims, UnknownRole};
use crate::message::{ClientMessage, ServerMessage};
use crate::session::{is_random_uuid, uuid_text, ClientRole, DeviceId, SessionId};
use crate::text::{join2, join3, join4, owned};

verus! {

/// Message pushed to a desktop connection's writer.
#[derive(Debug)]
pub enum DesktopOut {
    /// A JSON text frame to forward to the desktop (e.g. a phone's
    /// `TerminalInput` / `OpenSession`).
    Text(String),
    /// Tell the writer to close the socket.
    Close,
}

/// Message pushed to a phone connection's writer.
#[derive(Debug)]
pub enum PhoneOut {
    /// A JSON text frame (`ServerMessage`).
    Text(String),
    /// A binary frame (raw tagged stream bytes, e.g. PTY output).
    Binary(Vec<u8>),
    /// Tell the writer to close the socket.
    Close,
}

/// The first frame of a connection, as far as the gateway looks at it.
#[derive(Debug)]
pub enum FirstFrame {
    /// A text frame holding a client message.
    Text(ClientMessage),
    /// Any other frame.
    NotText,
}

/// What to do after the first frame.
#[derive(Debug)]
pub enum Opening {
    /// Check this token; the client declared this role and device.
    Verify { token: String, role: ClientRole, device_id: DeviceId },
    /// Refuse the connection with this reply (an `AuthFail`).
    Refuse(ServerMessage),
}

/// `audit` holds a record of `event` by `actor` with the given session and
/// detail.
pub open spec fn audited(
    audit: Option<AuditEntry>,
    event: AuditEvent,
    actor: Seq<char>,
    session_id: Option<Seq<char>>,
    detail: Option<Seq<char>>,
) -> bool {
    audit matches Some(a) && records(a, event, actor, session_id, detail)
}

/// The reply refusing a connection for `reason`.
pub open spec fn auth_fail(reply: ServerMessage, reason: Seq<char>) -> bool {
    reply matches ServerMessage::AuthFail { reason: r } && r@ == reason
}

/// Look at the first frame: it must be a text `Auth` message.
pub fn open_connection(first: FirstFrame) -> (r: Opening)
    ensures
        match first {
            FirstFrame::NotText => r matches Opening::Refuse(reply) && auth_fail(
                reply,
                "first frame must be Auth (text)"@,
            ),
            FirstFrame::Text(ClientMessage::Auth { token, role, device_id }) => r == (Opening::Verify {
                token,
                role,
                device_id,
            }),
            FirstFrame::Text(_) => r matches Opening::Refuse(reply) && auth_fail(
                reply,
                "first frame must be Auth"@,
            ),
        },
{
    match first {
        FirstFrame::NotText => Opening::Refuse(
            ServerMessage::AuthFail { reason: owned("first frame must be Auth (text)") },
        ),
        FirstFrame::Text(ClientMessage::Auth { token, role, device_id }) => Opening::Verify {
            token,
            role,
            device_id,
        },
        FirstFrame::Text(_) => Opening::Refuse(
            ServerMessage::AuthFail { reason: owned("first frame must be Auth") },
        ),
    }
}

/// The token did not verify (bad signature, malformed, or expired).
#[derive(Debug, Clone, Copy)]
pub struct TokenRejected;

/// The outcome of checking a connection's credentials.
#[derive(Debug)]
pub enum Admission {
    /// Refuse the connection: send `reply` (an `AuthFail`), recording
    /// `audit` if present.
    Refuse { audit: Option<AuditEntry>, reply: ServerMessage },
    /// The verified token names a role the gateway does not know: end the
    /// connection with this error, without a reply.
    Drop(UnknownRole),
    /// Accept the connection for `role`: record `audit`, send `reply` (an
    /// `AuthOk`) and run the role's connection with `claims`.
    Admit { audit: AuditEntry, reply: ServerMessage, role: ClientRole, claims: Claims },
}

/// The reason given for a token that did not verify.
pub open spec fn invalid_token_reason() -> Seq<char> {
    "invalid token: jwt verify failed"@
}

/// `r` refuses the connection for `reason`, recording `audit`.
pub open spec fn refuses(r: Admission, audit: Option<AuditEntry>, reason: Seq<char>) -> bool {
    r matches Admission::Refuse { audit: a, reply } && a == audit && auth_fail(reply, reason)
}

/// `r` admits the connection for `role` with `claims`, answering with an
/// `AuthOk` stamped `now_ms` under a fresh connection id (a version-4 UUID),
/// and recording the login of the token's holder.
pub open spec fn admits(r: Admission, role: ClientRole, claims: Claims, now_ms: i64) -> bool {
    match r {
        Admission::Admit { audit, reply, role: rl, claims: c } => {
            &&& rl == role
            &&& c == claims
            &&& records(audit, AuditEvent::AuthOk, claims.role@ + ":"@ + claims.device_id@, None, None)
            &&& reply matches ServerMessage::AuthOk { session_id, server_time_ms }
            &&& server_time_ms == now_ms
            &&& is_random_uuid(session_id.0)
        },
        _ => false,
    }
}

/// The gateway's decision `r` on a connection that declared
/// `declared_role` and `claimed_device`, given the outcome of verifying its
/// token at `now_ms`: an invalid token is refused and audited, a token for an
/// unknown role ends the connection, a role mismatch is refused, otherwise
/// the connection is admitted and its login audited.
pub open spec fn admission(
    declared_role: ClientRole,
    claimed_device: DeviceId,
    verified: Result<Claims, TokenRejected>,
    now_ms: i64,
    r: Admission,
) -> bool {
    match verified {
        Err(_) => r matches Admission::Refuse { audit, reply } && auth_fail(
            reply,
            invalid_token_reason(),
        ) && audited(
            audit,
            AuditEvent::AuthFail,
            "?:"@ + claimed_device.0@,
            None,
            Some(invalid_token_reason()),
        ),
        Ok(claims) => match role_of_name(claims.role@) {
            None => r matches Admission::Drop(e) && e.role@ == claims.role@,
            Some(token_role) => if token_role != declared_role {
                refuses(r, None, "role mismatch between token and declared role"@)
            } else {
                admits(r, declared_role, claims, now_ms)
            },
        },
    }
}

/// Decide on a connection that declared `declared_role` and `claimed_device`,
/// given the outcome of verifying its token at `now_ms`.
pub fn authorize(
    declared_role: ClientRole,
    claimed_device: &DeviceId,
    verified: Result<Claims, TokenRejected>,
    now_ms: i64,
) -> (r: Admission)
    ensures
        admission(declared_role, *claimed_device, verified, now_ms, r),
{
    let claims = match verified {
        Err(_) => {
            let reason = owned("invalid token: jwt verify failed");
            let audit = AuditEntry {
                event: AuditEvent::AuthFail,
                actor: join2("?:", claimed_device.as_str()),
                session_id: None,
                detail: Some(owned("invalid token: jwt verify failed")),
            };
            return Admission::Refuse {
                audit: Some(audit),
                reply: ServerMessage::AuthFail { reason },
            };
        },
        Ok(c) => c,
    };
    let token_role = match role_from_claims(&claims) {
        Ok(role) => role,
        Err(e) => return Admission::Drop(e),
    };
    if token_role != declared_role {
        return Admission::Refuse {
            audit: None,
            reply: ServerMessage::AuthFail {
                reason: owned("role mismatch between token and declared role"),
            },
        };
    }
    let audit = AuditEntry {
        event: AuditEvent::AuthOk,
        actor: join3(claims.role.as_str(), ":", claims.device_id.as_str()),
        session_id: None,
        detail: None,
    };
    let reply = ServerMessage::AuthOk { session_id: SessionId::new(), server_time_ms: now_ms };
    Admission::Admit { audit, reply, role: declared_role, claims }
}

/// The actor name of a desktop agent in the audit log.
pub open spec fn desktop_actor(device_id: Seq<char>) -> Seq<char> {
    "desktop:"@ + device_id
}

/// The audit record of a desktop agent coming online or going offline.
pub fn desktop_presence(device_id: &str, online: bool) -> (a: AuditEntry)
    ensures
        records(
            a,
            if online {
                AuditEvent::DesktopOnline
            } else {
                AuditEvent::DesktopOffline
            },
            desktop_actor(device_id@),
            None,
            None,
        ),
{
    AuditEntry {
        event: if online {
            AuditEvent::DesktopOnline
        } else {
            AuditEvent::DesktopOffline
        },
        actor: join2("desktop:", device_id),
        session_id: None,
        detail: None,
    }
}

/// Whether the connection numbered `mine` may clear a registry slot (a
/// desktop agent's registration, or the phone linked to it) whose holder is
/// now `holder`: only when it still holds the slot itself.
pub open spec fn releases(holder: Option<u64>, mine: u64) -> bool {
    holder == Some(mine)
}

/// Decide whether the connection numbered `mine`, as it ends, clears the
/// registry slot whose holder is now `holder`. A newer connection that took
/// the slot over keeps it.
pub fn may_release(holder: Option<u64>, mine: u64) -> (r: bool)
    ensures
        r == releases(holder, mine),
{
    match holder {
        Some(h) => h == mine,
        None => false,
    }
}

/// The connection a new desktop registration evicts: the earlier holder of
/// the device's slot, if there is one other than the new connection.
pub open spec fn evicted(previous: Option<u64>, mine: u64) -> Option<u64> {
    match previous {
        Some(p) => if p != mine {
            Some(p)
        } else {
            None
        },
        None => None,
    }
}

/// Register the desktop connection numbered `mine` in a slot held before by
/// `previous`: the connection to close, which no longer holds the slot.
pub fn take_over(previous: Option<u64>, mine: u64) -> (r: Option<u64>)
    ensures
        r == evicted(previous, mine),
        r matches Some(p) ==> !releases(Some(mine), p),
{
    match previous {
        Some(p) => if p != mine {
            Some(p)
        } else {
            None
        },
        None => None,
    }
}

/// What the gateway does with a text frame from a desktop agent.
#[derive(Debug)]
pub struct DesktopRoute {
    /// Record this.
    pub audit: Option<AuditEntry>,
    /// Forward this to the linked phone (if one is linked).
    pub to_phone: Option<ServerMessage>,
    /// Send this back to the desktop agent.
    pub to_desktop: Option<ServerMessage>,
}

/// The audit detail of a file or image read.
pub open spec fn read_detail(path: Seq<char>, error: Option<String>) -> Seq<char> {
    match error {
        Some(e) => "path="@ + path + "; error="@ + e@,
        None => "path="@ + path,
    }
}

fn read_detail_text(path: &String, error: &Option<String>) -> (s: String)
    ensures
        s@ == read_detail(path@, *error),
{
    match error {
        Some(e) => join4("path=", path.as_str(), "; error=", e.as_str()),
        None => join2("path=", path.as_str()),
    }
}

/// `r` forwards `m` to the phone and records `entry` (when given), with
/// nothing sent back.
pub open spec fn forwards(r: DesktopRoute, m: ServerMessage) -> bool {
    r.to_phone == Some(m) && r.to_desktop is None
}

/// How the gateway routes `msg` from the desktop agent of `device_id`,
/// received at `now_ms`.
pub open spec fn desktop_route(device_id: Seq<char>, msg: ClientMessage, now_ms: i64, r: DesktopRoute) -> bool {
    match msg {
        ClientMessage::Ping { ts_ms } => r.audit is None && r.to_phone is None && r.to_desktop
            == Some(ServerMessage::Pong { ts_ms, server_time_ms: now_ms }),
        ClientMessage::ReportSessionOpened { session_id } => forwards(
            r,
            ServerMessage::SessionOpened { session_id },
        ) && audited(
            r.audit,
            AuditEvent::SessionOpen,
            desktop_actor(device_id),
            Some(uuid_text(session_id.0)),
            None,
        ),
        ClientMessage::ReportSessionClosed { session_id } => forwards(
            r,
            ServerMessage::SessionClosed { session_id },
        ) && audited(
            r.audit,
            AuditEvent::SessionClose,
            desktop_actor(device_id),
            Some(uuid_text(session_id.0)),
            None,
        ),
        ClientMessage::ReportSessionError { session_id, message } => forwards(
            r,
            ServerMessage::SessionError { session_id, message },
        ) && audited(
            r.audit,
            AuditEvent::SessionError,
            desktop_actor(device_id),
            Some(uuid_text(session_id.0)),
            Some(message@),
        ),
        ClientMessage::ReportDanger { session_id, command, pattern } => forwards(
            r,
            ServerMessage::DangerWarn { session_id, command, pattern },
        ) && audited(
            r.audit,
            AuditEvent::DangerWarn,
            desktop_actor(device_id),
            Some(uuid_text(session_id.0)),
            Some("cmd="@ + command@ + "; pattern="@ + pattern@),
        ),
        ClientMessage::ReportDirListing { request_id, path, entries } => forwards(
            r,
            ServerMessage::DirListing { request_id, path, entries },
        ) && audited(
            r.audit,
            AuditEvent::DirList,
            desktop_actor(device_id),
            None,
            Some("path="@ + path@),
        ),
        ClientMessage::ReportFileContent { request_id, path, content, truncated, error } =>
            forwards(
            r,
            ServerMessage::FileContent { request_id, path, content, truncated, error },
        ) && audited(
            r.audit,
            AuditEvent::FileRead,
            desktop_actor(device_id),
            None,
            Some(read_detail(path@, error)),
        ),
        ClientMessage::ReportImageContent {
            request_id,
            path,
            mime_type,
            data_base64,
            truncated,
            error,
        } => forwards(
            r,
            ServerMessage::ImageContent {
                request_id,
                path,
                mime_type,
                data_base64,
                truncated,
                error,
            },
        ) && audited(
            r.audit,
            AuditEvent::ImageRead,
            desktop_actor(device_id),
            None,
            Some(read_detail(path@, error)),
        ),
        _ => r.audit is None && r.to_phone is None && r.to_desktop is None,
    }
}

/// Route a text frame from the desktop agent of `device_id`, received at
/// `now_ms`: every report is audited and forwarded to the phone as the
/// matching server message; a ping is answered.
pub fn route_from_desktop(device_id: &str, msg: ClientMessage, now_ms: i64) -> (r: DesktopRoute)
    ensures
        desktop_route(device_id@, msg, now_ms, r),
{
    match msg {
        ClientMessage::Ping { ts_ms } => DesktopRoute {
            audit: None,
            to_phone: None,
            to_desktop: Some(ServerMessage::Pong { ts_ms, server_time_ms: now_ms }),
        },
        ClientMessage::ReportSessionOpened { session_id } => DesktopRoute {
            audit: Some(
                AuditEntry {
                    event: AuditEvent::SessionOpen,
                    actor: join2("desktop:", device_id),
                    session_id: Some(session_id.to_text()),
                    detail: None,
                },
            ),
            to_phone: Some(ServerMessage::SessionOpened { session_id }),
            to_desktop: None,
        },
        ClientMessage::ReportSessionClosed { session_id } => DesktopRoute {
            audit: Some(
                AuditEntry {
                    event: AuditEvent::SessionClose,
                    actor: join2("desktop:", device_id),
                    session_id: Some(session_id.to_text()),
                    detail: None,
                },
            ),
            to_phone: Some(ServerMessage::SessionClosed { session_id }),
            to_desktop: None,
        },
        ClientMessage::ReportSessionError { session_id, message } => DesktopRoute {
            audit: Some(
                AuditEntry {
                    event: AuditEvent::SessionError,
                    actor: join2("desktop:", device_id),
                    session_id: Some(session_id.to_text()),
                    detail: Some(message.clone()),
                },
            ),
            to_phone: Some(ServerMessage::SessionError { session_id, message }),
            to_desktop: None,
        },
        ClientMessage::ReportDanger { session_id, command, pattern } => {
            let detail = join4("cmd=", command.as_str(), "; pattern=", pattern.as_str());
            DesktopRoute {
                audit: Some(
                    AuditEntry {
                        event: AuditEvent::DangerWarn,
                        actor: join2("desktop:", device_id),
                        session_id: Some(session_id.to_text()),
                        detail: Some(detail),
                    },
                ),
                to_phone: Some(ServerMessage::DangerWarn { session_id, command, pattern }),
                to_desktop: None,
            }
        },
        ClientMessage::ReportDirListing { request_id, path, entries } => {
            let detail = join2("path=", path.as_str());
            DesktopRoute {
                audit: Some(
                    AuditEntry {
                        event: AuditEvent::DirList,
                        actor: join2("desktop:", device_id),
                        session_id: None,
                        detail: Some(detail),
                    },
                ),
                to_phone: Some(ServerMessage::DirListing { request_id, path, entries }),
                to_desktop: None,
            }
        },
        ClientMessage::ReportFileContent { request_id, path, content, truncated, error } => {
            let detail = read_detail_text(&path, &error);
            DesktopRoute {
                audit: Some(
                    AuditEntry {
                        event: AuditEvent::FileRead,
                        actor: join2("desktop:", device_id),
                        session_id: None,
                        detail: Some(detail),
                    },
                ),
                to_phone: Some(
                    ServerMessage::FileContent { request_id, path, content, truncated, error },
                ),
                to_desktop: None,
            }
        },
        ClientMessage::ReportImageContent {
            request_id,
            path,
            mime_type,
            data_base64,
            truncated,
            error,
        } => {
            let detail = read_detail_text(&path, &error);
            DesktopRoute {
                audit: Some(
                    AuditEntry {
                        event: AuditEvent::ImageRead,
                        actor: join2("desktop:", device_id),
                        session_id: None,
                        detail: Some(detail),
                    },
                ),
                to_phone: Some(
                    ServerMessage::ImageContent {
                        request_id,
                        path,
                        mime_type,
                        data_base64,
                        truncated,
                        error,
                    },
                ),
                to_desktop: None,
            }
        },
        _ => DesktopRoute { audit: None, to_phone: None, to_desktop: None },
    }
}

/// A binary frame from the desktop agent (PTY output) goes to the linked
/// phone unchanged.
pub fn route_desktop_binary(frame: Vec<u8>) -> (out: PhoneOut)
    ensures
        out == PhoneOut::Binary(frame),
{
    PhoneOut::Binary(frame)
}

/// Whether a phone-originated message is relayed to the desktop agent.
pub open spec fn relayed_to_desktop(msg: ClientMessage) -> bool {
    ||| msg is TerminalInput
    ||| msg is TerminalResize
    ||| msg is OpenSession
    ||| msg is CloseSession
    ||| msg is ListDir
    ||| msg is ReadFile
    ||| msg is ReadImage
}

/// What the gateway does with a text frame from a phone.
#[derive(Debug)]
pub enum PhoneRoute {
    /// Answer the phone.
    ToPhone(ServerMessage),
    /// Relay to the linked desktop agent.
    ToDesktop(DesktopOut),
    /// Nothing (an unexpected message).
    Ignore,
}

/// How the gateway routes a text frame `raw` from a phone, which parsed as
/// `msg`, received at `now_ms`.
pub open spec fn phone_route(msg: ClientMessage, raw: String, now_ms: i64, r: PhoneRoute) -> bool {
    match msg {
        ClientMessage::Ping { ts_ms } => r == PhoneRoute::ToPhone(
            ServerMessage::Pong { ts_ms, server_time_ms: now_ms },
        ),
        _ => if relayed_to_desktop(msg) {
            r == PhoneRoute::ToDesktop(DesktopOut::Text(raw))
        } else {
            r is Ignore
        },
    }
}

/// Route a text frame `raw` from a phone, which parsed as `msg`, received at
/// `now_ms`: a ping is answered, terminal and file-browser commands (file
/// and image reads included) are relayed verbatim to the desktop agent.
pub fn route_from_phone(msg: &ClientMessage, raw: String, now_ms: i64) -> (r: PhoneRoute)
    ensures
        phone_route(*msg, raw, now_ms, r),
{
    match msg {
        ClientMessage::Ping { ts_ms } => PhoneRoute::ToPhone(
            ServerMessage::Pong { ts_ms: *ts_ms, server_time_ms: now_ms },
        ),
        ClientMessage::TerminalInput { .. }
        | ClientMessage::TerminalResize { .. }
        | ClientMessage::OpenSession { .. }
        | ClientMessage::CloseSession { .. }
        | ClientMessage::ListDir { .. }
        | ClientMessage::ReadFile { .. }
        | ClientMessage::ReadImage { .. } => PhoneRoute::ToDesktop(DesktopOut::Text(raw)),
        _ => PhoneRoute::Ignore,
    }
}

/// The first message a phone gets after authenticating: whether the desktop
/// agent it targets is online. When it is not, the connection then ends.
pub fn phone_greeting(device_id: DeviceId, desktop_online: bool) -> (m: ServerMessage)
    ensures
        if desktop_online {
            m == ServerMessage::DesktopOnline { device_id }
        } else {
            m == ServerMessage::DesktopOffline { device_id }
        },
{
    if desktop_online {
        ServerMessage::DesktopOnline { device_id }
    } else {
        ServerMessage::DesktopOffline { device_id }
    }
}

} // verus!
