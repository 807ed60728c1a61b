//! Properties that span the phone, the gateway and the desktop agent.

use vstd::prelude::*;

use crate::agent::{
    ends_line, file_report, image_report, input_effect, listing_report, spawned_effect, warns,
    writes_input, AgentAction, AgentState,
};
use crate::audit::AuditEvent;
use crate::auth::{lemma_role_name_roundtrip, role_name, Claims};
use crate::codec::{base64_decoded, lemma_base64_round_trip};
use crate::danger::{compiling, danger_sources, first_hit, regex_compiles, utf8_lossy};
use crate::fsbrowse::{is_component_prefix, part_bytes, FILE_READ_CAP, IMAGE_READ_CAP};
use crate::gateway::{
    admission, admits, audited, desktop_actor, desktop_route, phone_route, read_detail, releases,
    Admission, DesktopOut, DesktopRoute, PhoneRoute, TokenRejected,
};
use crate::message::{ClientMessage, DirEntry, ServerMessage};
use crate::phone::{line_bytes, opening_result, Opening};
use crate::session::{is_random_uuid, uuid_text, ClientRole, DeviceId};
use vstd::utf8::{decode_utf8, encode_utf8, valid_utf8};

verus! {

/// A line typed on the phone reaches the desktop's PTY unchanged: when the
/// terminal input carries (in base64) the line's bytes followed by CR LF and a
/// PTY is running, the agent writes exactly those bytes to it, and since the
/// line has ended it starts a fresh line.
pub proof fn lemma_typed_line_reaches_pty(
    old: AgentState,
    new: AgentState,
    checker: Seq<Seq<char>>,
    line: Seq<char>,
    data: Seq<char>,
    actions: Seq<AgentAction>,
)
    requires
        base64_decoded(encode_utf8(data)) == Some(line_bytes(line)),
        old.pty_open,
        input_effect(old, new, checker, data, actions),
    ensures
        writes_input(actions[0], line_bytes(line)),
        new.input_buffer@.len() == 0,
        new.pty_open,
{
    let b = line_bytes(line);
    assert(b[b.len() - 2] == 13u8);
    assert(ends_line(b));
}

/// Danger detection only warns: whatever the input holds, while a PTY runs
/// the input is written to it first, and the line's warning (if any) comes
/// after.
pub proof fn lemma_danger_is_warn_only(
    old: AgentState,
    new: AgentState,
    checker: Seq<Seq<char>>,
    data: Seq<char>,
    actions: Seq<AgentAction>,
)
    requires
        old.pty_open,
        base64_decoded(encode_utf8(data)) is Some,
        input_effect(old, new, checker, data, actions),
    ensures
        writes_input(actions[0], base64_decoded(encode_utf8(data))->0),
        forall|i: int| 1 <= i < actions.len() ==> actions[i] is Send,
{
    let bytes = base64_decoded(encode_utf8(data))->0;
    let line = old.input_buffer@ + bytes;
    assert forall|i: int| 1 <= i < actions.len() implies actions[i] is Send by {
        assert(i == 1);
        assert(warns(actions[1], old, checker, line));
    }
}

/// The session the agent opens is the one the phone adopts: the agent
/// reports the new PTY session under the id it now holds, the gateway
/// forwards that id to the phone (auditing the opening), and the phone,
/// waiting for its session, takes that id.
pub proof fn lemma_opened_session_adopted(
    old: AgentState,
    new: AgentState,
    actions: Seq<AgentAction>,
    m: ClientMessage,
    device_id: Seq<char>,
    now_ms: i64,
    r: DesktopRoute,
    opening: Opening,
)
    requires
        spawned_effect(old, new, Ok(()), actions),
        actions[actions.len() - 1] == AgentAction::Send(m),
        desktop_route(device_id, m, now_ms, r),
        r.to_phone matches Some(sm) && opening_result(sm, opening),
    ensures
        opening == Opening::Opened(new.current_session->0),
        audited(
            r.audit,
            AuditEvent::SessionOpen,
            desktop_actor(device_id),
            Some(uuid_text((new.current_session->0).0)),
            None,
        ),
{
}

/// A dangerous line typed on the phone comes back to it: the warning the
/// agent raises is forwarded by the gateway to the phone as a `DangerWarn`
/// naming the first matching pattern and the line, and it is audited.
pub proof fn lemma_danger_reaches_phone(
    old: AgentState,
    checker: Seq<Seq<char>>,
    line: Seq<u8>,
    m: ClientMessage,
    device_id: Seq<char>,
    now_ms: i64,
    r: DesktopRoute,
)
    requires
        warns(AgentAction::Send(m), old, checker, line),
        desktop_route(device_id, m, now_ms, r),
    ensures
        match r.to_phone {
            Some(ServerMessage::DangerWarn { session_id, command, pattern }) => {
                &&& Some(pattern@) == first_hit(checker, line)
                &&& command@ == utf8_lossy(line)
                &&& match old.current_session {
                    Some(s) => session_id == s,
                    None => is_random_uuid(session_id.0),
                }
                &&& audited(
                    r.audit,
                    AuditEvent::DangerWarn,
                    desktop_actor(device_id),
                    Some(uuid_text(session_id.0)),
                    Some("cmd="@ + command@ + "; pattern="@ + pattern@),
                )
            },
            _ => false,
        },
        r.to_desktop is None,
{
}

/// A directory listing the agent reports reaches the phone with the same
/// request id, path and entries, and the listed path is audited.
pub proof fn lemma_listing_reaches_phone(
    m: ClientMessage,
    request_id: String,
    requested: String,
    outcome: Result<(String, Vec<DirEntry>), ()>,
    device_id: Seq<char>,
    now_ms: i64,
    r: DesktopRoute,
)
    requires
        listing_report(m, request_id, requested, outcome),
        desktop_route(device_id, m, now_ms, r),
    ensures
        match (m, r.to_phone) {
            (
                ClientMessage::ReportDirListing { request_id: a, path: p, entries: e },
                Some(ServerMessage::DirListing { request_id: b, path: q, entries: f }),
            ) => a == request_id && b == a && q == p && f == e && audited(
                r.audit,
                AuditEvent::DirList,
                desktop_actor(device_id),
                None,
                Some("path="@ + p@),
            ),
            _ => false,
        },
{
}

/// A token issued for a role (whose claims name that role) is admitted by
/// the gateway for that role once it verifies, and the login is audited.
pub proof fn lemma_issued_token_admitted(
    role: ClientRole,
    claims: Claims,
    claimed_device: DeviceId,
    now_ms: i64,
    r: Admission,
)
    requires
        claims.role@ == role_name(role),
        admission(role, claimed_device, Ok::<Claims, TokenRejected>(claims), now_ms, r),
    ensures
        admits(r, role, claims, now_ms),
{
    lemma_role_name_roundtrip(role);
}

/// No connection is admitted without a verified token whose role is the
/// declared one.
pub proof fn lemma_admission_needs_matching_token(
    declared_role: ClientRole,
    claimed_device: DeviceId,
    verified: Result<Claims, TokenRejected>,
    now_ms: i64,
    r: Admission,
)
    requires
        admission(declared_role, claimed_device, verified, now_ms, r),
        r is Admit,
    ensures
        verified matches Ok(c) && crate::auth::role_of_name(c.role@) == Some(declared_role),
{
}

/// A connection's cleanup never takes over another connection's slot: once a
/// newer connection holds a desktop registration (or a phone link), the older
/// connection ending leaves it in place; the holder itself does release it.
pub proof fn lemma_cleanup_keeps_newer_holder(newer: u64, older: u64)
    requires
        newer != older,
    ensures
        !releases(Some(newer), older),
        releases(Some(newer), newer),
        !releases(None, older),
{
}

/// A file read the phone asked for is answered with the same request id:
/// the agent's report reaches the phone as `FileContent`, carrying content
/// or an error but never both, and the read is audited by path.
pub proof fn lemma_file_read_reaches_phone(
    m: ClientMessage,
    request_id: String,
    requested: String,
    outcome: Result<(String, Vec<u8>), String>,
    device_id: Seq<char>,
    now_ms: i64,
    r: DesktopRoute,
)
    requires
        file_report(m, request_id, requested, outcome),
        desktop_route(device_id, m, now_ms, r),
    ensures
        match r.to_phone {
            Some(ServerMessage::FileContent { request_id: rid, path, content, error, .. }) => {
                &&& rid == request_id
                &&& (error is Some ==> content is None)
                &&& (content is Some ==> error is None)
                &&& audited(
                    r.audit,
                    AuditEvent::FileRead,
                    desktop_actor(device_id),
                    None,
                    Some(read_detail(path@, error)),
                )
            },
            _ => false,
        },
        r.to_desktop is None,
{
}

/// An image read the phone asked for is answered with the same request id:
/// the agent's report reaches the phone as `ImageContent`, carrying data or
/// an error but never both, and the read is audited by path.
pub proof fn lemma_image_read_reaches_phone(
    m: ClientMessage,
    request_id: String,
    requested: String,
    outcome: Result<(String, Vec<u8>), String>,
    device_id: Seq<char>,
    now_ms: i64,
    r: DesktopRoute,
)
    requires
        image_report(m, request_id, requested, outcome),
        desktop_route(device_id, m, now_ms, r),
    ensures
        match r.to_phone {
            Some(ServerMessage::ImageContent { request_id: rid, path, data_base64, error, .. }) => {
                &&& rid == request_id
                &&& (error is Some ==> data_base64 is None)
                &&& (data_base64 is Some ==> error is None)
                &&& audited(
                    r.audit,
                    AuditEvent::ImageRead,
                    desktop_actor(device_id),
                    None,
                    Some(read_detail(path@, error)),
                )
            },
            _ => false,
        },
        r.to_desktop is None,
{
}

/// Every terminal and file-browser command a phone sends reaches its desktop
/// agent verbatim: keystrokes, resizes, opening and closing a session,
/// listing a directory and reading a file or an image are relayed as the
/// very text frame the phone sent.
pub proof fn lemma_phone_commands_reach_desktop(msg: ClientMessage, raw: String, now_ms: i64, r: PhoneRoute)
    requires
        phone_route(msg, raw, now_ms, r),
        msg is TerminalInput || msg is TerminalResize || msg is OpenSession || msg is CloseSession
            || msg is ListDir || msg is ReadFile || msg is ReadImage,
    ensures
        r == PhoneRoute::ToDesktop(DesktopOut::Text(raw)),
{
}

/// A phone cannot speak for a desktop or re-authenticate mid-connection:
/// an `Auth` frame or any desktop report coming from a phone goes nowhere.
pub proof fn lemma_phone_reports_go_nowhere(msg: ClientMessage, raw: String, now_ms: i64, r: PhoneRoute)
    requires
        phone_route(msg, raw, now_ms, r),
        msg is Auth || msg is ReportSessionOpened || msg is ReportSessionClosed
            || msg is ReportSessionError || msg is ReportDanger || msg is ReportDirListing
            || msg is ReportFileContent || msg is ReportImageContent,
    ensures
        r is Ignore,
{
}

/// A phone's ping is answered with its own timestamp and the gateway's
/// clock.
pub proof fn lemma_phone_ping_answered(ts_ms: i64, raw: String, now_ms: i64, r: PhoneRoute)
    requires
        phone_route(ClientMessage::Ping { ts_ms }, raw, now_ms, r),
    ensures
        r == PhoneRoute::ToPhone(ServerMessage::Pong { ts_ms, server_time_ms: now_ms }),
{
}

/// Every desktop report reaches the phone field for field, as its server
/// message twin, and nothing goes back to the desktop.
pub proof fn lemma_reports_forwarded_field_for_field(
    device_id: Seq<char>,
    m: ClientMessage,
    now_ms: i64,
    r: DesktopRoute,
)
    requires
        desktop_route(device_id, m, now_ms, r),
    ensures
        match m {
            ClientMessage::ReportSessionOpened { session_id } => r.to_phone == Some(
                ServerMessage::SessionOpened { session_id },
            ),
            ClientMessage::ReportSessionClosed { session_id } => r.to_phone == Some(
                ServerMessage::SessionClosed { session_id },
            ),
            ClientMessage::ReportSessionError { session_id, message } => r.to_phone == Some(
                ServerMessage::SessionError { session_id, message },
            ),
            ClientMessage::ReportDanger { session_id, command, pattern } => r.to_phone == Some(
                ServerMessage::DangerWarn { session_id, command, pattern },
            ),
            ClientMessage::ReportDirListing { request_id, path, entries } => r.to_phone == Some(
                ServerMessage::DirListing { request_id, path, entries },
            ),
            ClientMessage::ReportFileContent { request_id, path, content, truncated, error } =>
                r.to_phone == Some(
                ServerMessage::FileContent { request_id, path, content, truncated, error },
            ),
            ClientMessage::ReportImageContent {
                request_id,
                path,
                mime_type,
                data_base64,
                truncated,
                error,
            } => r.to_phone == Some(
                ServerMessage::ImageContent {
                    request_id,
                    path,
                    mime_type,
                    data_base64,
                    truncated,
                    error,
                },
            ),
            _ => r.to_phone is None,
        },
        (m is ReportSessionOpened || m is ReportSessionClosed || m is ReportSessionError
            || m is ReportDanger || m is ReportDirListing || m is ReportFileContent
            || m is ReportImageContent) ==> r.to_desktop is None && r.audit is Some,
{
}

/// The jail admits every path under the root, at any depth: the root
/// followed by any further components lies within the root.
pub proof fn lemma_jail_admits_any_depth(root: Seq<Vec<u8>>, rest: Seq<Vec<u8>>)
    ensures
        is_component_prefix(root, root + rest),
{
    assert forall|k: int| 0 <= k < root.len() implies #[trigger] root[k]@ == (root + rest)[k]@ by {
        assert((root + rest)[k] == root[k]);
    }
}

/// The jail admits nothing else: a path within the root is the root followed
/// by further components.
pub proof fn lemma_jail_admits_only_extensions(root: Seq<Vec<u8>>, path: Seq<Vec<u8>>)
    requires
        is_component_prefix(root, path),
    ensures
        part_bytes(path) == part_bytes(root) + part_bytes(path.skip(root.len() as int)),
{
    assert(part_bytes(path) =~= part_bytes(root) + part_bytes(path.skip(root.len() as int)));
}

/// A pattern that matches `word` as a whole word.
pub open spec fn whole_word(word: Seq<char>) -> Seq<char> {
    r"\b"@ + word + r"\b"@
}

/// The agent watches for five things, in this order: a recursive forced
/// `rm`, the whole words `shutdown`, `reboot` and `mkfs`, and `dd` writing
/// to a device; and a checker holds every one of them that compiles.
pub proof fn lemma_danger_watch_list()
    ensures
        danger_sources() == seq![
            r"rm\s+(-[a-zA-Z]*r[a-zA-Z]*f|--recursive\b.*--force\b)"@,
            whole_word("shutdown"@),
            whole_word("reboot"@),
            whole_word("mkfs"@),
            r"dd\s+.*of=/dev/"@,
        ],
        forall|p: Seq<char>|
            danger_sources().contains(p) && regex_compiles(p) ==> #[trigger] compiling(
                danger_sources(),
            ).contains(p),
{
    reveal_strlit(r"\b");
    reveal_strlit("shutdown");
    reveal_strlit("reboot");
    reveal_strlit("mkfs");
    reveal_strlit(r"\bshutdown\b");
    reveal_strlit(r"\breboot\b");
    reveal_strlit(r"\bmkfs\b");
    assert(r"\bshutdown\b"@ =~= whole_word("shutdown"@));
    assert(r"\breboot\b"@ =~= whole_word("reboot"@));
    assert(r"\bmkfs\b"@ =~= whole_word("mkfs"@));
    assert(danger_sources() =~= seq![
        r"rm\s+(-[a-zA-Z]*r[a-zA-Z]*f|--recursive\b.*--force\b)"@,
        whole_word("shutdown"@),
        whole_word("reboot"@),
        whole_word("mkfs"@),
        r"dd\s+.*of=/dev/"@,
    ]);
    assert forall|p: Seq<char>|
        danger_sources().contains(p) && regex_compiles(p) implies #[trigger] compiling(
            danger_sources(),
        ).contains(p) by {
        let i = choose|i: int| 0 <= i < danger_sources().len() && danger_sources()[i] == p;
        danger_sources().lemma_filter_contains(|q: Seq<char>| regex_compiles(q), i);
    }
}

/// An image report says it was cut exactly when it carries less than the
/// whole file: its data decode to the leading bytes of the file, the first
/// `IMAGE_READ_CAP` of them at most, and `truncated` holds exactly when
/// bytes were left out.
pub proof fn lemma_image_cut_is_reported(
    m: ClientMessage,
    request_id: String,
    requested: String,
    canon: String,
    bytes: Vec<u8>,
)
    requires
        image_report(m, request_id, requested, Ok((canon, bytes))),
    ensures
        m matches ClientMessage::ReportImageContent { data_base64, truncated, error, .. } && {
            &&& error is None
            &&& data_base64 matches Some(d) && base64_decoded(encode_utf8(d@)) matches Some(data) && {
                &&& data.is_prefix_of(bytes@)
                &&& data.len() == if bytes@.len() > IMAGE_READ_CAP {
                    IMAGE_READ_CAP as int
                } else {
                    bytes@.len() as int
                }
                &&& truncated == (data.len() < bytes@.len())
            }
        },
{
    let data = crate::fsbrowse::capped(bytes@, IMAGE_READ_CAP as int);
    lemma_base64_round_trip(data);
    assert(data.is_prefix_of(bytes@)) by {
        if bytes@.len() > IMAGE_READ_CAP {
            assert(data =~= bytes@.subrange(0, data.len() as int));
        } else {
            assert(data =~= bytes@.subrange(0, data.len() as int));
        }
    }
}

/// A text file within the size cap reaches the phone whole: its report
/// carries exactly the file's text, no error, and is not marked cut; a file
/// longer than the cap is always marked cut.
pub proof fn lemma_text_file_reported_whole(
    m: ClientMessage,
    request_id: String,
    requested: String,
    canon: String,
    bytes: Vec<u8>,
)
    requires
        file_report(m, request_id, requested, Ok((canon, bytes))),
    ensures
        m matches ClientMessage::ReportFileContent { content, truncated, error, .. } && {
            &&& truncated == (bytes@.len() > FILE_READ_CAP)
            &&& (bytes@.len() <= FILE_READ_CAP && valid_utf8(bytes@)) ==> {
                &&& error is None
                &&& content matches Some(c) && c@ == decode_utf8(bytes@)
            }
            &&& (content is Some <==> error is None)
        },
{
    if bytes@.len() <= FILE_READ_CAP && valid_utf8(bytes@) {
        assert(bytes@.take(bytes@.len() - 0) =~= bytes@);
    }
}

} // verus!
