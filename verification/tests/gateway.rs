use remote_cockpit::audit::AuditEvent;
use remote_cockpit::auth::Claims;
use remote_cockpit::gateway::{
    authorize, desktop_presence, may_release, take_over, open_connection, phone_greeting, route_desktop_binary,
    route_from_desktop, route_from_phone, Admission, DesktopOut, FirstFrame, Opening, PhoneOut,
    PhoneRoute, TokenRejected,
};
use remote_cockpit::message::{ClientMessage, DirEntry, ServerMessage};
use remote_cockpit::session::{ClientRole, DeviceId, SessionId};

fn auth_msg(role: ClientRole) -> ClientMessage {
    ClientMessage::Auth { token: "tok".into(), role, device_id: DeviceId::new("dev-ws".into()) }
}

fn reason(m: &ServerMessage) -> &str {
    match m {
        ServerMessage::AuthFail { reason } => reason,
        other => panic!("expected AuthFail, got {other:?}"),
    }
}

#[test]
fn first_frame_must_be_text_auth() {
    match open_connection(FirstFrame::NotText) {
        Opening::Refuse(m) => assert_eq!(reason(&m), "first frame must be Auth (text)"),
        Opening::Verify { .. } => panic!("non-text frame accepted"),
    }
    match open_connection(FirstFrame::Text(ClientMessage::Ping { ts_ms: 1 })) {
        Opening::Refuse(m) => assert_eq!(reason(&m), "first frame must be Auth"),
        Opening::Verify { .. } => panic!("non-auth frame accepted"),
    }
    match open_connection(FirstFrame::Text(auth_msg(ClientRole::Phone))) {
        Opening::Verify { token, role, device_id } => {
            assert_eq!(token, "tok");
            assert_eq!(role, ClientRole::Phone);
            assert_eq!(device_id.as_str(), "dev-ws");
        }
        Opening::Refuse(m) => panic!("auth frame refused: {m:?}"),
    }
}

fn claims(role: &str) -> Claims {
    Claims { device_id: "dev-ws".into(), role: role.into(), exp: 4_000_000_000 }
}

#[test]
fn invalid_token_is_refused_and_audited() {
    let dev = DeviceId::new("dev-ws".into());
    match authorize(ClientRole::Phone, &dev, Err(TokenRejected), 7) {
        Admission::Refuse { audit: Some(a), reply } => {
            assert_eq!(reason(&reply), "invalid token: jwt verify failed");
            assert_eq!(a.event, AuditEvent::AuthFail);
            assert_eq!(a.actor, "?:dev-ws");
            assert_eq!(a.detail.as_deref(), Some("invalid token: jwt verify failed"));
            assert!(a.session_id.is_none());
        }
        _ => panic!("invalid token not refused with an audit"),
    }
}

#[test]
fn role_mismatch_is_refused_without_audit() {
    let dev = DeviceId::new("dev-ws".into());
    match authorize(ClientRole::Desktop, &dev, Ok(claims("phone")), 7) {
        Admission::Refuse { audit: None, reply } => {
            assert_eq!(reason(&reply), "role mismatch between token and declared role")
        }
        _ => panic!("role mismatch not refused"),
    }
}

#[test]
fn unknown_role_drops_connection() {
    let dev = DeviceId::new("dev-ws".into());
    match authorize(ClientRole::Phone, &dev, Ok(claims("root")), 7) {
        Admission::Drop(e) => assert_eq!(e.message(), "unknown role in token: root"),
        _ => panic!("expected the connection to be dropped"),
    }
}

#[test]
fn matching_token_is_admitted_and_audited() {
    let dev = DeviceId::new("other".into());
    match authorize(ClientRole::Phone, &dev, Ok(claims("phone")), 1234) {
        Admission::Admit { audit, reply, role, claims } => {
            assert_eq!(role, ClientRole::Phone);
            assert_eq!(claims.device_id, "dev-ws");
            assert_eq!(audit.event, AuditEvent::AuthOk);
            assert_eq!(audit.actor, "phone:dev-ws");
            match reply {
                ServerMessage::AuthOk { server_time_ms, session_id } => {
                    assert_eq!(server_time_ms, 1234);
                    assert_eq!((session_id.0 >> 76) & 0xF, 4);
                }
                other => panic!("expected AuthOk, got {other:?}"),
            }
        }
        _ => panic!("valid token not admitted"),
    }
}

#[test]
fn desktop_ping_is_answered() {
    let r = route_from_desktop("dev-ws", ClientMessage::Ping { ts_ms: 10 }, 15);
    assert!(r.audit.is_none() && r.to_phone.is_none());
    assert!(matches!(r.to_desktop, Some(ServerMessage::Pong { ts_ms: 10, server_time_ms: 15 })));
}

#[test]
fn session_reports_are_audited_and_forwarded() {
    let sid = SessionId(0x0123456789abcdef0123456789abcdef);
    let r = route_from_desktop("dev-ws", ClientMessage::ReportSessionOpened { session_id: sid }, 0);
    let a = r.audit.unwrap();
    assert_eq!(a.event, AuditEvent::SessionOpen);
    assert_eq!(a.actor, "desktop:dev-ws");
    assert_eq!(a.session_id.as_deref(), Some("01234567-89ab-cdef-0123-456789abcdef"));
    assert!(matches!(r.to_phone, Some(ServerMessage::SessionOpened { session_id }) if session_id == sid));

    let r = route_from_desktop("dev-ws", ClientMessage::ReportSessionClosed { session_id: sid }, 0);
    assert_eq!(r.audit.unwrap().event, AuditEvent::SessionClose);
    assert!(matches!(r.to_phone, Some(ServerMessage::SessionClosed { session_id }) if session_id == sid));

    let r = route_from_desktop(
        "dev-ws",
        ClientMessage::ReportSessionError { session_id: sid, message: "boom".into() },
        0,
    );
    let a = r.audit.unwrap();
    assert_eq!(a.event, AuditEvent::SessionError);
    assert_eq!(a.event.name(), "session_error");
    assert_eq!(a.actor, "desktop:dev-ws");
    assert_eq!(a.session_id.as_deref(), Some("01234567-89ab-cdef-0123-456789abcdef"));
    assert_eq!(a.detail.as_deref(), Some("boom"));
    assert!(matches!(r.to_phone, Some(ServerMessage::SessionError { message, .. }) if message == "boom"));
}

#[test]
fn danger_report_is_audited_with_command_and_pattern() {
    let sid = SessionId(1);
    let r = route_from_desktop(
        "dev-ws",
        ClientMessage::ReportDanger { session_id: sid, command: "rm -rf /tmp".into(), pattern: r"rm\s+-rf".into() },
        0,
    );
    let a = r.audit.unwrap();
    assert_eq!(a.event, AuditEvent::DangerWarn);
    assert_eq!(a.detail.as_deref(), Some(r"cmd=rm -rf /tmp; pattern=rm\s+-rf"));
    match r.to_phone {
        Some(ServerMessage::DangerWarn { session_id, command, pattern }) => {
            assert_eq!(session_id, sid);
            assert_eq!(command, "rm -rf /tmp");
            assert_eq!(pattern, r"rm\s+-rf");
        }
        other => panic!("expected DangerWarn, got {other:?}"),
    }
}

#[test]
fn file_browser_reports_are_audited_by_path() {
    let entries = vec![DirEntry { name: "src".into(), is_dir: true, size: 0, modified_ms: 1 }];
    let r = route_from_desktop(
        "dev-ws",
        ClientMessage::ReportDirListing { request_id: "req-1".into(), path: "/p".into(), entries: entries.clone() },
        0,
    );
    let a = r.audit.unwrap();
    assert_eq!(a.event, AuditEvent::DirList);
    assert_eq!(a.detail.as_deref(), Some("path=/p"));
    assert!(matches!(r.to_phone, Some(ServerMessage::DirListing { entries: e, .. }) if e == entries));

    let r = route_from_desktop(
        "dev-ws",
        ClientMessage::ReportFileContent {
            request_id: "req-2".into(),
            path: "/x".into(),
            content: None,
            truncated: true,
            error: Some("not a text file".into()),
        },
        0,
    );
    let a = r.audit.unwrap();
    assert_eq!(a.event, AuditEvent::FileRead);
    assert_eq!(a.detail.as_deref(), Some("path=/x; error=not a text file"));
    assert!(matches!(r.to_phone, Some(ServerMessage::FileContent { truncated: true, .. })));

    let r = route_from_desktop(
        "dev-ws",
        ClientMessage::ReportImageContent {
            request_id: "req-img".into(),
            path: "/i.png".into(),
            mime_type: Some("image/png".into()),
            data_base64: Some("iVBORw0KGgo=".into()),
            truncated: false,
            error: None,
        },
        0,
    );
    let a = r.audit.unwrap();
    assert_eq!(a.event, AuditEvent::ImageRead);
    assert_eq!(a.detail.as_deref(), Some("path=/i.png"));
    assert!(matches!(r.to_phone, Some(ServerMessage::ImageContent { mime_type: Some(m), .. }) if m == "image/png"));
}

#[test]
fn phone_messages_from_desktop_are_ignored() {
    let r = route_from_desktop("dev-ws", ClientMessage::OpenSession { shell: None }, 0);
    assert!(r.audit.is_none() && r.to_phone.is_none() && r.to_desktop.is_none());
}

#[test]
fn phone_commands_are_relayed_verbatim() {
    let raw = r#"{"type":"open_session","shell":null}"#.to_string();
    match route_from_phone(&ClientMessage::OpenSession { shell: None }, raw.clone(), 0) {
        PhoneRoute::ToDesktop(DesktopOut::Text(t)) => assert_eq!(t, raw),
        _ => panic!("open_session not relayed"),
    }
    let list = ClientMessage::ListDir { request_id: "r".into(), path: ".".into() };
    assert!(matches!(route_from_phone(&list, "x".into(), 0), PhoneRoute::ToDesktop(_)));
    let read = ClientMessage::ReadFile { request_id: "r".into(), path: "a.txt".into() };
    assert!(matches!(route_from_phone(&read, "f".into(), 0), PhoneRoute::ToDesktop(DesktopOut::Text(t)) if t == "f"));
    let image = ClientMessage::ReadImage { request_id: "r".into(), path: "a.png".into() };
    assert!(matches!(route_from_phone(&image, "i".into(), 0), PhoneRoute::ToDesktop(DesktopOut::Text(t)) if t == "i"));
    let report = ClientMessage::ReportSessionOpened { session_id: SessionId(1) };
    assert!(matches!(route_from_phone(&report, "x".into(), 0), PhoneRoute::Ignore));
}

#[test]
fn phone_ping_is_answered() {
    match route_from_phone(&ClientMessage::Ping { ts_ms: 1000 }, "p".into(), 1005) {
        PhoneRoute::ToPhone(ServerMessage::Pong { ts_ms, server_time_ms }) => {
            assert_eq!((ts_ms, server_time_ms), (1000, 1005))
        }
        _ => panic!("ping not answered"),
    }
}

#[test]
fn greeting_and_presence() {
    assert!(matches!(phone_greeting(DeviceId::new("d".into()), true), ServerMessage::DesktopOnline { .. }));
    assert!(matches!(phone_greeting(DeviceId::new("d".into()), false), ServerMessage::DesktopOffline { .. }));
    let a = desktop_presence("dev-ws", true);
    assert_eq!((a.event, a.actor.as_str()), (AuditEvent::DesktopOnline, "desktop:dev-ws"));
    assert_eq!(desktop_presence("dev-ws", false).event, AuditEvent::DesktopOffline);
    assert_eq!(AuditEvent::DesktopOffline.name(), "desktop_offline");
    assert_eq!(AuditEvent::AuthOk.name(), "auth_ok");
    assert!(matches!(route_desktop_binary(vec![1, 2]), PhoneOut::Binary(b) if b == vec![1, 2]));
}

#[test]
fn only_the_holder_releases_a_slot() {
    assert!(may_release(Some(7), 7));
    assert!(!may_release(Some(8), 7));
    assert!(!may_release(None, 7));
}

#[test]
fn a_new_registration_evicts_the_older_connection() {
    assert_eq!(take_over(Some(3), 9), Some(3));
    assert_eq!(take_over(None, 9), None);
    assert_eq!(take_over(Some(9), 9), None);
}
