use base64::Engine;
use remote_cockpit::agent::{
    auth_message, auth_outcome, next_backoff_ms, AgentAction, AgentEvent, AgentFlow, AgentState,
    AuthOutcome, AuthReply, INITIAL_BACKOFF_MS, MAX_BACKOFF_MS,
};
use remote_cockpit::config::DesktopConfig;
use remote_cockpit::danger::DangerChecker;
use remote_cockpit::frame::{encode, stream_tag};
use remote_cockpit::message::{ClientMessage, DirEntry, ServerMessage};
use remote_cockpit::phone::input_message;
use remote_cockpit::session::{ClientRole, SessionId};

fn config() -> DesktopConfig {
    DesktopConfig {
        gateway_url: "wss://127.0.0.1:8443/ws".into(),
        token: "tok".into(),
        device_id: "dev-ws".into(),
        shell: "/bin/sh".into(),
    }
}

fn step(st: &mut AgentState, event: AgentEvent) -> Vec<AgentAction> {
    let r = st.step(&DangerChecker::new(), &config(), event);
    assert!(matches!(r.flow, AgentFlow::Continue));
    r.actions
}

fn open_session(st: &mut AgentState) -> SessionId {
    let actions = step(st, AgentEvent::Spawned(Ok(())));
    match actions.last() {
        Some(AgentAction::Send(ClientMessage::ReportSessionOpened { session_id })) => *session_id,
        other => panic!("expected ReportSessionOpened, got {other:?}"),
    }
}

fn input(st: &mut AgentState, text: &str) -> Vec<AgentAction> {
    let data = base64_of(text.as_bytes());
    step(st, AgentEvent::FromPhone(ClientMessage::TerminalInput { session_id: SessionId(0), data }))
}

fn base64_of(bytes: &[u8]) -> String {
    base64::engine::general_purpose::STANDARD.encode(bytes)
}

#[test]
fn backoff_doubles_up_to_the_cap() {
    assert_eq!(next_backoff_ms(INITIAL_BACKOFF_MS), 500);
    assert_eq!(next_backoff_ms(16_000), 30_000);
    assert_eq!(next_backoff_ms(MAX_BACKOFF_MS), MAX_BACKOFF_MS);
}

#[test]
fn agent_authenticates_as_desktop() {
    match auth_message(&config()) {
        ClientMessage::Auth { token, role, device_id } => {
            assert_eq!(token, "tok");
            assert_eq!(role, ClientRole::Desktop);
            assert_eq!(device_id.as_str(), "dev-ws");
        }
        other => panic!("expected Auth, got {other:?}"),
    }
}

#[test]
fn auth_answers() {
    let ok = ServerMessage::AuthOk { session_id: SessionId(1), server_time_ms: 0 };
    assert!(matches!(auth_outcome(AuthReply::Message(ok)), AuthOutcome::Authenticated));
    let fail = ServerMessage::AuthFail { reason: "bad token".into() };
    assert!(matches!(auth_outcome(AuthReply::Message(fail)), AuthOutcome::Rejected { reason } if reason == "bad token"));
    assert!(matches!(auth_outcome(AuthReply::NotText), AuthOutcome::NotText));
    let pong = ServerMessage::Pong { ts_ms: 1, server_time_ms: 2 };
    assert!(matches!(auth_outcome(AuthReply::Message(pong)), AuthOutcome::Unexpected(_)));
}

#[test]
fn open_session_spawns_requested_or_configured_shell() {
    let mut st = AgentState::new();
    let a = step(&mut st, AgentEvent::FromPhone(ClientMessage::OpenSession { shell: None }));
    assert!(matches!(&a[..], [AgentAction::Spawn { shell }] if shell == "/bin/sh"));
    let a = step(&mut st, AgentEvent::FromPhone(ClientMessage::OpenSession { shell: Some("bash".into()) }));
    assert!(matches!(&a[..], [AgentAction::Spawn { shell }] if shell == "bash"));
    assert!(!st.pty_open);
}

#[test]
fn spawn_outcomes() {
    let mut st = AgentState::new();
    let a = step(&mut st, AgentEvent::Spawned(Err("openpty".into())));
    assert!(matches!(&a[..], [AgentAction::Send(ClientMessage::ReportSessionError { message, .. })] if message == "spawn failed: openpty"));
    assert!(!st.pty_open && st.current_session.is_none());

    let sid = open_session(&mut st);
    assert!(st.pty_open);
    assert_eq!(st.current_session, Some(sid));

    // A second session replaces the first.
    let a = step(&mut st, AgentEvent::Spawned(Ok(())));
    assert!(matches!(&a[..], [AgentAction::KillPty, AgentAction::InstallPty, AgentAction::Send(ClientMessage::ReportSessionOpened { .. })]));
    assert_ne!(st.current_session, Some(sid));
}

#[test]
fn input_is_written_and_checked_per_line() {
    let mut st = AgentState::new();
    let sid = open_session(&mut st);
    for ch in ["r", "m", " ", "-", "r", "f", " ", "/"] {
        let a = input(&mut st, ch);
        assert!(matches!(&a[..], [AgentAction::WritePty(b)] if b == ch.as_bytes()));
    }
    assert_eq!(st.input_buffer, b"rm -rf /".to_vec());
    let a = input(&mut st, "\r");
    match &a[..] {
        [AgentAction::WritePty(b), AgentAction::Send(ClientMessage::ReportDanger { session_id, command, pattern })] => {
            assert_eq!(b, b"\r");
            assert_eq!(*session_id, sid);
            assert_eq!(command, "rm -rf /\r");
            assert_eq!(pattern, r"rm\s+(-[a-zA-Z]*r[a-zA-Z]*f|--recursive\b.*--force\b)");
        }
        other => panic!("expected a write and a danger report, got {other:?}"),
    }
    assert!(st.input_buffer.is_empty());
    let a = input(&mut st, "ls -la\n");
    assert!(matches!(&a[..], [AgentAction::WritePty(_)]));
    assert!(st.input_buffer.is_empty());
}

#[test]
fn bad_base64_is_ignored() {
    let mut st = AgentState::new();
    open_session(&mut st);
    let a = step(&mut st, AgentEvent::FromPhone(ClientMessage::TerminalInput { session_id: SessionId(0), data: "!!!".into() }));
    assert!(a.is_empty());
    assert!(st.input_buffer.is_empty());
}

#[test]
fn input_without_session_is_still_checked() {
    let mut st = AgentState::new();
    let a = input(&mut st, "reboot\n");
    assert!(matches!(&a[..], [AgentAction::Send(ClientMessage::ReportDanger { .. })]));
}

#[test]
fn phone_line_reaches_pty_as_typed_with_crlf() {
    let mut st = AgentState::new();
    let sid = open_session(&mut st);
    let msg = input_message(sid, "echo héllo");
    let a = step(&mut st, AgentEvent::FromPhone(msg));
    match &a[..] {
        [AgentAction::WritePty(b)] => assert_eq!(b, "echo héllo\r\n".as_bytes()),
        other => panic!("expected one write, got {other:?}"),
    }
}

#[test]
fn resize_close_and_end() {
    let mut st = AgentState::new();
    let a = step(&mut st, AgentEvent::FromPhone(ClientMessage::TerminalResize { session_id: SessionId(0), cols: 100, rows: 40 }));
    assert!(a.is_empty());
    let a = step(&mut st, AgentEvent::FromPhone(ClientMessage::CloseSession { session_id: SessionId(3) }));
    assert!(a.is_empty());

    open_session(&mut st);
    let a = step(&mut st, AgentEvent::FromPhone(ClientMessage::TerminalResize { session_id: SessionId(0), cols: 100, rows: 40 }));
    assert!(matches!(&a[..], [AgentAction::ResizePty { cols: 100, rows: 40 }]));
    let a = step(&mut st, AgentEvent::FromPhone(ClientMessage::CloseSession { session_id: SessionId(3) }));
    assert!(matches!(&a[..], [AgentAction::KillPty, AgentAction::Send(ClientMessage::ReportSessionClosed { session_id })] if *session_id == SessionId(3)));
    assert!(!st.pty_open && st.current_session.is_none());

    let sid = open_session(&mut st);
    let a = step(&mut st, AgentEvent::PtyEnded);
    assert!(matches!(&a[..], [AgentAction::KillPty, AgentAction::Send(ClientMessage::ReportSessionClosed { session_id })] if *session_id == sid));
    assert!(step(&mut st, AgentEvent::PtyEnded).is_empty());
}

#[test]
fn pty_output_heartbeat_and_connection_events() {
    let mut st = AgentState::new();
    let a = step(&mut st, AgentEvent::PtyOutput(b"hi".to_vec()));
    assert!(matches!(&a[..], [AgentAction::SendFrame(f)] if *f == encode(stream_tag::TERMINAL, b"hi")));
    let a = step(&mut st, AgentEvent::Heartbeat { now_ms: 99 });
    assert!(matches!(&a[..], [AgentAction::Send(ClientMessage::Ping { ts_ms: 99 })]));
    assert!(step(&mut st, AgentEvent::FromGateway(ServerMessage::Pong { ts_ms: 1, server_time_ms: 2 })).is_empty());
    assert!(step(&mut st, AgentEvent::Unparseable).is_empty());
    assert!(step(&mut st, AgentEvent::Binary).is_empty());
    assert!(step(&mut st, AgentEvent::FromPhone(ClientMessage::ReportSessionOpened { session_id: SessionId(3) })).is_empty());

    let c = config();
    let d = DangerChecker::new();
    assert!(matches!(st.step(&d, &c, AgentEvent::Closed).flow, AgentFlow::Stop));
    match st.step(&d, &c, AgentEvent::ReadFailed("reset".into())).flow {
        AgentFlow::Fail(m) => assert_eq!(m, "ws read: reset"),
        other => panic!("expected Fail, got {other:?}"),
    }
}

#[test]
fn directory_listing_round() {
    let mut st = AgentState::new();
    let a = step(&mut st, AgentEvent::FromPhone(ClientMessage::ListDir { request_id: "req-1".into(), path: "src".into() }));
    assert!(matches!(&a[..], [AgentAction::ListDir { request_id, path }] if request_id == "req-1" && path == "src"));

    let entries = vec![DirEntry { name: "a".into(), is_dir: false, size: 1, modified_ms: 2 }];
    let a = step(&mut st, AgentEvent::Listed {
        request_id: "req-1".into(),
        requested: "src".into(),
        outcome: Ok((r"\\?\C:\proj\src".into(), entries.clone())),
    });
    match &a[..] {
        [AgentAction::Send(ClientMessage::ReportDirListing { request_id, path, entries: e })] => {
            assert_eq!(request_id, "req-1");
            assert_eq!(path, r"C:\proj\src");
            assert_eq!(*e, entries);
        }
        other => panic!("expected a listing, got {other:?}"),
    }
    let a = step(&mut st, AgentEvent::Listed { request_id: "req-2".into(), requested: "../etc".into(), outcome: Err(()) });
    assert!(matches!(&a[..], [AgentAction::Send(ClientMessage::ReportDirListing { path, entries, .. })] if path == "../etc" && entries.is_empty()));
}

#[test]
fn backoff_saturates_for_any_delay() {
    assert_eq!(next_backoff_ms(14_999), 29_998);
    assert_eq!(next_backoff_ms(15_000), MAX_BACKOFF_MS);
    assert_eq!(next_backoff_ms(u64::MAX), MAX_BACKOFF_MS);
}

fn file_read(st: &mut AgentState, outcome: Result<(String, Vec<u8>), String>) -> ClientMessage {
    let a = step(st, AgentEvent::FileRead { request_id: "req-2".into(), requested: "README.md".into(), outcome });
    match a.as_slice() {
        [AgentAction::Send(m)] => m.clone(),
        other => panic!("expected one report, got {other:?}"),
    }
}

#[test]
fn file_read_is_answered_once() {
    let mut st = AgentState::new();
    let a = step(&mut st, AgentEvent::FromPhone(ClientMessage::ReadFile { request_id: "req-2".into(), path: "README.md".into() }));
    assert!(matches!(&a[..], [AgentAction::ReadFile { request_id, path }] if request_id == "req-2" && path == "README.md"));

    match file_read(&mut st, Ok((r"\\?\C:\proj\README.md".into(), b"# hello\n".to_vec()))) {
        ClientMessage::ReportFileContent { request_id, path, content, truncated, error } => {
            assert_eq!(request_id, "req-2");
            assert_eq!(path, r"C:\proj\README.md");
            assert_eq!(content.as_deref(), Some("# hello\n"));
            assert!(!truncated);
            assert_eq!(error, None);
        }
        other => panic!("expected file content, got {other:?}"),
    }
    match file_read(&mut st, Ok(("/p/logo.png".into(), vec![0x89, 0x50, 0xff, 0xfe]))) {
        ClientMessage::ReportFileContent { content, error, truncated, .. } => {
            assert_eq!(content, None);
            assert_eq!(error.as_deref(), Some("not a text file"));
            assert!(!truncated);
        }
        other => panic!("expected file content, got {other:?}"),
    }
    match file_read(&mut st, Err("path escapes fs root: /etc/passwd".into())) {
        ClientMessage::ReportFileContent { path, content, error, truncated, .. } => {
            assert_eq!(path, "README.md");
            assert_eq!(content, None);
            assert_eq!(error.as_deref(), Some("path escapes fs root: /etc/passwd"));
            assert!(!truncated);
        }
        other => panic!("expected file content, got {other:?}"),
    }
}

#[test]
fn long_file_is_cut_at_a_character_boundary() {
    let mut st = AgentState::new();
    // One byte short of the cap, then a two-byte character across it.
    let mut bytes = vec![b'a'; remote_cockpit::fsbrowse::FILE_READ_CAP - 1];
    bytes.extend_from_slice("é tail".as_bytes());
    match file_read(&mut st, Ok(("/p/big.txt".into(), bytes))) {
        ClientMessage::ReportFileContent { content, truncated, error, .. } => {
            assert!(truncated);
            assert_eq!(error, None);
            assert_eq!(content.unwrap().len(), remote_cockpit::fsbrowse::FILE_READ_CAP - 1);
        }
        other => panic!("expected file content, got {other:?}"),
    }
}

#[test]
fn image_read_is_answered_with_type_and_base64() {
    let mut st = AgentState::new();
    let a = step(&mut st, AgentEvent::FromPhone(ClientMessage::ReadImage { request_id: "req-img".into(), path: "icon.png".into() }));
    assert!(matches!(&a[..], [AgentAction::ReadImage { request_id, path }] if request_id == "req-img" && path == "icon.png"));
    let png = vec![0x89, 0x50, 0x4e, 0x47, 0x0d, 0x0a, 0x1a, 0x0a];
    let a = step(&mut st, AgentEvent::ImageRead { request_id: "req-img".into(), requested: "icon.png".into(), outcome: Ok(("/p/icon.png".into(), png)) });
    match &a[..] {
        [AgentAction::Send(ClientMessage::ReportImageContent { request_id, path, mime_type, data_base64, truncated, error })] => {
            assert_eq!(request_id, "req-img");
            assert_eq!(path, "/p/icon.png");
            assert_eq!(mime_type.as_deref(), Some("image/png"));
            assert_eq!(data_base64.as_deref(), Some("iVBORw0KGgo="));
            assert!(!truncated);
            assert_eq!(*error, None);
        }
        other => panic!("expected image content, got {other:?}"),
    }
    let a = step(&mut st, AgentEvent::ImageRead { request_id: "req-img".into(), requested: "icon.png".into(), outcome: Err("no such file".into()) });
    assert!(matches!(&a[..], [AgentAction::Send(ClientMessage::ReportImageContent { path, mime_type: None, data_base64: None, truncated: false, error: Some(e), .. })] if path == "icon.png" && e == "no such file"));
}

#[test]
fn fresh_ids_are_version_4() {
    let mut st = AgentState::new();
    let sid = open_session(&mut st);
    assert_eq!((sid.0 >> 76) & 0xF, 4);
    let a = step(&mut st, AgentEvent::Spawned(Err("no shell".into())));
    match &a[..] {
        [AgentAction::Send(ClientMessage::ReportSessionError { session_id, message })] => {
            assert_eq!((session_id.0 >> 76) & 0xF, 4);
            assert_eq!(message, "spawn failed: no shell");
        }
        other => panic!("expected a session error, got {other:?}"),
    }
}
