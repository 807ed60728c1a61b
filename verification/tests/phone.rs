use base64::Engine;
use remote_cockpit::frame::{encode, stream_tag};
use remote_cockpit::message::{ClientMessage, ServerMessage};
use remote_cockpit::phone::{input_message, on_frame, on_opening_message, Opening, PhoneAction, PhoneFrame};
use remote_cockpit::session::{DeviceId, SessionId};

#[test]
fn typed_line_is_sent_as_base64_with_crlf() {
    match input_message(SessionId(7), "echo hello") {
        ClientMessage::TerminalInput { session_id, data } => {
            assert_eq!(session_id, SessionId(7));
            assert_eq!(data, "ZWNobyBoZWxsbw0K");
            let bytes = base64::engine::general_purpose::STANDARD.decode(&data).unwrap();
            assert_eq!(bytes, b"echo hello\r\n");
        }
        other => panic!("expected TerminalInput, got {other:?}"),
    }
    match input_message(SessionId(7), "") {
        ClientMessage::TerminalInput { data, .. } => assert_eq!(data, "DQo="),
        other => panic!("expected TerminalInput, got {other:?}"),
    }
}

#[test]
fn waiting_for_the_session() {
    assert!(matches!(on_opening_message(ServerMessage::SessionOpened { session_id: SessionId(4) }), Opening::Opened(SessionId(4))));
    assert!(matches!(on_opening_message(ServerMessage::DesktopOnline { device_id: DeviceId::new("d".into()) }), Opening::Skip));
    assert!(matches!(on_opening_message(ServerMessage::Pong { ts_ms: 1, server_time_ms: 1 }), Opening::Show(_)));
}

#[test]
fn frames_during_the_session() {
    let warn = ServerMessage::DangerWarn { session_id: SessionId(1), command: "reboot".into(), pattern: r"\breboot\b".into() };
    match on_frame(PhoneFrame::Message(warn)) {
        PhoneAction::Danger { pattern, command } => {
            assert_eq!(pattern, r"\breboot\b");
            assert_eq!(command, "reboot");
        }
        other => panic!("expected Danger, got {other:?}"),
    }
    let closed = on_frame(PhoneFrame::Message(ServerMessage::SessionClosed { session_id: SessionId(1) }));
    assert!(matches!(closed, PhoneAction::SessionClosed) && closed.is_end());
    let off = on_frame(PhoneFrame::Message(ServerMessage::DesktopOffline { device_id: DeviceId::new("d".into()) }));
    assert!(matches!(off, PhoneAction::DesktopOffline) && !off.is_end());
    assert!(matches!(on_frame(PhoneFrame::Message(ServerMessage::Pong { ts_ms: 1, server_time_ms: 2 })), PhoneAction::Show(_)));
    assert!(matches!(on_frame(PhoneFrame::Unparseable), PhoneAction::ShowParseError));
    assert!(on_frame(PhoneFrame::Close).is_end());
    assert!(matches!(on_frame(PhoneFrame::Other), PhoneAction::Nothing));
}

#[test]
fn terminal_frames_are_written_out() {
    match on_frame(PhoneFrame::Binary(encode(stream_tag::TERMINAL, b"$ ls\r\n"))) {
        PhoneAction::Output(b) => assert_eq!(b, b"$ ls\r\n"),
        other => panic!("expected Output, got {other:?}"),
    }
    assert!(matches!(on_frame(PhoneFrame::Binary(vec![0x02, 1, 2])), PhoneAction::Nothing));
    assert!(matches!(on_frame(PhoneFrame::Binary(vec![])), PhoneAction::Nothing));
}
