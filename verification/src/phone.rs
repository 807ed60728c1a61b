//! The decisions of the simulated phone client used for testing: what it
//! sends for a typed line, and what it makes of the frames it receives.

use vstd::prelude::*;
use vstd::slice::slice_to_vec;
use vstd::string::*;
use vstd::utf8::*;

use crate::codec::{base64_decoded, base64_encode, base64_encoded};
use crate::frame::{decode, stream_tag, unframed};
use crate::message::{ClientMessage, ServerMessage};
use crate::session::SessionId;

verus! {

/// The bytes sent for a typed line: the line followed by CR LF (a shell on
/// Windows needs the CR to run the line; others tolerate it).
pub open spec fn line_bytes(line: Seq<char>) -> Seq<u8> {
    encode_utf8(line) + seq![13u8, 10u8]
}

/// The terminal input message for a line typed in session `session_id`.
pub fn input_message(session_id: SessionId, line: &str) -> (m: ClientMessage)
    requires
        line.spec_bytes().len() <= usize::MAX / 4,
    ensures
        match m {
            ClientMessage::TerminalInput { session_id: sid, data } => {
                &&& sid == session_id
                &&& data@ == base64_encoded(line_bytes(line@))
                &&& base64_decoded(encode_utf8(data@)) == Some(line_bytes(line@))
            },
            _ => false,
        },
{
    let mut bytes = slice_to_vec(line.as_bytes());
    bytes.push(13u8);
    bytes.push(10u8);
    assert(bytes@ =~= line_bytes(line@));
    let data = base64_encode(bytes.as_slice());
    proof {
        crate::codec::lemma_base64_round_trip(bytes@);
    }
    ClientMessage::TerminalInput { session_id, data }
}

/// What the phone does with a message while waiting for its session.
#[derive(Debug)]
pub enum Opening {
    /// The session opened with this id.
    Opened(SessionId),
    /// Nothing to show (the desktop is online).
    Skip,
    /// Show this message and keep waiting.
    Show(ServerMessage),
}

/// How the phone judges `m` while waiting for its session: it adopts the
/// session that opened, skips the desktop's presence, shows anything else.
pub open spec fn opening_result(m: ServerMessage, r: Opening) -> bool {
    match m {
        ServerMessage::SessionOpened { session_id } => r == Opening::Opened(session_id),
        ServerMessage::DesktopOnline { .. } => r is Skip,
        _ => r == Opening::Show(m),
    }
}

/// Judge a message received while waiting for the session to open.
pub fn on_opening_message(m: ServerMessage) -> (r: Opening)
    ensures
        opening_result(m, r),
{
    match m {
        ServerMessage::SessionOpened { session_id } => Opening::Opened(session_id),
        ServerMessage::DesktopOnline { .. } => Opening::Skip,
        other => Opening::Show(other),
    }
}

/// A frame received by the phone during the session.
#[derive(Debug)]
pub enum PhoneFrame {
    /// A text frame holding a server message.
    Message(ServerMessage),
    /// A text frame that is not a server message.
    Unparseable,
    /// A binary frame.
    Binary(Vec<u8>),
    /// The gateway closed the connection.
    Close,
    /// Any other frame.
    Other,
}

/// What the phone does with a frame.
#[derive(Debug)]
pub enum PhoneAction {
    /// Show a danger warning.
    Danger { pattern: String, command: String },
    /// The session closed: say so and end.
    SessionClosed,
    /// The desktop went offline: say so.
    DesktopOffline,
    /// Show another message.
    Show(ServerMessage),
    /// Show that a text frame did not parse.
    ShowParseError,
    /// Write these terminal output bytes to stdout.
    Output(Vec<u8>),
    /// The connection closed: end.
    Closed,
    /// Nothing.
    Nothing,
}

impl PhoneAction {
    /// Whether the phone ends its connection after this action.
    pub open spec fn ends(&self) -> bool {
        self is SessionClosed || self is Closed
    }

    /// Whether the phone ends its connection after this action.
    pub fn is_end(&self) -> (b: bool)
        ensures
            b == self.ends(),
    {
        match self {
            PhoneAction::SessionClosed | PhoneAction::Closed => true,
            _ => false,
        }
    }
}

/// Judge a frame received during the session: warnings, session end and
/// desktop state are shown, terminal-stream binary frames are written out.
pub fn on_frame(frame: PhoneFrame) -> (a: PhoneAction)
    ensures
        match frame {
            PhoneFrame::Message(ServerMessage::DangerWarn { command, pattern, .. }) => a == (PhoneAction::Danger { pattern, command }),
            PhoneFrame::Message(ServerMessage::SessionClosed { .. }) => a is SessionClosed,
            PhoneFrame::Message(ServerMessage::DesktopOffline { .. }) => a is DesktopOffline,
            PhoneFrame::Message(m) => a == PhoneAction::Show(m),
            PhoneFrame::Unparseable => a is ShowParseError,
            PhoneFrame::Binary(b) => match unframed(b@) {
                Some((tag, payload)) => if tag == stream_tag::TERMINAL {
                    a matches PhoneAction::Output(out) && out@ == payload
                } else {
                    a is Nothing
                },
                None => a is Nothing,
            },
            PhoneFrame::Close => a is Closed,
            PhoneFrame::Other => a is Nothing,
        },
{
    match frame {
        PhoneFrame::Message(ServerMessage::DangerWarn { command, pattern, .. }) => PhoneAction::Danger {
            pattern,
            command,
        },
        PhoneFrame::Message(ServerMessage::SessionClosed { .. }) => PhoneAction::SessionClosed,
        PhoneFrame::Message(ServerMessage::DesktopOffline { .. }) => PhoneAction::DesktopOffline,
        PhoneFrame::Message(m) => PhoneAction::Show(m),
        PhoneFrame::Unparseable => PhoneAction::ShowParseError,
        PhoneFrame::Binary(b) => match decode(b.as_slice()) {
            Some((tag, payload)) => if tag == stream_tag::TERMINAL {
                PhoneAction::Output(slice_to_vec(payload))
            } else {
                PhoneAction::Nothing
            },
            None => PhoneAction::Nothing,
        },
        PhoneFrame::Close => PhoneAction::Closed,
        PhoneFrame::Other => PhoneAction::Nothing,
    }
}

} // verus!
