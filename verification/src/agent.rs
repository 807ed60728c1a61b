//! The desktop agent's decisions.
//!
//! After authenticating, the agent waits for the phone (via the gateway) to
//! open a session. PTY output is pumped back as binary frames; phone input
//! is written to the PTY, accumulated per line and checked for dangerous
//! commands; heartbeats keep the connection alive. The connection loop runs
//! around [`AgentState::step`]: it turns what happens (a frame, PTY output,
//! a timer tick, the outcome of an action) into an [`AgentEvent`] and
//! performs the [`AgentAction`]s the step returns, in order.

use vstd::prelude::*;
use vstd::slice::slice_to_vec;
use vstd::utf8::*;
use vstd::string::*;

use crate::codec::{base64_decode, base64_decoded, base64_encode, base64_encoded};
use crate::config::DesktopConfig;
use crate::danger::{first_hit, utf8_lossy, DangerChecker};
use crate::frame::{encode, framed, stream_tag};
use crate::fsbrowse::{
    cap_bytes, capped, display_path, file_text, image_mime, shown_path, sniff_image, text_of,
    FILE_READ_CAP, IMAGE_READ_CAP,
};
use crate::message::{ClientMessage, DirEntry, ServerMessage};
use crate::session::{is_random_uuid, ClientRole, DeviceId, SessionId};
use crate::text::join2;

verus! {

/// Seconds between heartbeats.
pub const HEARTBEAT_SECS: u64 = 30;

/// Columns of a newly spawned PTY.
pub const TERM_COLS: u16 = 80;

/// Rows of a newly spawned PTY.
pub const TERM_ROWS: u16 = 24;

/// Delay before the first reconnection attempt, in milliseconds.
pub const INITIAL_BACKOFF_MS: u64 = 250;

/// Longest delay between reconnection attempts, in milliseconds.
pub const MAX_BACKOFF_MS: u64 = 30000;

/// The delay after `backoff_ms`: doubled, at most [`MAX_BACKOFF_MS`].
pub fn next_backoff_ms(backoff_ms: u64) -> (r: u64)
    ensures
        r == if 2 * backoff_ms < MAX_BACKOFF_MS {
            2 * backoff_ms
        } else {
            MAX_BACKOFF_MS as int
        },
{
    if backoff_ms < MAX_BACKOFF_MS / 2 {
        backoff_ms * 2
    } else {
        MAX_BACKOFF_MS
    }
}

/// The frame that authenticates the agent: its token, the desktop role and
/// its device id.
pub fn auth_message(config: &DesktopConfig) -> (m: ClientMessage)
    ensures
        match m {
            ClientMessage::Auth { token, role, device_id } => token@ == config.token@ && role
                == ClientRole::Desktop && device_id.0@ == config.device_id@,
            _ => false,
        },
{
    ClientMessage::Auth {
        token: config.token.clone(),
        role: ClientRole::Desktop,
        device_id: DeviceId::new(config.device_id.clone()),
    }
}

/// The gateway's answer to the agent's `Auth` frame.
#[derive(Debug)]
pub enum AuthReply {
    /// A frame that is not text.
    NotText,
    /// A text frame holding a server message.
    Message(ServerMessage),
}

/// What the agent makes of the gateway's answer.
#[derive(Debug)]
pub enum AuthOutcome {
    /// Authenticated: go on to wait for sessions.
    Authenticated,
    /// The gateway refused the token: fatal, do not reconnect.
    Rejected { reason: String },
    /// The answer was not a text frame: end this connection.
    NotText,
    /// The answer was another message: end this connection.
    Unexpected(ServerMessage),
}

/// Judge the gateway's answer to the agent's `Auth` frame.
pub fn auth_outcome(reply: AuthReply) -> (r: AuthOutcome)
    ensures
        match reply {
            AuthReply::NotText => r is NotText,
            AuthReply::Message(ServerMessage::AuthOk { .. }) => r is Authenticated,
            AuthReply::Message(ServerMessage::AuthFail { reason }) => r == (AuthOutcome::Rejected {
                reason,
            }),
            AuthReply::Message(m) => r == AuthOutcome::Unexpected(m),
        },
{
    match reply {
        AuthReply::NotText => AuthOutcome::NotText,
        AuthReply::Message(ServerMessage::AuthOk { .. }) => AuthOutcome::Authenticated,
        AuthReply::Message(ServerMessage::AuthFail { reason }) => AuthOutcome::Rejected { reason },
        AuthReply::Message(m) => AuthOutcome::Unexpected(m),
    }
}

/// Something the connection loop does for the agent.
#[derive(Debug)]
pub enum AgentAction {
    /// Send this message to the gateway as a text frame.
    Send(ClientMessage),
    /// Send these bytes to the gateway as a binary frame.
    SendFrame(Vec<u8>),
    /// Spawn this shell in a new PTY of [`TERM_COLS`] x [`TERM_ROWS`] and
    /// report the outcome as [`AgentEvent::Spawned`].
    Spawn { shell: String },
    /// Kill the session's PTY (and wait for its child) and drop it.
    KillPty,
    /// The PTY just spawned becomes the session's PTY; pump its output as
    /// [`AgentEvent::PtyOutput`].
    InstallPty,
    /// Write these bytes to the session's PTY.
    WritePty(Vec<u8>),
    /// Resize the session's PTY.
    ResizePty { cols: u16, rows: u16 },
    /// List this directory off the async runtime and report the outcome as
    /// [`AgentEvent::Listed`].
    ListDir { request_id: String, path: String },
    /// Read the file at this path (jailed like a listing), at most
    /// [`FILE_READ_CAP`] + 1 bytes of it, off the async runtime, and report
    /// the outcome as [`AgentEvent::FileRead`].
    ReadFile { request_id: String, path: String },
    /// Read the image file at this path (jailed like a listing), at most
    /// [`IMAGE_READ_CAP`] + 1 bytes of it, off the async runtime, and report
    /// the outcome as [`AgentEvent::ImageRead`].
    ReadImage { request_id: String, path: String },
}

/// Something that happened on the agent's connection.
#[derive(Debug)]
pub enum AgentEvent {
    /// A text frame from the gateway holding a (phone-originated) client
    /// message.
    FromPhone(ClientMessage),
    /// A text frame from the gateway holding a server message.
    FromGateway(ServerMessage),
    /// A text frame that parses as neither.
    Unparseable,
    /// A binary frame (the agent receives none it uses).
    Binary,
    /// The gateway closed the connection (or the stream ended).
    Closed,
    /// Reading from the connection failed.
    ReadFailed(String),
    /// The PTY produced output.
    PtyOutput(Vec<u8>),
    /// The PTY output stream ended.
    PtyEnded,
    /// The heartbeat timer fired at `now_ms` (Unix milliseconds).
    Heartbeat { now_ms: i64 },
    /// The outcome of a [`AgentAction::Spawn`]: the error text on failure.
    Spawned(Result<(), String>),
    /// The outcome of a [`AgentAction::ListDir`] for `requested`: the
    /// canonical path listed (as text) and its entries, or a failure.
    Listed { request_id: String, requested: String, outcome: Result<(String, Vec<DirEntry>), ()> },
    /// The outcome of a [`AgentAction::ReadFile`] for `requested`: the
    /// canonical path read (as text) and the bytes read, or the error text.
    FileRead { request_id: String, requested: String, outcome: Result<(String, Vec<u8>), String> },
    /// The outcome of a [`AgentAction::ReadImage`] for `requested`: the
    /// canonical path read (as text) and the bytes read, or the error text.
    ImageRead { request_id: String, requested: String, outcome: Result<(String, Vec<u8>), String> },
}

/// Whether the connection goes on after a step.
#[derive(Debug)]
pub enum AgentFlow {
    Continue,
    /// The connection ended cleanly.
    Stop,
    /// The connection failed with this error.
    Fail(String),
}

/// The result of a step: actions to perform in order, then how to go on.
#[derive(Debug)]
pub struct AgentStep {
    pub actions: Vec<AgentAction>,
    pub flow: AgentFlow,
}

/// The agent's state on one connection.
#[derive(Debug)]
pub struct AgentState {
    /// Whether a PTY session is running.
    pub pty_open: bool,
    /// The running PTY session's id.
    pub current_session: Option<SessionId>,
    /// Input received since the last line end, checked for danger when the
    /// line ends (the phone sends one character per frame, so a per-frame
    /// check would never match a multi-character pattern).
    pub input_buffer: Vec<u8>,
}

/// Whether `bytes` hold a carriage return or a line feed.
pub open spec fn ends_line(bytes: Seq<u8>) -> bool {
    bytes.contains(13u8) || bytes.contains(10u8)
}

/// The state is unchanged.
pub open spec fn unchanged(old: AgentState, new: AgentState) -> bool {
    &&& new.pty_open == old.pty_open
    &&& new.current_session == old.current_session
    &&& new.input_buffer@ == old.input_buffer@
}

/// `a` writes `bytes` to the PTY.
pub open spec fn writes_input(a: AgentAction, bytes: Seq<u8>) -> bool {
    match a {
        AgentAction::WritePty(b) => b@ == bytes,
        _ => false,
    }
}

/// `a` reports the dangerous `line` (the first pattern of `checker` that
/// matches it), for the running session if there is one, else under a
/// fresh (version-4) id.
pub open spec fn warns(a: AgentAction, old: AgentState, checker: Seq<Seq<char>>, line: Seq<u8>) -> bool {
    match a {
        AgentAction::Send(ClientMessage::ReportDanger { session_id, command, pattern }) => {
            &&& Some(pattern@) == first_hit(checker, line)
            &&& command@ == utf8_lossy(line)
            &&& match old.current_session {
                Some(s) => session_id == s,
                None => is_random_uuid(session_id.0),
            }
        },
        _ => false,
    }
}

/// `a` sends `m`.
pub open spec fn sends(a: AgentAction, m: ClientMessage) -> bool {
    a == AgentAction::Send(m)
}

/// The effect of terminal input `data` (base64 of the input bytes): invalid
/// base64 is ignored; otherwise the bytes are written to the PTY (if one is
/// running) and added to the line, and when they end the line the whole line
/// is checked for danger and the line starts afresh.
pub open spec fn input_effect(
    old: AgentState,
    new: AgentState,
    checker: Seq<Seq<char>>,
    data: Seq<char>,
    actions: Seq<AgentAction>,
) -> bool {
    match base64_decoded(encode_utf8(data)) {
        None => unchanged(old, new) && actions.len() == 0,
        Some(bytes) => {
            let line = old.input_buffer@ + bytes;
            let w: int = if old.pty_open {
                1
            } else {
                0
            };
            let warn = ends_line(bytes) && first_hit(checker, line) is Some;
            &&& new.pty_open == old.pty_open
            &&& new.current_session == old.current_session
            &&& new.input_buffer@ == (if ends_line(bytes) {
                Seq::<u8>::empty()
            } else {
                line
            })
            &&& actions.len() == w + (if warn {
                1int
            } else {
                0
            })
            &&& old.pty_open ==> writes_input(actions[0], bytes)
            &&& warn ==> warns(actions[w], old, checker, line)
        },
    }
}

/// The effect of a spawn outcome: on success any running PTY is killed, the
/// new one installed and reported opened under a fresh (version-4) id; on
/// failure the error is reported under a fresh id.
pub open spec fn spawned_effect(
    old: AgentState,
    new: AgentState,
    result: Result<(), String>,
    actions: Seq<AgentAction>,
) -> bool {
    match result {
        Ok(_) => {
            let k: int = if old.pty_open {
                1
            } else {
                0
            };
            &&& new.pty_open
            &&& new.current_session is Some
            &&& is_random_uuid((new.current_session->0).0)
            &&& new.input_buffer@ == old.input_buffer@
            &&& actions.len() == k + 2
            &&& old.pty_open ==> actions[0] is KillPty
            &&& actions[k] is InstallPty
            &&& sends(
                actions[k + 1],
                ClientMessage::ReportSessionOpened { session_id: new.current_session->0 },
            )
        },
        Err(e) => {
            &&& unchanged(old, new)
            &&& actions.len() == 1
            &&& match actions[0] {
                AgentAction::Send(ClientMessage::ReportSessionError { session_id, message }) => {
                    &&& message@ == "spawn failed: "@ + e@
                    &&& is_random_uuid(session_id.0)
                },
                _ => false,
            }
        },
    }
}

/// The effect of the phone closing `session_id`: if a PTY is running it is
/// killed and the closing is reported (under the id the phone gave).
pub open spec fn close_effect(
    old: AgentState,
    new: AgentState,
    session_id: SessionId,
    actions: Seq<AgentAction>,
) -> bool {
    if old.pty_open {
        &&& !new.pty_open
        &&& new.current_session is None
        &&& new.input_buffer@ == old.input_buffer@
        &&& actions.len() == 2
        &&& actions[0] is KillPty
        &&& sends(actions[1], ClientMessage::ReportSessionClosed { session_id })
    } else {
        unchanged(old, new) && actions.len() == 0
    }
}

/// The effect of the PTY output stream ending: the PTY is killed and the
/// session reported closed.
pub open spec fn ended_effect(old: AgentState, new: AgentState, actions: Seq<AgentAction>) -> bool {
    let k: int = if old.pty_open {
        1
    } else {
        0
    };
    &&& !new.pty_open
    &&& new.current_session is None
    &&& new.input_buffer@ == old.input_buffer@
    &&& actions.len() == k + (if old.current_session is Some {
        1int
    } else {
        0
    })
    &&& old.pty_open ==> actions[0] is KillPty
    &&& old.current_session matches Some(sid) ==> sends(
        actions[k],
        ClientMessage::ReportSessionClosed { session_id: sid },
    )
}

/// The report answering a directory listing request for `requested`: the
/// listed path (shown without a verbatim prefix) and its entries, or, when
/// listing failed, the requested path with no entries.
pub open spec fn listing_report(
    m: ClientMessage,
    request_id: String,
    requested: String,
    outcome: Result<(String, Vec<DirEntry>), ()>,
) -> bool {
    match m {
        ClientMessage::ReportDirListing { request_id: rid, path, entries } => {
            &&& rid == request_id
            &&& match outcome {
                Ok((canon, es)) => path@ == shown_path(canon@) && entries == es,
                Err(_) => path == requested && entries@.len() == 0,
            }
        },
        _ => false,
    }
}

/// The error given for a file whose bytes are not text.
pub open spec fn not_text_error() -> Seq<char> {
    "not a text file"@
}

/// The report answering a file read request for `requested`: on success the
/// read path (shown without a verbatim prefix), the text of the first
/// [`FILE_READ_CAP`] bytes (or, when they are not text, no content and the
/// error "not a text file"), and whether the file was longer; on failure
/// the requested path, no content and the error.
pub open spec fn file_report(
    m: ClientMessage,
    request_id: String,
    requested: String,
    outcome: Result<(String, Vec<u8>), String>,
) -> bool {
    match m {
        ClientMessage::ReportFileContent { request_id: rid, path, content, truncated, error } => {
            &&& rid == request_id
            &&& match outcome {
                Ok((canon, bytes)) => {
                    let cut = bytes@.len() > FILE_READ_CAP;
                    &&& path@ == shown_path(canon@)
                    &&& truncated == cut
                    &&& match file_text(capped(bytes@, FILE_READ_CAP as int), cut) {
                        Some(text) => error is None && (content matches Some(c) && c@ == text),
                        None => content is None && (error matches Some(e) && e@ == not_text_error()),
                    }
                },
                Err(e) => {
                    &&& path == requested
                    &&& content is None
                    &&& !truncated
                    &&& error == Some(e)
                },
            }
        },
        _ => false,
    }
}

/// The report answering an image read request for `requested`: on success
/// the read path (shown without a verbatim prefix), the base64 of the first
/// [`IMAGE_READ_CAP`] bytes with their media type as told by their leading
/// bytes, and whether the file was longer; on failure the requested path,
/// no data and the error.
pub open spec fn image_report(
    m: ClientMessage,
    request_id: String,
    requested: String,
    outcome: Result<(String, Vec<u8>), String>,
) -> bool {
    match m {
        ClientMessage::ReportImageContent {
            request_id: rid,
            path,
            mime_type,
            data_base64,
            truncated,
            error,
        } => {
            &&& rid == request_id
            &&& match outcome {
                Ok((canon, bytes)) => {
                    let data = capped(bytes@, IMAGE_READ_CAP as int);
                    &&& path@ == shown_path(canon@)
                    &&& truncated == (bytes@.len() > IMAGE_READ_CAP)
                    &&& data_base64 matches Some(d) && d@ == base64_encoded(data)
                    &&& match image_mime(data) {
                        Some(t) => mime_type matches Some(mt) && mt@ == t,
                        None => mime_type is None,
                    }
                    &&& error is None
                },
                Err(e) => {
                    &&& path == requested
                    &&& mime_type is None
                    &&& data_base64 is None
                    &&& !truncated
                    &&& error == Some(e)
                },
            }
        },
        _ => false,
    }
}

fn bytes_contain(bytes: &[u8], x: u8) -> (r: bool)
    ensures
        r == bytes@.contains(x),
{
    let mut i: usize = 0;
    while i < bytes.len()
        invariant
            i <= bytes@.len(),
            forall|k: int| 0 <= k < i ==> bytes@[k] != x,
        decreases bytes@.len() - i,
    {
        if bytes[i] == x {
            assert(bytes@[i as int] == x);
            return true;
        }
        i = i + 1;
    }
    false
}

fn append_bytes(dst: &mut Vec<u8>, src: &[u8])
    ensures
        final(dst)@ == old(dst)@ + src@,
{
    let ghost start = dst@;
    let mut i: usize = 0;
    while i < src.len()
        invariant
            i <= src@.len(),
            dst@ == start + src@.take(i as int),
        decreases src@.len() - i,
    {
        dst.push(src[i]);
        i = i + 1;
        assert(src@.take(i as int) == src@.take(i - 1).push(src@[i - 1]));
    }
    assert(src@.take(i as int) == src@);
}

impl AgentState {
    /// The state invariant: a session id is held exactly while a PTY runs,
    /// and the input buffer only ever holds an unfinished line.
    pub open spec fn wf(&self) -> bool {
        &&& self.pty_open == self.current_session is Some
        &&& !ends_line(self.input_buffer@)
    }

    /// The state right after authenticating: no session, no input.
    pub fn new() -> (s: AgentState)
        ensures
            s.wf(),
            !s.pty_open,
            s.input_buffer@.len() == 0,
    {
        AgentState { pty_open: false, current_session: None, input_buffer: Vec::new() }
    }

    /// The phone asked for a session: spawn the requested shell, or the
    /// configured one.
    pub fn on_open_session(&self, config: &DesktopConfig, shell: Option<String>) -> (actions: Vec<
        AgentAction,
    >)
        ensures
            actions@.len() == 1,
            match actions@[0] {
                AgentAction::Spawn { shell: s } => s@ == (match shell {
                    Some(x) => x@,
                    None => config.shell@,
                }),
                _ => false,
            },
    {
        let shell = match shell {
            Some(s) => s,
            None => config.shell.clone(),
        };
        let mut actions: Vec<AgentAction> = Vec::new();
        actions.push(AgentAction::Spawn { shell });
        actions
    }

    /// A spawn finished.
    pub fn on_spawned(&mut self, result: Result<(), String>) -> (actions: Vec<AgentAction>)
        ensures
            spawned_effect(*old(self), *final(self), result, actions@),
            old(self).wf() ==> final(self).wf(),
    {
        let mut actions: Vec<AgentAction> = Vec::new();
        match result {
            Ok(()) => {
                if self.pty_open {
                    actions.push(AgentAction::KillPty);
                }
                let sid = SessionId::new();
                self.current_session = Some(sid);
                self.pty_open = true;
                actions.push(AgentAction::InstallPty);
                actions.push(AgentAction::Send(ClientMessage::ReportSessionOpened { session_id: sid }));
            },
            Err(e) => {
                let message = join2("spawn failed: ", e.as_str());
                actions.push(
                    AgentAction::Send(
                        ClientMessage::ReportSessionError { session_id: SessionId::new(), message },
                    ),
                );
            },
        }
        actions
    }

    /// Terminal input arrived (`data` is base64).
    pub fn on_terminal_input(&mut self, danger: &DangerChecker, data: &str) -> (actions: Vec<
        AgentAction,
    >)
        ensures
            input_effect(*old(self), *final(self), danger@, data@, actions@),
            old(self).wf() ==> final(self).wf(),
    {
        let mut actions: Vec<AgentAction> = Vec::new();
        let bytes = match base64_decode(data) {
            Some(b) => b,
            None => return actions,
        };
        proof {
            crate::codec::lemma_decoded_is_the_encoded(data.spec_bytes(), bytes@);
        }
        let ghost old_line = self.input_buffer@;
        if self.pty_open {
            actions.push(AgentAction::WritePty(slice_to_vec(bytes.as_slice())));
        }
        append_bytes(&mut self.input_buffer, bytes.as_slice());
        let line_end = bytes_contain(bytes.as_slice(), 13u8) || bytes_contain(bytes.as_slice(), 10u8);
        if line_end {
            match danger.check(self.input_buffer.as_slice()) {
                Some(hit) => {
                    let session_id = match self.current_session {
                        Some(s) => s,
                        None => SessionId::new(),
                    };
                    actions.push(
                        AgentAction::Send(
                            ClientMessage::ReportDanger {
                                session_id,
                                command: hit.command,
                                pattern: hit.pattern,
                            },
                        ),
                    );
                },
                None => {},
            }
            self.input_buffer.clear();
        } else {
            proof {
                if ends_line(self.input_buffer@) {
                    if self.input_buffer@.contains(13u8) {
                        let k = choose|k: int| 0 <= k < self.input_buffer@.len() && self.input_buffer@[k] == 13u8;
                        if k >= old_line.len() {
                            assert(bytes@[k - old_line.len()] == 13u8);
                        } else {
                            assert(old_line[k] == 13u8);
                        }
                    } else {
                        let k = choose|k: int| 0 <= k < self.input_buffer@.len() && self.input_buffer@[k] == 10u8;
                        if k >= old_line.len() {
                            assert(bytes@[k - old_line.len()] == 10u8);
                        } else {
                            assert(old_line[k] == 10u8);
                        }
                    }
                }
            }
        }
        actions
    }

    /// The phone asked to resize the PTY.
    pub fn on_resize(&self, cols: u16, rows: u16) -> (actions: Vec<AgentAction>)
        ensures
            actions@.len() == if self.pty_open {
                1int
            } else {
                0
            },
            self.pty_open ==> actions@[0] == (AgentAction::ResizePty { cols, rows }),
    {
        let mut actions: Vec<AgentAction> = Vec::new();
        if self.pty_open {
            actions.push(AgentAction::ResizePty { cols, rows });
        }
        actions
    }

    /// The phone asked to close `session_id`.
    pub fn on_close_session(&mut self, session_id: SessionId) -> (actions: Vec<AgentAction>)
        ensures
            close_effect(*old(self), *final(self), session_id, actions@),
            old(self).wf() ==> final(self).wf(),
    {
        let mut actions: Vec<AgentAction> = Vec::new();
        if self.pty_open {
            self.pty_open = false;
            self.current_session = None;
            actions.push(AgentAction::KillPty);
            actions.push(AgentAction::Send(ClientMessage::ReportSessionClosed { session_id }));
        }
        actions
    }

    /// The PTY output stream ended.
    pub fn on_pty_ended(&mut self) -> (actions: Vec<AgentAction>)
        ensures
            ended_effect(*old(self), *final(self), actions@),
            old(self).wf() ==> final(self).wf(),
    {
        let mut actions: Vec<AgentAction> = Vec::new();
        if self.pty_open {
            self.pty_open = false;
            actions.push(AgentAction::KillPty);
        }
        match self.current_session {
            Some(sid) => {
                self.current_session = None;
                actions.push(AgentAction::Send(ClientMessage::ReportSessionClosed { session_id: sid }));
            },
            None => {},
        }
        actions
    }
}

/// `a` spawns the shell `shell`.
pub open spec fn spawns(a: AgentAction, shell: Seq<char>) -> bool {
    match a {
        AgentAction::Spawn { shell: s } => s@ == shell,
        _ => false,
    }
}

/// The shell a session request asks for: the requested one, else the
/// configured one.
pub open spec fn requested_shell(shell: Option<String>, config: DesktopConfig) -> Seq<char> {
    match shell {
        Some(x) => x@,
        None => config.shell@,
    }
}

/// `a` sends a listing report answering `request_id` for `requested`.
pub open spec fn reports_listing(
    a: AgentAction,
    request_id: String,
    requested: String,
    outcome: Result<(String, Vec<DirEntry>), ()>,
) -> bool {
    match a {
        AgentAction::Send(m) => listing_report(m, request_id, requested, outcome),
        _ => false,
    }
}

/// `a` sends a file report answering `request_id` for `requested`.
pub open spec fn reports_file(
    a: AgentAction,
    request_id: String,
    requested: String,
    outcome: Result<(String, Vec<u8>), String>,
) -> bool {
    match a {
        AgentAction::Send(m) => file_report(m, request_id, requested, outcome),
        _ => false,
    }
}

/// `a` sends an image report answering `request_id` for `requested`.
pub open spec fn reports_image(
    a: AgentAction,
    request_id: String,
    requested: String,
    outcome: Result<(String, Vec<u8>), String>,
) -> bool {
    match a {
        AgentAction::Send(m) => image_report(m, request_id, requested, outcome),
        _ => false,
    }
}

/// `s` changes nothing, does nothing and goes on.
pub open spec fn idle(old: AgentState, new: AgentState, s: AgentStep) -> bool {
    unchanged(old, new) && s.actions@.len() == 0 && s.flow is Continue
}

impl AgentState {
    /// React to one event on the connection.
    pub fn step(&mut self, danger: &DangerChecker, config: &DesktopConfig, event: AgentEvent) -> (r:
        AgentStep)
        ensures
            old(self).wf() ==> final(self).wf(),
            match event {
                AgentEvent::FromPhone(ClientMessage::OpenSession { shell }) => {
                    &&& unchanged(*old(self), *final(self))
                    &&& r.flow is Continue
                    &&& r.actions@.len() == 1
                    &&& spawns(r.actions@[0], requested_shell(shell, *config))
                },
                AgentEvent::FromPhone(ClientMessage::TerminalInput { data, .. }) => {
                    &&& input_effect(*old(self), *final(self), danger@, data@, r.actions@)
                    &&& r.flow is Continue
                },
                AgentEvent::FromPhone(ClientMessage::TerminalResize { cols, rows, .. }) => {
                    &&& unchanged(*old(self), *final(self))
                    &&& r.flow is Continue
                    &&& r.actions@ == if old(self).pty_open {
                        seq![AgentAction::ResizePty { cols, rows }]
                    } else {
                        Seq::<AgentAction>::empty()
                    }
                },
                AgentEvent::FromPhone(ClientMessage::CloseSession { session_id }) => {
                    &&& close_effect(*old(self), *final(self), session_id, r.actions@)
                    &&& r.flow is Continue
                },
                AgentEvent::FromPhone(ClientMessage::ListDir { request_id, path }) => {
                    &&& unchanged(*old(self), *final(self))
                    &&& r.flow is Continue
                    &&& r.actions@ == seq![AgentAction::ListDir { request_id, path }]
                },
                AgentEvent::FromPhone(ClientMessage::ReadFile { request_id, path }) => {
                    &&& unchanged(*old(self), *final(self))
                    &&& r.flow is Continue
                    &&& r.actions@ == seq![AgentAction::ReadFile { request_id, path }]
                },
                AgentEvent::FromPhone(ClientMessage::ReadImage { request_id, path }) => {
                    &&& unchanged(*old(self), *final(self))
                    &&& r.flow is Continue
                    &&& r.actions@ == seq![AgentAction::ReadImage { request_id, path }]
                },
                AgentEvent::FromPhone(_) => idle(*old(self), *final(self), r),
                AgentEvent::FromGateway(_) => idle(*old(self), *final(self), r),
                AgentEvent::Unparseable => idle(*old(self), *final(self), r),
                AgentEvent::Binary => idle(*old(self), *final(self), r),
                AgentEvent::Closed => {
                    &&& unchanged(*old(self), *final(self))
                    &&& r.actions@.len() == 0
                    &&& r.flow is Stop
                },
                AgentEvent::ReadFailed(e) => {
                    &&& unchanged(*old(self), *final(self))
                    &&& r.actions@.len() == 0
                    &&& r.flow matches AgentFlow::Fail(msg) && msg@ == "ws read: "@ + e@
                },
                AgentEvent::PtyOutput(bytes) => {
                    &&& unchanged(*old(self), *final(self))
                    &&& r.flow is Continue
                    &&& r.actions@.len() == 1
                    &&& r.actions@[0] matches AgentAction::SendFrame(f) && f@ == framed(
                        stream_tag::TERMINAL,
                        bytes@,
                    )
                },
                AgentEvent::PtyEnded => {
                    &&& ended_effect(*old(self), *final(self), r.actions@)
                    &&& r.flow is Continue
                },
                AgentEvent::Heartbeat { now_ms } => {
                    &&& unchanged(*old(self), *final(self))
                    &&& r.flow is Continue
                    &&& r.actions@ == seq![AgentAction::Send(ClientMessage::Ping { ts_ms: now_ms })]
                },
                AgentEvent::Spawned(result) => {
                    &&& spawned_effect(*old(self), *final(self), result, r.actions@)
                    &&& r.flow is Continue
                },
                AgentEvent::Listed { request_id, requested, outcome } => {
                    &&& unchanged(*old(self), *final(self))
                    &&& r.flow is Continue
                    &&& r.actions@.len() == 1
                    &&& reports_listing(r.actions@[0], request_id, requested, outcome)
                },
                AgentEvent::FileRead { request_id, requested, outcome } => {
                    &&& unchanged(*old(self), *final(self))
                    &&& r.flow is Continue
                    &&& r.actions@.len() == 1
                    &&& reports_file(r.actions@[0], request_id, requested, outcome)
                },
                AgentEvent::ImageRead { request_id, requested, outcome } => {
                    &&& unchanged(*old(self), *final(self))
                    &&& r.flow is Continue
                    &&& r.actions@.len() == 1
                    &&& reports_image(r.actions@[0], request_id, requested, outcome)
                },
            },
    {
        let mut actions: Vec<AgentAction> = Vec::new();
        match event {
            AgentEvent::FromPhone(m) => {
                match m {
                    ClientMessage::OpenSession { shell } => {
                        actions = self.on_open_session(config, shell);
                    },
                    ClientMessage::TerminalInput { data, .. } => {
                        actions = self.on_terminal_input(danger, data.as_str());
                    },
                    ClientMessage::TerminalResize { cols, rows, .. } => {
                        actions = self.on_resize(cols, rows);
                        proof {
                            if self.pty_open {
                                assert(actions@ =~= seq![AgentAction::ResizePty { cols, rows }]);
                            } else {
                                assert(actions@ =~= Seq::<AgentAction>::empty());
                            }
                        }
                    },
                    ClientMessage::CloseSession { session_id } => {
                        actions = self.on_close_session(session_id);
                    },
                    ClientMessage::ListDir { request_id, path } => {
                        actions.push(AgentAction::ListDir { request_id, path });
                    },
                    ClientMessage::ReadFile { request_id, path } => {
                        actions.push(AgentAction::ReadFile { request_id, path });
                    },
                    ClientMessage::ReadImage { request_id, path } => {
                        actions.push(AgentAction::ReadImage { request_id, path });
                    },
                    _ => {},
                }
                AgentStep { actions, flow: AgentFlow::Continue }
            },
            AgentEvent::FromGateway(_) | AgentEvent::Unparseable | AgentEvent::Binary => AgentStep {
                actions,
                flow: AgentFlow::Continue,
            },
            AgentEvent::Closed => AgentStep { actions, flow: AgentFlow::Stop },
            AgentEvent::ReadFailed(e) => AgentStep {
                actions,
                flow: AgentFlow::Fail(join2("ws read: ", e.as_str())),
            },
            AgentEvent::PtyOutput(bytes) => {
                actions.push(AgentAction::SendFrame(encode(stream_tag::TERMINAL, bytes.as_slice())));
                AgentStep { actions, flow: AgentFlow::Continue }
            },
            AgentEvent::PtyEnded => {
                actions = self.on_pty_ended();
                AgentStep { actions, flow: AgentFlow::Continue }
            },
            AgentEvent::Heartbeat { now_ms } => {
                actions.push(AgentAction::Send(ClientMessage::Ping { ts_ms: now_ms }));
                AgentStep { actions, flow: AgentFlow::Continue }
            },
            AgentEvent::Spawned(result) => {
                actions = self.on_spawned(result);
                AgentStep { actions, flow: AgentFlow::Continue }
            },
            AgentEvent::Listed { request_id, requested, outcome } => {
                actions.push(AgentAction::Send(listing_message(request_id, requested, outcome)));
                AgentStep { actions, flow: AgentFlow::Continue }
            },
            AgentEvent::FileRead { request_id, requested, outcome } => {
                actions.push(AgentAction::Send(file_message(request_id, requested, outcome)));
                AgentStep { actions, flow: AgentFlow::Continue }
            },
            AgentEvent::ImageRead { request_id, requested, outcome } => {
                actions.push(AgentAction::Send(image_message(request_id, requested, outcome)));
                AgentStep { actions, flow: AgentFlow::Continue }
            },
        }
    }
}

/// The report answering a directory listing request.
pub fn listing_message(
    request_id: String,
    requested: String,
    outcome: Result<(String, Vec<DirEntry>), ()>,
) -> (m: ClientMessage)
    ensures
        listing_report(m, request_id, requested, outcome),
{
    match outcome {
        Ok((canon, entries)) => ClientMessage::ReportDirListing {
            request_id,
            path: display_path(canon.as_str()),
            entries,
        },
        Err(()) => ClientMessage::ReportDirListing { request_id, path: requested, entries: Vec::new() },
    }
}

/// The report answering a file read request.
pub fn file_message(
    request_id: String,
    requested: String,
    outcome: Result<(String, Vec<u8>), String>,
) -> (m: ClientMessage)
    ensures
        file_report(m, request_id, requested, outcome),
{
    match outcome {
        Ok((canon, bytes)) => {
            let truncated = bytes.len() > FILE_READ_CAP;
            let data = cap_bytes(bytes.as_slice(), FILE_READ_CAP);
            let path = display_path(canon.as_str());
            match text_of(data, truncated) {
                Some(text) => ClientMessage::ReportFileContent {
                    request_id,
                    path,
                    content: Some(text),
                    truncated,
                    error: None,
                },
                None => ClientMessage::ReportFileContent {
                    request_id,
                    path,
                    content: None,
                    truncated,
                    error: Some(crate::text::owned("not a text file")),
                },
            }
        },
        Err(e) => ClientMessage::ReportFileContent {
            request_id,
            path: requested,
            content: None,
            truncated: false,
            error: Some(e),
        },
    }
}

/// The report answering an image read request.
pub fn image_message(
    request_id: String,
    requested: String,
    outcome: Result<(String, Vec<u8>), String>,
) -> (m: ClientMessage)
    ensures
        image_report(m, request_id, requested, outcome),
{
    match outcome {
        Ok((canon, bytes)) => {
            let truncated = bytes.len() > IMAGE_READ_CAP;
            let data = cap_bytes(bytes.as_slice(), IMAGE_READ_CAP);
            ClientMessage::ReportImageContent {
                request_id,
                path: display_path(canon.as_str()),
                mime_type: sniff_image(data),
                data_base64: Some(base64_encode(data)),
                truncated,
                error: None,
            }
        },
        Err(e) => ClientMessage::ReportImageContent {
            request_id,
            path: requested,
            mime_type: None,
            data_base64: None,
            truncated: false,
            error: Some(e),
        },
    }
}

} // verus!
