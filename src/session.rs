//! What a client session decides: how channel messages are written to the client,
//! how an incoming frame or command is answered, and which path a connection
//! asks for.
use crate::channel::{Broadcast, InitReply, Signal, SignalKind, UserConfig, bool_json};
use crate::command::{Command, ParseCommandError, opt_view};
use crate::document::{parse_steps, parsed_steps, StepList};
use crate::ids::UserID;
use prosemirror::dynamic::DynamicSchema;
use crate::text::{decimal, json_quoted, json_text, parsed_json, json_string, parse_json, push_decimal, push_str, value_text};
use vstd::prelude::*;

verus! {

/// A user configuration as JSON: each field, or `null` where it is not supplied.
pub open spec fn config_json(cfg: UserConfig) -> Seq<char> {
    "{\"name\":"@ + match cfg.name {
        Some(n) => json_quoted(n@),
        None => "null"@,
    } + ",\"audio\":"@ + match cfg.audio {
        Some(a) => bool_json(a),
        None => "null"@,
    } + "}"@
}

/// The text frame that tells a client about a broadcast.
pub open spec fn broadcast_line(b: Broadcast) -> Seq<char> {
    match b {
        Broadcast::ChatMessage(id, text) => "chat|"@ + decimal(id.0 as nat) + "|"@ + text@,
        Broadcast::NewUser { remote_id, data } => "new-user|"@ + decimal(remote_id.0 as nat) + "|"@
            + data@,
        Broadcast::Update(id, cfg) => "update|"@ + decimal(id.0 as nat) + "|"@ + config_json(cfg),
        Broadcast::UserLeft(id) => "user-left|"@ + decimal(id.0 as nat),
        Broadcast::Steps(steps) => "steps|"@ + steps@,
    }
}

/// The text frame that hands a signal to its receiver.
pub open spec fn signal_line(s: Signal) -> Seq<char> {
    match s.kind {
        SignalKind::WebRTC(payload) => "webrtc|"@ + decimal(s.sender.0 as nat) + "|"@ + payload@,
    }
}

/// A user configuration as JSON.
pub fn user_config_json(cfg: &UserConfig) -> (r: String)
    ensures
        r@ == config_json(*cfg),
{
    let mut out = String::new();
    push_str(&mut out, "{\"name\":");
    match &cfg.name {
        Some(n) => {
            let q = json_string(n.as_str());
            push_str(&mut out, q.as_str());
        },
        None => push_str(&mut out, "null"),
    }
    push_str(&mut out, ",\"audio\":");
    match cfg.audio {
        Some(true) => push_str(&mut out, "true"),
        Some(false) => push_str(&mut out, "false"),
        None => push_str(&mut out, "null"),
    }
    push_str(&mut out, "}");
    out
}

/// The text frame that tells a client about a broadcast.
pub fn handle_broadcast(msg: &Broadcast) -> (r: String)
    ensures
        r@ == broadcast_line(*msg),
{
    let mut out = String::new();
    match msg {
        Broadcast::ChatMessage(id, text) => {
            push_str(&mut out, "chat|");
            push_decimal(&mut out, id.0);
            push_str(&mut out, "|");
            push_str(&mut out, text.as_str());
        },
        Broadcast::NewUser { remote_id, data } => {
            push_str(&mut out, "new-user|");
            push_decimal(&mut out, remote_id.0);
            push_str(&mut out, "|");
            push_str(&mut out, data.as_str());
        },
        Broadcast::Update(id, cfg) => {
            push_str(&mut out, "update|");
            push_decimal(&mut out, id.0);
            push_str(&mut out, "|");
            let j = user_config_json(cfg);
            push_str(&mut out, j.as_str());
        },
        Broadcast::UserLeft(id) => {
            push_str(&mut out, "user-left|");
            push_decimal(&mut out, id.0);
        },
        Broadcast::Steps(steps) => {
            push_str(&mut out, "steps|");
            push_str(&mut out, steps.as_str());
        },
    }
    out
}

/// The text frame that hands a signal to its receiver.
pub fn handle_signal(signal: &Signal) -> (r: String)
    ensures
        r@ == signal_line(*signal),
{
    let mut out = String::new();
    match &signal.kind {
        SignalKind::WebRTC(payload) => {
            push_str(&mut out, "webrtc|");
            push_decimal(&mut out, signal.sender.0);
            push_str(&mut out, "|");
            push_str(&mut out, payload.as_str());
        },
    }
    out
}

/// The two frames that answer `init`: the user's ID with the document state, then
/// the roster.
pub fn init_lines(id: UserID, reply: &InitReply) -> (r: (String, String))
    ensures
        r.0@ == "init|"@ + decimal(id.0 as nat) + "|"@ + reply.doc@,
        r.1@ == "peers|"@ + reply.j_peers@,
{
    let mut first = String::new();
    push_str(&mut first, "init|");
    push_decimal(&mut first, id.0);
    push_str(&mut first, "|");
    push_str(&mut first, reply.doc.as_str());
    let mut second = String::new();
    push_str(&mut second, "peers|");
    push_str(&mut second, reply.j_peers.as_str());
    (first, second)
}

/// The frame that reports a malformed command.
pub fn error_line(err: &ParseCommandError) -> (r: String)
    ensures
        r@ == "error|"@ + err.spec_message(),
{
    let mut out = String::new();
    push_str(&mut out, "error|");
    let m = err.message();
    push_str(&mut out, m.as_str());
    out
}

/// The frame that turns away a connection to a folder.
pub fn folder_line(diag: &str) -> (r: String)
    ensures
        r@ == "folder|"@ + diag@,
{
    let mut out = String::new();
    push_str(&mut out, "folder|");
    push_str(&mut out, diag);
    out
}

/// Whether the sub-protocol a client asks for is the one this server speaks.
pub fn protocol_accepted(value: Option<&str>) -> (r: bool)
    ensures
        r == (value matches Some(v) && v@ == "padington"@),
{
    match value {
        Some(v) => crate::text::same_str(v, "padington"),
        None => false,
    }
}

/// What a session does with one command of its client.
#[derive(Debug)]
pub enum SessionStep {
    /// Ask the channel to admit the user under this name, then send the reply
    Init(Option<String>),
    /// Pass a chat message to the channel
    Chat(String),
    /// Pass new user settings, as JSON, to the channel
    Update(String),
    /// Pass a batch of steps with its declared version to the channel
    Steps(usize, StepList),
    /// Pass a signal to the channel for its receiver
    Signal(Signal),
    /// Tell the channel that the user left, and end the session
    Close,
    /// Send this frame back to the client
    Reply(String),
    /// The command carried a malformed payload: end the session
    Fail,
}

/// `r` is what `handle_command` does with `cmd` from user `id`.
pub open spec fn handle_command_spec(
    id: UserID,
    cmd: Result<Command, ParseCommandError>,
    schema: DynamicSchema,
    r: SessionStep,
) -> bool {
    match cmd {
        Ok(Command::Init(name)) => r matches SessionStep::Init(n) && n == name,
        Ok(Command::Chat(t)) => r matches SessionStep::Chat(x) && x == t,
        Ok(Command::Update(t)) => r matches SessionStep::Update(x) && x == t,
        Ok(Command::Steps(v, t)) => match parsed_steps(schema, t@) {
            Some(list) => r matches SessionStep::Steps(w, x) && w == v && x == list,
            None => r matches SessionStep::Fail,
        },
        Ok(Command::Close) => r matches SessionStep::Close,
        Ok(Command::WebRTC(to, payload)) => match parsed_json(payload@) {
            Some(value) => r matches SessionStep::Signal(s) && s.sender == id && s.reciever.0 == to && (
            s.kind matches SignalKind::WebRTC(p) && p@ == json_text(value)),
            None => r matches SessionStep::Fail,
        },
        Err(e) => r matches SessionStep::Reply(line) && line@ == "error|"@ + e.spec_message(),
    }
}

/// What a session does with the parsed command `cmd` of user `id`: malformed
/// commands are answered with an error frame, a WebRTC payload must be JSON (it is
/// passed on in compact form), steps must be steps of `schema`, and the rest goes
/// to the channel.
pub fn handle_command(id: UserID, cmd: Result<Command, ParseCommandError>, schema: &DynamicSchema) -> (r: SessionStep)
    ensures
        handle_command_spec(id, cmd, *schema, r),
{
    match cmd {
        Ok(Command::Init(name)) => SessionStep::Init(name),
        Ok(Command::Chat(t)) => SessionStep::Chat(t),
        Ok(Command::Update(t)) => SessionStep::Update(t),
        Ok(Command::Steps(v, t)) => match parse_steps(schema, t.as_str()) {
            Some(steps) => SessionStep::Steps(v, steps),
            None => SessionStep::Fail,
        },
        Ok(Command::Close) => SessionStep::Close,
        Ok(Command::WebRTC(to, payload)) => match parse_json(payload.as_str()) {
            Some(v) => {
                let text = value_text(&v);
                SessionStep::Signal(
                    Signal { sender: id, reciever: UserID(to), kind: SignalKind::WebRTC(text) },
                )
            },
            None => SessionStep::Fail,
        },
        Err(e) => SessionStep::Reply(error_line(&e)),
    }
}

/// A WebSocket frame from the client, as the session sees it.
#[derive(Debug, Clone)]
pub enum Frame {
    /// A text frame
    Text(String),
    /// A binary frame
    Binary(Vec<u8>),
    /// A ping with its payload
    Ping(Vec<u8>),
    /// A pong
    Pong(Vec<u8>),
    /// The client closes the connection
    Close,
}

/// How a session answers one frame.
#[derive(Debug)]
pub enum Reaction {
    /// The frame held a command
    Command(SessionStep),
    /// Send this binary frame back
    Echo(Vec<u8>),
    /// Answer with a pong of this payload; if that fails, leave
    Pong(Vec<u8>),
    /// Tell the channel that the user left, and end the session
    Leave,
    /// Nothing to do
    Nothing,
}

/// How the session of user `id` answers one frame of its client.
pub fn handle_message(id: UserID, msg: Frame, schema: &DynamicSchema) -> (r: Reaction)
    ensures
        match msg {
            Frame::Text(t) => r matches Reaction::Command(s) && exists|c: Result<Command, ParseCommandError>|
                crate::command::parses_to(t@, c) && handle_command_spec(id, c, *schema, s),
            Frame::Binary(b) => r matches Reaction::Echo(x) && x == b,
            Frame::Ping(p) => r matches Reaction::Pong(x) && x == p,
            Frame::Pong(_) => r matches Reaction::Nothing,
            Frame::Close => r matches Reaction::Leave,
        },
{
    match msg {
        Frame::Text(t) => {
            let c = Command::parse(t.as_str());
            let s = handle_command(id, c, schema);
            Reaction::Command(s)
        },
        Frame::Binary(b) => Reaction::Echo(b),
        Frame::Ping(p) => Reaction::Pong(p),
        Frame::Pong(_) => Reaction::Nothing,
        Frame::Close => Reaction::Leave,
    }
}

/// 256 to the power `i`.
pub open spec fn pow256(i: nat) -> nat
    decreases i,
{
    if i == 0 {
        1
    } else {
        256 * pow256((i - 1) as nat)
    }
}

proof fn lemma_pow256_positive(i: nat)
    ensures
        pow256(i) > 0,
    decreases i,
{
    if i > 0 {
        lemma_pow256_positive((i - 1) as nat);
    }
}

/// Byte `i` of `n` in little-endian order.
pub open spec fn le_byte(n: nat, i: nat) -> nat {
    (n / pow256(i)) % 256
}

/// The payload of a heartbeat ping: the microseconds since the session started,
/// as 16 bytes in little-endian order.
pub fn ping_payload(micros: u128) -> (r: Vec<u8>)
    ensures
        r@.len() == 16,
        forall|i: int| 0 <= i < 16 ==> r@[i] as nat == le_byte(micros as nat, i as nat),
{
    let mut out: Vec<u8> = Vec::new();
    let mut x: u128 = micros;
    let mut i: usize = 0;
    assert(pow256(0) == 1);
    assert(micros as nat / 1 == micros as nat);
    while i < 16
        invariant
            i <= 16,
            out@.len() == i,
            x as nat == micros as nat / pow256(i as nat),
            forall|k: int| 0 <= k < i ==> out@[k] as nat == le_byte(micros as nat, k as nat),
        decreases 16 - i,
    {
        proof {
            lemma_pow256_positive(i as nat);
            vstd::arithmetic::div_mod::lemma_div_denominator(micros as int, pow256(i as nat) as int, 256);
            assert(pow256((i + 1) as nat) == pow256(i as nat) * 256);
        }
        out.push((x % 256) as u8);
        x = x / 256;
        i = i + 1;
    }
    out
}

/// A frame the session sends to its client.
#[derive(Debug, Clone, Copy, PartialEq, Eq, Structural)]
pub enum Outbound {
    /// A broadcast of the channel
    Broadcast,
    /// A signal for this user
    Signal,
    /// The heartbeat ping
    Ping,
    /// The pong that answers a ping
    Pong,
    /// A binary frame echoed back
    Echo,
    /// An answer to a command (`init`, `peers`, `error`)
    Reply,
}

/// What a session does after a frame could not be sent.
#[derive(Debug, Clone, Copy, PartialEq, Eq, Structural)]
pub enum AfterFailure {
    /// Go on: one lost write must not end the session
    Continue,
    /// Tell the channel that the user left, and end the session
    Leave,
}

/// What the session does after failing to send a frame of kind `kind`: a lost
/// broadcast or signal is logged and the session goes on; any other failed write
/// means the connection is gone, so the user leaves the channel.
pub fn after_send_failure(kind: Outbound) -> (r: AfterFailure)
    ensures
        r == (if kind == Outbound::Broadcast || kind == Outbound::Signal {
            AfterFailure::Continue
        } else {
            AfterFailure::Leave
        }),
{
    match kind {
        Outbound::Broadcast | Outbound::Signal => AfterFailure::Continue,
        _ => AfterFailure::Leave,
    }
}

/// A URL path with its percent escapes decoded, or `None` where the bytes they
/// stand for are not UTF-8.
pub uninterp spec fn url_decoded(s: Seq<char>) -> Option<Seq<char>>;

/// Relies on `urlencoding::decode`: it fails only where the decoded bytes are not
/// UTF-8, and a text without `%` comes back as it is.
#[verifier::external_body]
fn url_decode(s: &str) -> (r: Option<String>)
    ensures
        opt_view(r) == url_decoded(s@),
        !s@.contains('%') ==> opt_view(r) == Some(s@),
{
    urlencoding::decode(s).ok()
}

/// The channel path that a request URI's path asks for: its percent escapes
/// decoded; `None` where that does not give UTF-8.
pub fn channel_path(uri_path: &str) -> (r: Option<String>)
    ensures
        opt_view(r) == url_decoded(uri_path@),
        !uri_path@.contains('%') ==> opt_view(r) == Some(uri_path@),
{
    url_decode(uri_path)
}

} // verus!
