use padington::session::{after_send_failure, AfterFailure, Outbound};
use padington::channel::{Broadcast, InitReply, Signal, SignalKind, UserConfig};
use padington::command::{split_arg, Command, CommandKind, ParseCommandError};
use padington::document::markdown_schema;
use padington::ids::UserID;
use padington::session::{
    channel_path, error_line, folder_line, handle_broadcast, handle_command, handle_message,
    handle_signal, init_lines, ping_payload, protocol_accepted, user_config_json, Frame, Reaction, SessionStep,
};
use padington::text::{parse_u64, parse_usize};

#[test]
fn split_arg_splits_once_at_first_bar() {
    assert_eq!(split_arg("chat|a|b"), ("chat".to_string(), Some("a|b".to_string())));
    assert_eq!(split_arg("init"), ("init".to_string(), None));
    assert_eq!(split_arg("|"), (String::new(), Some(String::new())));
    assert_eq!(split_arg(""), (String::new(), None));
}

#[test]
fn parse_init_with_and_without_name() {
    match Command::parse("init|Alice") {
        Ok(Command::Init(Some(n))) => assert_eq!(n, "Alice"),
        other => panic!("unexpected {:?}", other),
    }
    match Command::parse("init") {
        Ok(Command::Init(None)) => {}
        other => panic!("unexpected {:?}", other),
    }
}

#[test]
fn parse_chat_keeps_bars_in_text() {
    match Command::parse("chat|hello|world") {
        Ok(Command::Chat(t)) => assert_eq!(t, "hello|world"),
        other => panic!("unexpected {:?}", other),
    }
}

#[test]
fn parse_steps_and_webrtc() {
    match Command::parse("steps|12|[{\"a\":1}]") {
        Ok(Command::Steps(v, t)) => {
            assert_eq!(v, 12);
            assert_eq!(t, "[{\"a\":1}]");
        }
        other => panic!("unexpected {:?}", other),
    }
    match Command::parse("webrtc|3|{\"sdp\":\"x|y\"}") {
        Ok(Command::WebRTC(to, p)) => {
            assert_eq!(to, 3);
            assert_eq!(p, "{\"sdp\":\"x|y\"}");
        }
        other => panic!("unexpected {:?}", other),
    }
    match "update|{\"name\":\"Bob\"}".parse::<Command>() {
        Ok(Command::Update(p)) => assert_eq!(p, "{\"name\":\"Bob\"}"),
        other => panic!("unexpected {:?}", other),
    }
}

#[test]
fn parse_errors() {
    assert!(matches!(
        Command::parse("close"),
        Err(ParseCommandError::UnknownCommand(ref v)) if v == "close"
    ));
    assert!(matches!(
        Command::parse("chat"),
        Err(ParseCommandError::MissingArg(CommandKind::Chat))
    ));
    assert!(matches!(
        Command::parse("steps|x|[]"),
        Err(ParseCommandError::MissingArg(CommandKind::Steps))
    ));
    assert!(matches!(
        Command::parse("steps|1"),
        Err(ParseCommandError::MissingArg(CommandKind::Steps))
    ));
    assert!(matches!(
        Command::parse("webrtc|-1|{}"),
        Err(ParseCommandError::MissingArg(CommandKind::WebRTC))
    ));
    assert!(matches!(
        Command::parse("update"),
        Err(ParseCommandError::MissingArg(CommandKind::Update))
    ));
}

#[test]
fn error_messages() {
    let e = ParseCommandError::MissingArg(CommandKind::WebRTC);
    assert_eq!(e.message(), "The command expected an argument (e.g. `webrtc|foo`)");
    let e = ParseCommandError::UnknownCommand("nope".to_string());
    assert_eq!(error_line(&e), "error|The command `nope` is not known");
}

#[test]
fn numbers_parse_like_std() {
    assert_eq!(parse_u64("0"), Some(0));
    assert_eq!(parse_u64("+42"), Some(42));
    assert_eq!(parse_u64("18446744073709551615"), Some(u64::MAX));
    assert_eq!(parse_u64("18446744073709551616"), None);
    assert_eq!(parse_u64(""), None);
    assert_eq!(parse_u64("+"), None);
    assert_eq!(parse_u64("1a"), None);
    assert_eq!(parse_usize("007"), Some(7));
}

#[test]
fn broadcasts_render_as_frames() {
    let b = Broadcast::ChatMessage(UserID(4), "hi|there".to_string());
    assert_eq!(handle_broadcast(&b), "chat|4|hi|there");
    let b = Broadcast::NewUser { remote_id: UserID(1), data: "{\"name\":\"Bob\",\"audio\":false}".to_string() };
    assert_eq!(handle_broadcast(&b), "new-user|1|{\"name\":\"Bob\",\"audio\":false}");
    assert_eq!(handle_broadcast(&Broadcast::UserLeft(UserID(10))), "user-left|10");
    assert_eq!(handle_broadcast(&Broadcast::Steps("[1]".to_string())), "steps|[1]");
    let cfg = UserConfig { name: Some("A\"b".to_string()), audio: None };
    assert_eq!(handle_broadcast(&Broadcast::Update(UserID(2), cfg)), "update|2|{\"name\":\"A\\\"b\",\"audio\":null}");
}

#[test]
fn user_config_json_fields() {
    let cfg = UserConfig { name: None, audio: Some(true) };
    assert_eq!(user_config_json(&cfg), "{\"name\":null,\"audio\":true}");
    let cfg = UserConfig { name: Some("line\nbreak".to_string()), audio: Some(false) };
    assert_eq!(user_config_json(&cfg), "{\"name\":\"line\\nbreak\",\"audio\":false}");
}

#[test]
fn signal_and_init_frames() {
    let s = Signal { sender: UserID(0), reciever: UserID(1), kind: SignalKind::WebRTC("{\"sdp\":\"...\"}".to_string()) };
    assert_eq!(handle_signal(&s), "webrtc|0|{\"sdp\":\"...\"}");
    let reply = InitReply { doc: "{\"doc\":{},\"version\":0}".to_string(), j_peers: "{}".to_string() };
    let (a, b) = init_lines(UserID(7), &reply);
    assert_eq!(a, "init|7|{\"doc\":{},\"version\":0}");
    assert_eq!(b, "peers|{}");
    assert_eq!(folder_line("pads"), "folder|pads");
}

#[test]
fn webrtc_payload_is_compacted_json() {
    let step = handle_command(UserID(5), Command::parse("webrtc|1|{ \"sdp\" : \"x\" }"), &markdown_schema().unwrap());
    match step {
        SessionStep::Signal(s) => {
            assert_eq!(s.sender, UserID(5));
            assert_eq!(s.reciever, UserID(1));
            let SignalKind::WebRTC(p) = s.kind;
            assert_eq!(p, "{\"sdp\":\"x\"}");
        }
        other => panic!("unexpected {:?}", other),
    }
    assert!(matches!(handle_command(UserID(5), Command::parse("webrtc|1|{oops"), &markdown_schema().unwrap()), SessionStep::Fail));
}

#[test]
fn malformed_command_gets_error_reply() {
    match handle_command(UserID(0), Command::parse("bogus"), &markdown_schema().unwrap()) {
        SessionStep::Reply(line) => assert_eq!(line, "error|The command `bogus` is not known"),
        other => panic!("unexpected {:?}", other),
    }
}

#[test]
fn frames_are_answered() {
    let schema = markdown_schema().unwrap();
    assert!(matches!(handle_message(UserID(0), Frame::Binary(vec![1, 2]), &schema), Reaction::Echo(ref b) if b == &vec![1, 2]));
    assert!(matches!(handle_message(UserID(0), Frame::Ping(vec![9]), &schema), Reaction::Pong(ref b) if b == &vec![9]));
    assert!(matches!(handle_message(UserID(0), Frame::Pong(vec![]), &schema), Reaction::Nothing));
    assert!(matches!(handle_message(UserID(0), Frame::Close, &schema), Reaction::Leave));
    match handle_message(UserID(0), Frame::Text("chat|x".to_string()), &schema) {
        Reaction::Command(SessionStep::Chat(t)) => assert_eq!(t, "x"),
        other => panic!("unexpected {:?}", other),
    }
}

#[test]
fn subprotocol_check() {
    assert!(protocol_accepted(Some("padington")));
    assert!(!protocol_accepted(Some("padington2")));
    assert!(!protocol_accepted(None));
}

#[test]
fn uri_paths_are_percent_decoded() {
    assert_eq!(channel_path("/My%20Pad"), Some("/My Pad".to_string()));
    assert_eq!(channel_path("/plain"), Some("/plain".to_string()));
    assert_eq!(channel_path("/bad%FF"), None);
}

#[test]
fn ping_payload_is_little_endian_micros() {
    let p = ping_payload(0x0102_0304);
    assert_eq!(p.len(), 16);
    assert_eq!(&p[..5], &[4, 3, 2, 1, 0]);
    assert_eq!(ping_payload(u128::MAX), vec![255u8; 16]);
    assert_eq!(ping_payload(1_500_000), 1_500_000u128.to_le_bytes().to_vec());
}

#[test]
fn only_lost_broadcasts_and_signals_keep_the_session() {
    assert_eq!(after_send_failure(Outbound::Broadcast), AfterFailure::Continue);
    assert_eq!(after_send_failure(Outbound::Signal), AfterFailure::Continue);
    assert_eq!(after_send_failure(Outbound::Ping), AfterFailure::Leave);
    assert_eq!(after_send_failure(Outbound::Pong), AfterFailure::Leave);
    assert_eq!(after_send_failure(Outbound::Echo), AfterFailure::Leave);
    assert_eq!(after_send_failure(Outbound::Reply), AfterFailure::Leave);
}
