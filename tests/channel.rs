use padington::channel::{Broadcast, ChannelState, UserConfig};
use padington::command::Command;
use padington::document::{apply_batch, load_document, receive_steps, stored_text, welcome, Loaded, StepList};
use padington::ids::UserID;
use padington::session::{handle_command, SessionStep};
use prosemirror::dynamic::{DynamicNode, DynamicSchema};

const SCHEMA: &str = r#"{"nodes":{"doc":{"content":"paragraph+"},"paragraph":{"content":"text*","group":"block"},"text":{"group":"inline"}},"marks":{}}"#;
const DOC: &str = r#"{"type":"doc","content":[{"type":"paragraph"}]}"#;
const INSERT_HI: &str = r#"[{"stepType":"replace","from":1,"to":1,"slice":{"content":[{"type":"text","text":"hi"}]}}]"#;

fn schema() -> DynamicSchema {
    DynamicSchema::from_json(&serde_json::from_str(SCHEMA).unwrap()).unwrap()
}

fn doc(schema: &DynamicSchema) -> DynamicNode {
    match load_document(schema, Some(DOC)) {
        Some(Loaded::Stored(d)) => d,
        _ => panic!("document does not load"),
    }
}

fn steps(schema: &DynamicSchema, version: usize, json: &str) -> Option<StepList> {
    match handle_command(UserID(0), Command::parse(&format!("steps|{}|{}", version, json)), schema) {
        SessionStep::Steps(v, list) => {
            assert_eq!(v, version);
            Some(list)
        }
        SessionStep::Fail => None,
        other => panic!("unexpected {:?}", other),
    }
}

#[test]
fn init_assigns_default_name_and_roster() {
    let mut c: ChannelState<u8> = ChannelState::new(0);
    let (reply, b) = c.init_member(UserID(0), None, "{}");
    assert_eq!(reply.doc, "{\"doc\":{},\"version\":0}");
    assert_eq!(reply.j_peers, "{\"0\":{\"name\":\"Bear #0\",\"audio\":false}}");
    match b {
        Broadcast::NewUser { remote_id, data } => {
            assert_eq!(remote_id, UserID(0));
            assert_eq!(data, "{\"name\":\"Bear #0\",\"audio\":false}");
        }
        other => panic!("unexpected {:?}", other),
    }
}

#[test]
fn second_member_sees_full_roster() {
    let mut c: ChannelState<u8> = ChannelState::new(0);
    c.init_member(UserID(0), Some("Alice".to_string()), "{}");
    let (reply, b) = c.init_member(UserID(1), Some("Bob".to_string()), "{}");
    assert_eq!(reply.j_peers, "{\"0\":{\"name\":\"Alice\",\"audio\":false},\"1\":{\"name\":\"Bob\",\"audio\":false}}");
    assert!(matches!(b, Broadcast::NewUser { remote_id: UserID(1), ref data } if data == "{\"name\":\"Bob\",\"audio\":false}"));
    assert_eq!(c.members().len(), 2);
}

#[test]
fn update_changes_only_supplied_fields() {
    let mut c: ChannelState<u8> = ChannelState::new(0);
    c.init_member(UserID(3), Some("Carl".to_string()), "{}");
    let r = c.update_member(UserID(3), UserConfig { name: None, audio: Some(true) });
    assert!(matches!(r, Some(Broadcast::Update(UserID(3), _))));
    assert_eq!(c.members()[0].name, "Carl");
    assert!(c.members()[0].audio);
    let r = c.update_member(UserID(3), UserConfig { name: Some("Cat".to_string()), audio: None });
    assert!(r.is_some());
    assert_eq!(c.members()[0].name, "Cat");
    assert!(c.members()[0].audio);
}

#[test]
fn update_of_unknown_member_is_dropped() {
    let mut c: ChannelState<u8> = ChannelState::new(0);
    assert!(c.update_member(UserID(9), UserConfig { name: Some("x".to_string()), audio: None }).is_none());
    assert_eq!(c.members().len(), 0);
}

#[test]
fn signal_to_unknown_receiver_has_nobody() {
    let mut c: ChannelState<u8> = ChannelState::new(0);
    c.init_member(UserID(0), None, "{}");
    assert!(c.has_member(UserID(0)));
    assert!(!c.has_member(UserID(1)));
}

#[test]
fn close_removes_member() {
    let mut c: ChannelState<u8> = ChannelState::new(0);
    c.init_member(UserID(0), None, "{}");
    c.init_member(UserID(1), None, "{}");
    let b = c.close_member(UserID(0));
    assert!(matches!(b, Broadcast::UserLeft(UserID(0))));
    assert_eq!(c.members().len(), 1);
    assert_eq!(c.members()[0].id, UserID(1));
    assert!(matches!(c.close_member(UserID(7)), Broadcast::UserLeft(UserID(7))));
    assert_eq!(c.members().len(), 1);
}

#[test]
fn version_sums_accepted_batches() {
    let mut c: ChannelState<u8> = ChannelState::new(0);
    let r = c.apply_steps(UserID(0), 0, 2, Some(1), "[1,2]");
    match r {
        Some(Broadcast::Steps(t)) => assert_eq!(t, "[{\"src\":0,\"steps\":[1,2]}]"),
        other => panic!("unexpected {:?}", other),
    }
    assert_eq!(c.version(), 2);
    assert!(c.apply_steps(UserID(1), 2, 3, Some(2), "[3,4,5]").is_some());
    assert_eq!(c.version(), 5);
    assert_eq!(*c.doc(), 2);
}

#[test]
fn stale_batch_is_dropped() {
    let mut c: ChannelState<u8> = ChannelState::new(0);
    assert!(c.apply_steps(UserID(0), 0, 1, Some(1), "[1]").is_some());
    assert!(c.apply_steps(UserID(1), 0, 1, Some(9), "[9]").is_none());
    assert_eq!(c.version(), 1);
    assert_eq!(*c.doc(), 1);
}

#[test]
fn empty_or_failed_batch_is_no_op() {
    let mut c: ChannelState<u8> = ChannelState::new(0);
    assert!(c.apply_steps(UserID(0), 0, 0, Some(1), "[]").is_none());
    assert!(c.apply_steps(UserID(0), 0, 1, None, "[1]").is_none());
    assert_eq!(c.version(), 0);
    assert_eq!(*c.doc(), 0);
    assert!(!c.accepts(0, 0));
    assert!(c.accepts(0, 1));
    assert!(!c.accepts(1, 1));
}

#[test]
fn two_client_edit_convergence() {
    let schema = schema();
    let mut c = ChannelState::new(doc(&schema));
    let batch = steps(&schema, 0, INSERT_HI).unwrap();
    let r = receive_steps(&mut c, &schema, UserID(0), 0, &batch);
    match r {
        Some(Broadcast::Steps(t)) => assert!(t.starts_with("[{\"src\":0,\"steps\":[")),
        other => panic!("unexpected {:?}", other),
    }
    assert_eq!(c.version(), 1);
    assert!(stored_text(&c, &schema).contains("\"hi\""));
    let stale = steps(&schema, 0, INSERT_HI).unwrap();
    assert!(receive_steps(&mut c, &schema, UserID(1), 0, &stale).is_none());
    assert_eq!(c.version(), 1);
}

#[test]
fn batch_with_bad_step_leaves_document() {
    let schema = schema();
    let mut c = ChannelState::new(doc(&schema));
    let before = stored_text(&c, &schema);
    let bad = r#"[{"stepType":"replace","from":1,"to":1,"slice":{"content":[{"type":"text","text":"a"}]}},{"stepType":"replace","from":90,"to":95}]"#;
    let batch = steps(&schema, 0, bad).unwrap();
    assert!(apply_batch(&schema, c.doc(), &batch).is_none());
    assert!(receive_steps(&mut c, &schema, UserID(0), 0, &batch).is_none());
    assert_eq!(c.version(), 0);
    assert_eq!(stored_text(&c, &schema), before);
    assert!(steps(&schema, 0, "not json").is_none());
}

#[test]
fn welcome_sends_document_state() {
    let schema = schema();
    let mut c = ChannelState::new(doc(&schema));
    let (reply, b) = welcome(&mut c, &schema, UserID(0), Some("Alice".to_string()));
    assert!(reply.doc.starts_with("{\"doc\":{"));
    assert!(reply.doc.ends_with(",\"version\":0}"));
    assert_eq!(reply.j_peers, "{\"0\":{\"name\":\"Alice\",\"audio\":false}}");
    assert!(matches!(b, Broadcast::NewUser { remote_id: UserID(0), .. }));
}
