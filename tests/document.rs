use padington::channel::ChannelState;
use padington::document::{initial_doc, load_document, markdown_schema, stored_text, Loaded};

#[test]
fn initial_document_has_title() {
    let schema = markdown_schema().unwrap();
    let doc = initial_doc(&schema).unwrap();
    let text = stored_text(&ChannelState::new(doc), &schema);
    assert!(text.contains("\"Padington\""));
    assert!(text.contains("Lorem Ipsum"));
    assert!(text.contains("fn foo(a: u32) -> u32 {\\n  2 * a\\n}"));
}

#[test]
fn missing_file_is_seeded() {
    let schema = markdown_schema().unwrap();
    match load_document(&schema, None) {
        Some(Loaded::Seeded(doc, text)) => assert_eq!(stored_text(&ChannelState::new(doc), &schema), text),
        other => panic!("unexpected {:?}", other.is_some()),
    }
}

#[test]
fn persisted_document_reloads_unchanged() {
    let schema = markdown_schema().unwrap();
    let doc = initial_doc(&schema).unwrap();
    let written = stored_text(&ChannelState::new(doc), &schema);
    match load_document(&schema, Some(written.as_str())) {
        Some(Loaded::Stored(d)) => assert_eq!(stored_text(&ChannelState::new(d), &schema), written),
        other => panic!("unexpected {:?}", other.is_some()),
    }
}

#[test]
fn unreadable_file_fails_to_load() {
    let schema = markdown_schema().unwrap();
    assert!(load_document(&schema, Some("# not json")).is_none());
    assert!(load_document(&schema, Some("[")).is_none());
}
