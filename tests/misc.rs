use padington::config::Flags;
use padington::http::write_response;
use padington::ids::{ChannelID, Counter, UserID};
use padington::model::{ImageAttrs, NodeType};

#[test]
fn counter_counts_from_zero() {
    let mut c: Counter<UserID> = Counter::new();
    assert_eq!(c.next(), UserID(0));
    assert_eq!(c.next(), UserID(1));
    assert_eq!(c.peek(), 2);
    let mut d: Counter<ChannelID> = Counter::new();
    assert_eq!(d.next().int_val(), 0);
    assert!(d.has_next());
}

#[test]
fn fallback_addresses() {
    assert_eq!(Flags { cfg: None, port: None }.fallback_addr(), Some("127.0.0.1:9002".to_string()));
    assert_eq!(Flags { cfg: None, port: Some(8080) }.fallback_addr(), Some("0.0.0.0:8080".to_string()));
    assert_eq!(Flags { cfg: Some("c.toml".to_string()), port: Some(1) }.fallback_addr(), None);
}

#[test]
fn response_head() {
    let h = vec![("sec-websocket-protocol".to_string(), "padington".to_string()), ("access-control-allow-origin".to_string(), "*".to_string())];
    assert_eq!(
        write_response("HTTP/1.1", "101 Switching Protocols", &h),
        "HTTP/1.1 101 Switching Protocols\r\nsec-websocket-protocol: padington\r\naccess-control-allow-origin: *\r\n\r\n"
    );
    assert_eq!(write_response("HTTP/1.1", "406 Not Acceptable", &vec![]), "HTTP/1.1 406 Not Acceptable\r\n\r\n");
}

#[test]
fn model_values() {
    assert_eq!(NodeType::Doc.name(), "doc");
    let a = ImageAttrs { src: String::new(), alt: String::new(), title: String::new() };
    assert_eq!(a.clone(), a);
}

#[test]
fn id_labels() {
    assert_eq!(UserID(12).label(), "user#12");
    assert_eq!(ChannelID(0).label(), "channel#0");
}
