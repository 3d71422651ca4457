use tokio_tungstenite::tungstenite::Message as TungsteniteMessage;
use wsforge::{Error, Message, MessageType, WireFrame};

#[test]
fn test_text_message() {
    let msg = Message::text("Hello, World!");
    assert!(msg.is_text());
    assert_eq!(msg.as_text(), Some("Hello, World!"));
    assert_eq!(msg.message_type(), MessageType::Text);
}

#[test]
fn test_binary_message() {
    let data = vec![1, 2, 3, 4, 5];
    let msg = Message::binary(data.clone());
    assert!(msg.is_binary());
    assert_eq!(msg.as_bytes(), &data[..]);
    assert_eq!(msg.message_type(), MessageType::Binary);
}

#[test]
fn test_ping_message() {
    let msg = Message::ping(vec![]);
    assert!(msg.is_ping());
    assert_eq!(msg.message_type(), MessageType::Ping);
}

#[test]
fn test_pong_message() {
    let msg = Message::pong(vec![]);
    assert!(msg.is_pong());
    assert_eq!(msg.message_type(), MessageType::Pong);
}

#[test]
fn test_close_message() {
    let msg = Message::close();
    assert!(msg.is_close());
    assert_eq!(msg.message_type(), MessageType::Close);
}

#[test]
fn test_json_parsing() {
    let msg = Message::text(r#"{"key":"value","number":42}"#);
    let json: serde_json::Value = msg.json().unwrap();
    assert_eq!(json["key"], "value");
    assert_eq!(json["number"], 42);
}

#[test]
fn test_as_bytes() {
    let text_msg = Message::text("Hello");
    assert_eq!(text_msg.as_bytes(), b"Hello");

    let binary_msg = Message::binary(vec![1, 2, 3]);
    assert_eq!(binary_msg.as_bytes(), &[1, 2, 3]);
}

#[test]
fn test_tungstenite_conversion() {
    let msg = Message::text("test");
    let tung_msg = msg.clone().into_tungstenite();
    let back = Message::from_tungstenite(tung_msg);
    assert_eq!(back.as_text(), msg.as_text());
}

#[test]
fn close_carries_no_payload() {
    let msg = Message::close();
    assert!(msg.as_bytes().is_empty());
    assert_eq!(msg.as_text(), None);
}

#[test]
fn as_text_is_absent_for_other_kinds_and_invalid_utf8() {
    assert_eq!(Message::binary(b"abc".to_vec()).as_text(), None);
    assert_eq!(Message::ping(b"abc".to_vec()).as_text(), None);
    let broken = Message { data: vec![0xff, 0xfe], msg_type: MessageType::Text };
    assert_eq!(broken.as_text(), None);
}

#[test]
fn json_rejects_messages_without_text() {
    let binary = Message::binary(b"{}".to_vec());
    assert!(matches!(binary.json::<serde_json::Value>(), Err(Error::InvalidMessage)));
    let broken = Message { data: vec![0xff], msg_type: MessageType::Text };
    assert!(matches!(broken.json::<serde_json::Value>(), Err(Error::InvalidMessage)));
}

#[test]
fn json_reports_malformed_text_as_json_error() {
    let msg = Message::text("invalid json");
    assert!(matches!(msg.json::<serde_json::Value>(), Err(Error::Json(_))));
}

#[test]
fn to_wire_maps_each_kind() {
    assert!(matches!(Message::text("hi").to_wire(), WireFrame::Text(s) if s == "hi"));
    assert!(matches!(Message::binary(vec![1]).to_wire(), WireFrame::Binary(d) if d == vec![1]));
    assert!(matches!(Message::ping(vec![2]).to_wire(), WireFrame::Ping(d) if d == vec![2]));
    assert!(matches!(Message::pong(vec![3]).to_wire(), WireFrame::Pong(d) if d == vec![3]));
    assert!(matches!(Message::close().to_wire(), WireFrame::Close));
}

#[test]
fn to_wire_sends_invalid_text_lossily() {
    let broken = Message { data: vec![b'a', 0xff, b'b'], msg_type: MessageType::Text };
    assert!(matches!(broken.to_wire(), WireFrame::Text(s) if s == "a\u{fffd}b"));
}

#[test]
fn wire_round_trip_keeps_every_kind() {
    let samples = vec![
        Message::text("héllo /chat"),
        Message::binary(vec![0, 255, 7]),
        Message::ping(vec![1, 2]),
        Message::pong(vec![]),
        Message::close(),
    ];
    for m in samples {
        let back = Message::from_wire(m.clone().to_wire());
        assert_eq!(back.message_type(), m.message_type());
        assert_eq!(back.as_bytes(), m.as_bytes());
    }
}

#[test]
fn tungstenite_round_trip_keeps_every_kind() {
    let samples = vec![
        Message::text("hello"),
        Message::binary(vec![9, 8, 7]),
        Message::ping(vec![1]),
        Message::pong(vec![2]),
        Message::close(),
    ];
    for m in samples {
        let back = Message::from_tungstenite(m.clone().into_tungstenite());
        assert_eq!(back.message_type(), m.message_type());
        assert_eq!(back.as_bytes(), m.as_bytes());
    }
}

#[test]
fn into_tungstenite_builds_the_matching_variant() {
    assert_eq!(
        Message::text("x").into_tungstenite(),
        TungsteniteMessage::Text("x".to_string())
    );
    assert_eq!(
        Message::binary(vec![1, 2]).into_tungstenite(),
        TungsteniteMessage::Binary(vec![1, 2])
    );
    assert_eq!(Message::ping(vec![3]).into_tungstenite(), TungsteniteMessage::Ping(vec![3]));
    assert_eq!(Message::pong(vec![4]).into_tungstenite(), TungsteniteMessage::Pong(vec![4]));
    assert_eq!(Message::close().into_tungstenite(), TungsteniteMessage::Close(None));
}

#[test]
fn from_tungstenite_reads_each_variant() {
    let m = Message::from_tungstenite(TungsteniteMessage::Text("Hello".to_string()));
    assert!(m.is_text());
    assert_eq!(m.as_text(), Some("Hello"));
    let m = Message::from_tungstenite(TungsteniteMessage::Binary(vec![5, 6]));
    assert!(m.is_binary());
    assert_eq!(m.as_bytes(), &[5, 6]);
    let m = Message::from_tungstenite(TungsteniteMessage::Ping(vec![7]));
    assert!(m.is_ping());
    assert_eq!(m.as_bytes(), &[7]);
    let m = Message::from_tungstenite(TungsteniteMessage::Pong(vec![8]));
    assert!(m.is_pong());
    let m = Message::from_tungstenite(TungsteniteMessage::Close(None));
    assert!(m.is_close());
    assert!(m.as_bytes().is_empty());
}
