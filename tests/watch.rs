use solagg::watch::{classify_text, on_frame, slot_subscribe_message, Frame, WatchAction};

#[test]
fn slot_notification_enqueues_the_root() {
    let text = r#"{"jsonrpc":"2.0","method":"slotNotification","params":{"result":{"parent":74,"root":42,"slot":75},"subscription":0}}"#;
    assert_eq!(on_frame(&Frame::Text(text.to_string())), WatchAction::Enqueue(42));
}

#[test]
fn other_messages_are_ignored() {
    let account = r#"{"jsonrpc":"2.0","method":"accountNotification","params":{"result":{"value":{"lamports":1}}}}"#;
    assert_eq!(on_frame(&Frame::Text(account.to_string())), WatchAction::Ignore);
    let ack = r#"{"jsonrpc":"2.0","result":23784,"id":"1"}"#;
    assert_eq!(on_frame(&Frame::Text(ack.to_string())), WatchAction::Ignore);
    let rootless = r#"{"method":"slotNotification","params":{"result":{"slot":75}}}"#;
    assert_eq!(on_frame(&Frame::Text(rootless.to_string())), WatchAction::Ignore);
    assert_eq!(on_frame(&Frame::Text("not json".to_string())), WatchAction::Ignore);
    assert_eq!(on_frame(&Frame::Other), WatchAction::Ignore);
}

#[test]
fn close_and_transport_errors_end_the_watch() {
    assert_eq!(on_frame(&Frame::Close), WatchAction::Stop);
    assert_eq!(
        on_frame(&Frame::TransportError("reset".to_string())),
        WatchAction::Fail("reset".to_string())
    );
}

#[test]
fn classification_of_read_parts() {
    assert_eq!(classify_text(&Some("slotNotification".to_string()), Some(7)), WatchAction::Enqueue(7));
    assert_eq!(classify_text(&Some("slotNotification".to_string()), None), WatchAction::Ignore);
    assert_eq!(classify_text(&Some("slotnotification".to_string()), Some(7)), WatchAction::Ignore);
    assert_eq!(classify_text(&None, Some(7)), WatchAction::Ignore);
}

#[test]
fn subscribe_message_text() {
    let m = slot_subscribe_message();
    let v: serde_json::Value = serde_json::from_str(&m).unwrap();
    assert_eq!(v["method"], "slotSubscribe");
    assert_eq!(v["jsonrpc"], "2.0");
    assert_eq!(v["id"], "1");
}
