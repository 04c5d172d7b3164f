use plumb::websocket::{frame_action, WebSocketConfig, WsAction, WsFrame};

#[test]
fn text_frames_deliver_utf8_bytes() {
    match frame_action(WsFrame::Text("héllo".to_string())) {
        WsAction::Deliver(b) => assert_eq!(b, "héllo".as_bytes().to_vec()),
        _ => panic!("text must be delivered"),
    }
}

#[test]
fn binary_frames_deliver_bytes() {
    match frame_action(WsFrame::Binary(vec![0, 255, 7])) {
        WsAction::Deliver(b) => assert_eq!(b, vec![0, 255, 7]),
        _ => panic!("binary must be delivered"),
    }
}

#[test]
fn control_frames_are_skipped() {
    assert!(matches!(frame_action(WsFrame::Control), WsAction::Skip));
}

#[test]
fn close_and_end_finish() {
    assert!(matches!(frame_action(WsFrame::Close), WsAction::Finish));
    assert!(matches!(frame_action(WsFrame::Ended), WsAction::Finish));
}

#[test]
fn failures_are_reported() {
    assert!(matches!(frame_action(WsFrame::Failed), WsAction::Fail));
}

#[test]
fn config_holds_subscription() {
    let c = WebSocketConfig {
        url: "wss://example.org/stream".to_string(),
        subscription_message: Some("{\"method\":\"SUBSCRIBE\"}".to_string()),
        headers: None,
    };
    assert_eq!(c.subscription_message.as_deref(), Some("{\"method\":\"SUBSCRIBE\"}"));
}
