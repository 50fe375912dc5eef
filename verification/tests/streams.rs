use nautilus_aster::enums::{AsterWsEventType, AsterWsMethod};
use nautilus_aster::streams::{
    is_reconnected_signal, stream_frame_output, unsubscribe_request,
    AsterFuturesDataWsFeedHandler, HandlerOutput, SubscriptionReply, WsJsonFrame, RECONNECTED,
};

fn frame() -> WsJsonFrame {
    WsJsonFrame {
        has_result: false,
        has_id: false,
        code: None,
        msg: None,
        event_type: None,
        reply: SubscriptionReply::Unrecognized,
    }
}

fn streams(names: &[&str]) -> Vec<String> {
    names.iter().map(|s| s.to_string()).collect()
}

#[test]
fn reconnected_signal_is_recognised() {
    assert!(is_reconnected_signal(RECONNECTED.as_bytes()));
    assert!(!is_reconnected_signal(b"{}"));
    assert!(!is_reconnected_signal(b""));
    let mut h = AsterFuturesDataWsFeedHandler::new();
    let (out, update) = h.handle_raw_message(RECONNECTED.as_bytes(), None);
    assert_eq!(out, Some(HandlerOutput::Reconnected));
    assert!(update.is_none());
}

#[test]
fn non_json_frames_are_dropped() {
    let mut h = AsterFuturesDataWsFeedHandler::new();
    let (out, update) = h.handle_raw_message(b"not json", None);
    assert!(out.is_none());
    assert!(update.is_none());
}

#[test]
fn subscribe_then_successful_answer_confirms_streams() {
    let mut h = AsterFuturesDataWsFeedHandler::new();
    let req = h.register_subscribe(7, streams(&["btcusdt@aggTrade", "btcusdt@depth"]));
    assert_eq!(req.method, AsterWsMethod::Subscribe);
    assert_eq!(req.id, 7);
    assert_eq!(req.params, streams(&["btcusdt@aggTrade", "btcusdt@depth"]));
    assert_eq!(h.pending_count(), 1);

    let f = WsJsonFrame {
        has_result: true,
        has_id: true,
        reply: SubscriptionReply::Answer { id: 7, succeeded: true },
        ..frame()
    };
    let (out, update) = h.handle_raw_message(b"{\"result\":null,\"id\":7}", Some(&f));
    assert!(out.is_none());
    let update = update.unwrap();
    assert!(update.confirmed);
    assert_eq!(update.streams, streams(&["btcusdt@aggTrade", "btcusdt@depth"]));
    assert_eq!(h.pending_count(), 0);

    let (_, again) = h.handle_raw_message(b"{\"result\":null,\"id\":7}", Some(&f));
    assert!(again.is_none());
}

#[test]
fn failed_and_error_answers_fail_streams() {
    let mut h = AsterFuturesDataWsFeedHandler::new();
    h.register_subscribe(1, streams(&["a"]));
    h.register_subscribe(2, streams(&["b"]));
    let failed = h
        .handle_subscription_reply(&SubscriptionReply::Answer { id: 1, succeeded: false })
        .unwrap();
    assert!(!failed.confirmed);
    assert_eq!(failed.streams, streams(&["a"]));
    let errored = h
        .handle_subscription_reply(&SubscriptionReply::Error {
            id: Some(2),
            code: 2,
            msg: "Invalid request".to_string(),
        })
        .unwrap();
    assert!(!errored.confirmed);
    assert_eq!(errored.streams, streams(&["b"]));
    assert_eq!(h.pending_count(), 0);
}

#[test]
fn answers_to_unknown_requests_change_nothing() {
    let mut h = AsterFuturesDataWsFeedHandler::new();
    h.register_subscribe(3, streams(&["x"]));
    assert!(h
        .handle_subscription_reply(&SubscriptionReply::Answer { id: 9, succeeded: true })
        .is_none());
    assert!(h
        .handle_subscription_reply(&SubscriptionReply::Error {
            id: None,
            code: 1,
            msg: "m".to_string()
        })
        .is_none());
    assert!(h.handle_subscription_reply(&SubscriptionReply::Unrecognized).is_none());
    assert_eq!(h.pending_count(), 1);
}

#[test]
fn error_frames_become_error_outputs() {
    let mut h = AsterFuturesDataWsFeedHandler::new();
    let with_msg = WsJsonFrame {
        code: Some(-1121),
        msg: Some("Invalid symbol.".to_string()),
        ..frame()
    };
    let (out, _) = h.handle_raw_message(b"{}", Some(&with_msg));
    assert_eq!(
        out,
        Some(HandlerOutput::Error {
            code: -1121,
            msg: "Invalid symbol.".to_string()
        })
    );
    let without_msg = WsJsonFrame {
        code: Some(5),
        ..frame()
    };
    let (out, _) = h.handle_raw_message(b"{}", Some(&without_msg));
    assert_eq!(
        out,
        Some(HandlerOutput::Error {
            code: 5,
            msg: "Unknown error".to_string()
        })
    );
}

#[test]
fn stream_frames_by_event_type() {
    let mut h = AsterFuturesDataWsFeedHandler::new();
    let agg = WsJsonFrame {
        event_type: Some("aggTrade".to_string()),
        ..frame()
    };
    assert_eq!(
        h.handle_raw_message(b"{}", Some(&agg)).0,
        Some(HandlerOutput::Event(AsterWsEventType::AggTrade))
    );
    let expired = WsJsonFrame {
        event_type: Some("listenKeyExpired".to_string()),
        ..frame()
    };
    assert_eq!(
        h.handle_raw_message(b"{}", Some(&expired)).0,
        Some(HandlerOutput::ListenKeyExpired)
    );
    for e in ["24hrMiniTicker", "somethingNew"] {
        let f = WsJsonFrame {
            event_type: Some(e.to_string()),
            ..frame()
        };
        assert!(h.handle_raw_message(b"{}", Some(&f)).0.is_none());
    }
    assert!(h.handle_raw_message(b"{}", Some(&frame())).0.is_none());
    assert_eq!(stream_frame_output(None), None);
    assert_eq!(
        stream_frame_output(Some(AsterWsEventType::OrderTradeUpdate)),
        Some(HandlerOutput::Event(AsterWsEventType::OrderTradeUpdate))
    );
}

#[test]
fn unsubscribe_requests() {
    let req = unsubscribe_request(11, streams(&["a", "b"]));
    assert_eq!(req.method, AsterWsMethod::Unsubscribe);
    assert_eq!(req.id, 11);
    assert_eq!(req.params, streams(&["a", "b"]));
}
