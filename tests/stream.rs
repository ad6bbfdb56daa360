use binance::error::StreamError;
use binance::events::{
    classify_payload, string_or_bool, string_or_integer, EventKind, FieldValue,
};
use binance::websockets::{
    finish_dispatch, handle_frame, handle_msg, multi_stream_endpoint, Config, Frame, FrameStep,
    FuturesWebSockets, LoopStep,
};

fn kind(payload: &str) -> EventKind {
    match classify_payload(payload) {
        Ok(k) => k,
        Err(e) => panic!("unexpected failure {:?}", e),
    }
}

#[test]
fn each_marker_selects_its_kind() {
    assert_eq!(kind(r#"{"e":"ORDER_TRADE_UPDATE","T":1}"#), EventKind::OrderTrade);
    assert_eq!(kind(r#"{"e":"ACCOUNT_UPDATE","T":1}"#), EventKind::AccountUpdate);
    assert_eq!(kind(r#"{"e":"ACCOUNT_CONFIG_UPDATE","T":1}"#), EventKind::LeverageUpdate);
    assert_eq!(kind(r#"{"e":"listenKeyExpired","E":1}"#), EventKind::ListenKeyExpired);
    assert_eq!(kind(r#"{"e":"aggTrade","E":1}"#), EventKind::AggTrade);
}

#[test]
fn markers_match_case_exactly() {
    let r = classify_payload(r#"{"e":"AGGTRADE"}"#);
    assert!(matches!(r, Err(StreamError::Unrecognized(t)) if t == r#"{"e":"AGGTRADE"}"#));
}

#[test]
fn earlier_marker_wins() {
    assert_eq!(kind(r#"{"e":"ACCOUNT_UPDATE","x":"aggTrade"}"#), EventKind::AccountUpdate);
    assert_eq!(kind(r#"{"x":"aggTrade","e":"ORDER_TRADE_UPDATE","y":"ACCOUNT_UPDATE"}"#), EventKind::OrderTrade);
    assert_eq!(kind(r#"{"e":"listenKeyExpired","s":"ACCOUNT_CONFIG_UPDATE"}"#), EventKind::LeverageUpdate);
}

#[test]
fn unknown_message_is_unrecognized() {
    let r = handle_msg(r#"{"e":"kline"}"#);
    assert!(matches!(r, Err(StreamError::Unrecognized(t)) if t == r#"{"e":"kline"}"#));
}

#[test]
fn invalid_json_is_a_decode_failure() {
    let r = handle_msg("not json aggTrade");
    assert!(matches!(r, Err(StreamError::Decode(t)) if t == "not json aggTrade"));
}

#[test]
fn envelope_is_unwrapped_to_its_data() {
    let data = r#"{"E":5,"e":"aggTrade","s":"BTCUSDT"}"#;
    let envelope = format!(r#"{{"stream":"btcusdt@aggTrade","data":{}}}"#, data);
    let (k, payload) = handle_msg(&envelope).unwrap();
    assert_eq!(k, EventKind::AggTrade);
    assert_eq!(payload, data);
    let (direct, _) = handle_msg(data).unwrap();
    assert_eq!(direct, k);
}

#[test]
fn envelope_marker_outside_data_is_ignored() {
    let envelope = r#"{"stream":"ACCOUNT_UPDATE","data":{"e":"aggTrade"}}"#;
    let (k, payload) = handle_msg(envelope).unwrap();
    assert_eq!(k, EventKind::AggTrade);
    assert_eq!(payload, r#"{"e":"aggTrade"}"#);
}

#[test]
fn null_data_keeps_the_whole_message() {
    let msg = r#"{"stream":"x","data":null,"e":"listenKeyExpired"}"#;
    let (k, payload) = handle_msg(msg).unwrap();
    assert_eq!(k, EventKind::ListenKeyExpired);
    assert_eq!(payload, msg);
}

#[test]
fn integer_field_text_or_number() {
    let text = string_or_integer(&FieldValue::Text("123".to_string()));
    let number = string_or_integer(&FieldValue::Unsigned(123));
    assert_eq!(text, Some(123));
    assert_eq!(text, number);
    assert_eq!(string_or_integer(&FieldValue::Text("+20".to_string())), Some(20));
    assert_eq!(string_or_integer(&FieldValue::Text("12a".to_string())), None);
    assert_eq!(string_or_integer(&FieldValue::Text("".to_string())), None);
    assert_eq!(
        string_or_integer(&FieldValue::Text("18446744073709551615".to_string())),
        Some(u64::MAX)
    );
    assert_eq!(string_or_integer(&FieldValue::Text("18446744073709551616".to_string())), None);
    assert_eq!(string_or_integer(&FieldValue::Compound), None);
    assert_eq!(string_or_integer(&FieldValue::OtherNumber), None);
}

#[test]
fn bool_field_text_or_native() {
    assert_eq!(string_or_bool(&FieldValue::Text("true".to_string())), Some(true));
    assert_eq!(string_or_bool(&FieldValue::Bool(true)), Some(true));
    assert_eq!(string_or_bool(&FieldValue::Text("false".to_string())), Some(false));
    assert_eq!(string_or_bool(&FieldValue::Bool(false)), Some(false));
    assert_eq!(string_or_bool(&FieldValue::Text("True".to_string())), None);
    assert_eq!(string_or_bool(&FieldValue::Compound), None);
}

#[test]
fn flag_down_stops_before_reading() {
    let mut ws: FuturesWebSockets<u32> = FuturesWebSockets::new();
    assert_eq!(ws.poll(false), LoopStep::Stop);
    ws.complete_handshake(Ok(7)).unwrap();
    assert_eq!(ws.poll(false), LoopStep::Stop);
    assert_eq!(ws.poll(true), LoopStep::Read);
}

#[test]
fn no_connection_idles() {
    let ws: FuturesWebSockets<u32> = FuturesWebSockets::new();
    assert_eq!(ws.poll(true), LoopStep::Idle);
}

#[test]
fn close_frame_disconnects() {
    let step = handle_frame(Frame::Close("going away".to_string()));
    assert!(matches!(step, FrameStep::Fail(StreamError::Disconnected(p)) if p == "going away"));
}

#[test]
fn control_frames_are_passed_over() {
    assert!(matches!(handle_frame(Frame::Ping), FrameStep::Continue));
    assert!(matches!(handle_frame(Frame::Pong), FrameStep::Continue));
    assert!(matches!(handle_frame(Frame::Binary), FrameStep::Continue));
    assert!(matches!(handle_frame(Frame::Ended), FrameStep::Continue));
}

#[test]
fn read_failure_ends_the_loop() {
    let step = handle_frame(Frame::Failed("reset".to_string()));
    assert!(matches!(step, FrameStep::Fail(StreamError::Transport(d)) if d == "reset"));
}

#[test]
fn bad_text_frame_is_a_stream_error() {
    let step = handle_frame(Frame::Text(r#"{"e":"kline"}"#.to_string()));
    match step {
        FrameStep::Fail(StreamError::Stream(t, cause)) => {
            assert_eq!(t, r#"{"e":"kline"}"#);
            assert!(matches!(*cause, StreamError::Unrecognized(_)));
        }
        other => panic!("unexpected step {:?}", other),
    }
}

#[test]
fn listen_key_expiry_ends_the_loop_distinctly() {
    let msg = r#"{"e":"listenKeyExpired","E":1234}"#;
    let step = handle_frame(Frame::Text(msg.to_string()));
    let (k, payload) = match step {
        FrameStep::Dispatch(k, p) => (k, p),
        other => panic!("unexpected step {:?}", other),
    };
    assert_eq!(k, EventKind::ListenKeyExpired);
    assert_eq!(payload, msg);
    assert!(matches!(finish_dispatch(msg, k, Ok(())), Err(StreamError::ListenKeyExpired)));
}

#[test]
fn handler_failures_are_wrapped() {
    let msg = r#"{"e":"aggTrade"}"#;
    assert!(finish_dispatch(msg, EventKind::AggTrade, Ok(())).is_ok());
    let r = finish_dispatch(msg, EventKind::AggTrade, Err(StreamError::Msg("boom".to_string())));
    match r {
        Err(StreamError::Stream(t, cause)) => {
            assert_eq!(t, msg);
            assert!(matches!(*cause, StreamError::Msg(m) if m == "boom"));
        }
        other => panic!("unexpected result {:?}", other),
    }
    let r = finish_dispatch(msg, EventKind::AggTrade, Err(StreamError::ListenKeyExpired));
    assert!(matches!(r, Err(StreamError::ListenKeyExpired)));
    let r = finish_dispatch(msg, EventKind::ListenKeyExpired, Err(StreamError::Decode(msg.to_string())));
    assert!(matches!(r, Err(StreamError::Stream(_, c)) if matches!(*c, StreamError::Decode(_))));
}

#[test]
fn disconnect_needs_a_connection() {
    let mut ws: FuturesWebSockets<u32> = FuturesWebSockets::new();
    assert!(matches!(ws.disconnect(), Err(StreamError::NotConnected)));
    ws.complete_handshake(Ok(1)).unwrap();
    assert!(ws.disconnect().is_ok());
}

#[test]
fn failed_handshake_keeps_the_session() {
    let mut ws: FuturesWebSockets<u32> = FuturesWebSockets::new();
    let r = ws.complete_handshake(Err("refused".to_string()));
    assert!(matches!(r, Err(StreamError::Handshake(d)) if d == "refused"));
    assert!(ws.socket.is_none());
    ws.complete_handshake(Ok(3)).unwrap();
    ws.complete_handshake(Ok(4)).unwrap();
    assert_eq!(ws.socket, Some(4));
}

#[test]
fn combined_stream_address() {
    let topics = vec!["btcusdt@aggTrade".to_string(), "ethusdt@aggTrade".to_string()];
    assert_eq!(
        multi_stream_endpoint(&topics),
        "wss://fstream.binance.com/stream?streams=btcusdt@aggTrade/ethusdt@aggTrade"
    );
    let mut ws: FuturesWebSockets<u32> = FuturesWebSockets::new();
    let address = ws.connect_multiple_streams(&topics).unwrap();
    assert_eq!(
        address,
        "wss://fstream.binance.com/stream?streams=btcusdt@aggTrade/ethusdt@aggTrade"
    );
    assert_eq!(ws.subscription, "btcusdt@aggTrade/ethusdt@aggTrade");
}

#[test]
fn single_stream_address() {
    let mut ws: FuturesWebSockets<u32> = FuturesWebSockets::new();
    let address = ws.connect("btcusdt@aggTrade").unwrap();
    assert_eq!(address, "wss://fstream.binance.com/ws/btcusdt@aggTrade");
    assert_eq!(ws.subscription, "btcusdt@aggTrade");
}

#[test]
fn configured_address() {
    let mut ws: FuturesWebSockets<u32> = FuturesWebSockets::new();
    let config = Config { ws_endpoint: "ws://127.0.0.1:9000/ws/".to_string() };
    let address = ws.connect_with_config("abc", &config).unwrap();
    assert_eq!(address, "ws://127.0.0.1:9000/ws/abc");
    let bad = Config { ws_endpoint: "no scheme here ".to_string() };
    let r = ws.connect_with_config("abc", &bad);
    assert!(matches!(r, Err(StreamError::Handshake(_))));
    assert!(ws.socket.is_none());
}

#[test]
fn bad_text_frame_json_is_a_stream_error() {
    let step = handle_frame(Frame::Text("{oops".to_string()));
    match step {
        FrameStep::Fail(StreamError::Stream(t, cause)) => {
            assert_eq!(t, "{oops");
            assert!(matches!(*cause, StreamError::Decode(d) if d == "{oops"));
        }
        other => panic!("unexpected step {:?}", other),
    }
}

#[test]
fn envelope_text_frame_dispatches_its_data() {
    let msg = r#"{"data":{"E":7,"e":"ACCOUNT_CONFIG_UPDATE"},"stream":"key"}"#;
    match handle_frame(Frame::Text(msg.to_string())) {
        FrameStep::Dispatch(k, p) => {
            assert_eq!(k, EventKind::LeverageUpdate);
            assert_eq!(p, r#"{"E":7,"e":"ACCOUNT_CONFIG_UPDATE"}"#);
        }
        other => panic!("unexpected step {:?}", other),
    }
}
