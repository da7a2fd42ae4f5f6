use oc_worker::framing::decode_frame;
use oc_worker::routes::RouteTable;
use oc_worker::ws_client::{
    build_request_header, header_from_quoted, Dispatch, LinkAction, LinkEvent, WsClient, RECONNECT_DELAY_MS,
};

#[test]
fn route_table_second_registration_wins() {
    let mut t = RouteTable::new();
    t.register("worker/run", 1);
    t.register("worker/init", 2);
    t.register("worker/run", 3);
    assert_eq!(t.lookup("worker/run"), Some(3));
    assert_eq!(t.lookup("worker/init"), Some(2));
    assert_eq!(t.lookup("worker/close"), None);
}

#[test]
fn client_route_overwrite() {
    let mut c = WsClient::new("uid".to_string(), "ws://host".to_string());
    c.route_ws("worker/hello", 10);
    c.route_ws("worker/hello", 11);
    assert!(c.select_handler("worker/hello", b"") == Some(Dispatch::Plain(11)));
}

#[test]
fn dispatch_by_payload_kind() {
    let mut c = WsClient::new("uid".to_string(), "ws://host".to_string());
    c.route_ws("worker/hello", 1);
    c.route_ws_big_payload("worker/run", 2);
    assert!(c.select_handler("worker/hello", b"") == Some(Dispatch::Plain(1)));
    assert!(c.select_handler("worker/run", b"data") == Some(Dispatch::BigPayload(2)));
    // no handler of the required kind: dropped
    assert!(c.select_handler("worker/hello", b"data").is_none());
    assert!(c.select_handler("worker/run", b"").is_none());
    assert!(c.select_handler("unknown", b"").is_none());
}

#[test]
fn request_header_is_json_object() {
    let h = build_request_header("u1", "worker/init", "p");
    assert_eq!(String::from_utf8(h).unwrap(), r#"{"t":"u1","r":"worker/init","p":"p"}"#);
}

#[test]
fn request_header_escapes_strings() {
    let h = build_request_header("u", "r", "a\"b\\c\n");
    assert_eq!(String::from_utf8(h).unwrap(), r#"{"t":"u","r":"r","p":"a\"b\\c\n"}"#);
}

#[test]
fn send_before_start_is_dropped() {
    let mut c = WsClient::new("u".to_string(), "ws://host".to_string());
    c.send("r".to_string(), "p".to_string());
    assert!(c.next_outbound().is_none());
}

#[test]
fn sends_are_framed_and_kept_in_order() {
    let mut c = WsClient::new("u".to_string(), "ws://host".to_string());
    assert!(c.start_ws() == LinkAction::Connect);
    c.send("a".to_string(), "1".to_string());
    c.send_big_payload("b".to_string(), "2".to_string(), "BIG".to_string());
    let first = c.next_outbound().unwrap();
    let second = c.next_outbound().unwrap();
    assert!(c.next_outbound().is_none());
    assert_eq!(String::from_utf8(first).unwrap(), r#"0019{"t":"u","r":"a","p":"1"}"#);
    let (h, p) = decode_frame(&second).unwrap();
    assert_eq!(String::from_utf8(h).unwrap(), r#"{"t":"u","r":"b","p":"2"}"#);
    assert_eq!(p, b"BIG".to_vec());
}

#[test]
fn reconnect_scheduled_once_per_close() {
    let mut c = WsClient::new("u".to_string(), "ws://host".to_string());
    c.start_ws();
    assert!(
        c.handle_link_event(LinkEvent::Closed)
            == LinkAction::ScheduleReconnect { delay_ms: RECONNECT_DELAY_MS }
    );
    assert_eq!(RECONNECT_DELAY_MS, 3000);
    assert!(c.handle_link_event(LinkEvent::Failed) == LinkAction::LogError);
    assert!(c.handle_link_event(LinkEvent::ReconnectDue) == LinkAction::Connect);
    assert!(
        c.handle_link_event(LinkEvent::Closed)
            == LinkAction::ScheduleReconnect { delay_ms: 3000 }
    );
}

#[test]
fn error_event_schedules_nothing() {
    let mut c = WsClient::new("u".to_string(), "ws://host".to_string());
    c.start_ws();
    c.send("a".to_string(), "1".to_string());
    assert!(c.handle_link_event(LinkEvent::Failed) == LinkAction::LogError);
    // the queue is untouched by an error
    assert!(c.next_outbound().is_some());
}

#[test]
fn reconnect_starts_fresh_queue() {
    let mut c = WsClient::new("u".to_string(), "ws://host".to_string());
    c.start_ws();
    c.send("a".to_string(), "1".to_string());
    c.handle_link_event(LinkEvent::Closed);
    c.handle_link_event(LinkEvent::ReconnectDue);
    assert!(c.next_outbound().is_none());
    assert_eq!(c.url_str(), "ws://host");
}

#[test]
fn header_from_quoted_members() {
    let h = header_from_quoted(b"\"a\"", b"\"b\"", b"\"c\"");
    assert_eq!(String::from_utf8(h).unwrap(), r#"{"t":"a","r":"b","p":"c"}"#);
}

#[test]
fn request_header_escapes_controls_and_keeps_unicode() {
    let h = build_request_header("u", "r", "\u{1}\u{8}\t\r\u{c}\u{1f}é✓");
    assert_eq!(
        String::from_utf8(h).unwrap(),
        "{\"t\":\"u\",\"r\":\"r\",\"p\":\"\\u0001\\b\\t\\r\\f\\u001fé✓\"}"
    );
}
