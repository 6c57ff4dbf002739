use a2a_demo_bridge::event::Event;

#[test]
fn events_are_one_line_whatever_they_carry() {
    let event = Event::RoundStart {
        scenario: "bob1",
        round: u32::MAX,
        message: "two\r\nlines, a \"quote\", a \\, a \u{7}, an \u{e9}".to_string(),
    };
    let text = event.text();
    assert_eq!(
        text,
        "{\"type\":\"round_start\",\"scenario\":\"bob1\",\"round\":4294967295,\"message\":\"two\\r\\nlines, a \\\"quote\\\", a \\\\, a \\u0007, an \u{e9}\"}"
    );
    assert!(text.chars().all(|c| c >= ' '));
}

#[test]
fn the_text_of_an_event_can_be_read_back() {
    let event = Event::InitiatorLog { scenario: "bob", line: "a \"line\"\n".to_string() };
    let value: serde_json::Value = serde_json::from_str(&event.text()).unwrap();
    assert_eq!(value, event.to_json());
    assert_eq!(value["type"], "initiator_log");
    assert_eq!(value["scenario"], "bob");
    assert_eq!(value["line"], "a \"line\"\n");
}

#[test]
fn presence_events_name_the_peer() {
    let event = Event::Presence { peer: "bob2".to_string(), online: true };
    assert_eq!(event.text(), r#"{"type":"presence","peer":"bob2","online":true}"#);
    let event = Event::Presence { peer: "bob1".to_string(), online: false };
    assert_eq!(event.text(), r#"{"type":"presence","peer":"bob1","online":false}"#);
}

#[test]
fn transport_events_name_the_rung() {
    let event = Event::Transport { scenario: "bob", transport: "tcp_443", line: "l".to_string() };
    assert_eq!(event.text(), r#"{"type":"transport","scenario":"bob","transport":"tcp_443","line":"l"}"#);
}
