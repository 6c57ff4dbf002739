use a2a_demo_bridge::message::{
    validate_message, Refusal, HEARTBEAT_ACCEPTED, MAX_MESSAGE_LEN, ROUND_ACCEPTED,
};

#[test]
fn messages_lose_the_white_space_around_them() {
    assert_eq!(validate_message("  what is\tup? \r\n"), Ok("what is\tup?".to_string()));
    assert_eq!(validate_message("\u{a0}\u{2003}hi\u{3000}\u{85}"), Ok("hi".to_string()));
    assert_eq!(validate_message("\u{200b}hi"), Ok("\u{200b}hi".to_string()));
}

#[test]
fn every_character_counts_as_white_space_where_it_should() {
    for c in (0..=0x10ffff_u32).filter_map(char::from_u32) {
        let raw = c.to_string();
        assert_eq!(validate_message(&raw).is_err(), c.is_whitespace(), "{:x}", c as u32);
    }
}

#[test]
fn blank_messages_are_refused() {
    assert_eq!(validate_message(""), Err(Refusal::EmptyMessage));
    assert_eq!(validate_message(" \n\t "), Err(Refusal::EmptyMessage));
}

#[test]
fn the_limit_is_in_bytes_and_after_trimming() {
    assert_eq!(MAX_MESSAGE_LEN, 400);
    assert_eq!(validate_message(&"x".repeat(400)), Ok("x".repeat(400)));
    assert_eq!(validate_message(&"x".repeat(401)), Err(Refusal::MessageTooLong));
    assert_eq!(validate_message(&format!("  {}  ", "x".repeat(400))), Ok("x".repeat(400)));
    assert_eq!(validate_message(&"\u{e9}".repeat(200)), Ok("\u{e9}".repeat(200)));
    assert_eq!(validate_message(&"\u{e9}".repeat(201)), Err(Refusal::MessageTooLong));
    assert_eq!(validate_message(&"\u{1f600}".repeat(100)), Ok("\u{1f600}".repeat(100)));
    assert_eq!(validate_message(&"\u{1f600}".repeat(101)), Err(Refusal::MessageTooLong));
}

#[test]
fn accepted_messages_are_accepted_again() {
    let once = validate_message(" a b ").unwrap();
    assert_eq!(validate_message(&once), Ok(once.clone()));
}

#[test]
fn refusals_answer_with_a_status_and_a_text() {
    let answers = vec![
        (Refusal::EmptyMessage, 400, Some("message must not be empty")),
        (Refusal::MessageTooLong, 400, Some("message too long")),
        (Refusal::UnknownScenario, 404, Some("unknown scenario")),
        (Refusal::NotProvisioned, 404, Some("scenario not provisioned yet")),
        (Refusal::Busy, 429, Some("a round is already running, wait for round_done")),
        (Refusal::UnknownPeer, 404, Some("unknown peer")),
        (Refusal::Unauthorized, 401, None),
    ];
    for (refusal, status, body) in answers {
        assert_eq!(refusal.status(), status);
        assert_eq!(refusal.body(), body);
    }
    assert_eq!(ROUND_ACCEPTED, 202);
    assert_eq!(HEARTBEAT_ACCEPTED, 204);
}
