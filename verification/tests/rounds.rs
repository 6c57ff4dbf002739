use a2a_demo_bridge::environment::Environment;
use a2a_demo_bridge::event::Event;
use a2a_demo_bridge::round::{
    request_line, DialParams, Exit, Input, Round, INITIATOR_TIMEOUT_SECS, SERVICE,
};

fn params() -> DialParams {
    DialParams {
        scenario: "bob",
        broker_addr: "edge:4435".to_string(),
        relay_addr: "edge:4436".to_string(),
        holder_key_hex: "aa".to_string(),
        noise_key_hex: "bb".to_string(),
        grant_hex: "cc".to_string(),
        front_door_addr: "edge:443".to_string(),
        front_door_cert_hex: "dd".to_string(),
    }
}

fn texts(events: &[Event]) -> Vec<String> {
    events.iter().map(|e| e.text()).collect()
}

/// All that is told in the course of a round that starts with the message "hi" and the number 1.
fn story(inputs: Vec<Input>) -> Vec<String> {
    let (mut round, events) = Round::start(&params(), 1, "hi");
    let mut told = texts(&events);
    for input in inputs {
        told.extend(texts(&round.step(input).events));
    }
    told
}

fn err(line: &str) -> Input {
    Input::Stderr(line.to_string())
}

fn out(line: &str) -> Input {
    Input::Stdout(line.to_string())
}

const START: &str = r#"{"type":"round_start","scenario":"bob","round":1,"message":"hi"}"#;
const DIALING: &str = r#"{"type":"initiator_dialing","scenario":"bob","broker":"edge:4435"}"#;
const DONE: &str = r#"{"type":"round_done","scenario":"bob","round":1}"#;

#[test]
fn a_round_is_told_from_start_to_done() {
    let told = story(vec![
        Input::Spawned,
        err("ct-agent channel: plane-brokered Initiate (relay 172.18.0.6:4436)"),
        err("ct-agent channel: --call-service text_generation (one service call over the channel, then exit)"),
        err("ct-agent channel: peer is relay-only (no dialable address) — using the edge relay (#121)"),
        err("ct-agent channel: relay leg via QUIC (172.18.0.6:4436) (#106)"),
        err("ct-agent channel: gave up on the relay leg via QUIC"),
        err("something relay-related that is no status line"),
        out("agent-alice (pid 14, 08:51:53): you said \"hi\""),
        Input::Exited(Exit::Success),
    ]);
    assert_eq!(
        told,
        vec![
            START,
            DIALING,
            r#"{"type":"channel_connected","scenario":"bob","line":"ct-agent channel: plane-brokered Initiate (relay 172.18.0.6:4436)"}"#,
            r#"{"type":"initiator_log","scenario":"bob","line":"ct-agent channel: --call-service text_generation (one service call over the channel, then exit)"}"#,
            r#"{"type":"channel_connected","scenario":"bob","line":"ct-agent channel: peer is relay-only (no dialable address) — using the edge relay (#121)"}"#,
            r#"{"type":"transport","scenario":"bob","transport":"quic","line":"ct-agent channel: relay leg via QUIC (172.18.0.6:4436) (#106)"}"#,
            r#"{"type":"channel_connected","scenario":"bob","line":"ct-agent channel: gave up on the relay leg via QUIC"}"#,
            r#"{"type":"initiator_log","scenario":"bob","line":"something relay-related that is no status line"}"#,
            r#"{"type":"reply_received","scenario":"bob","reply":"agent-alice (pid 14, 08:51:53): you said \"hi\""}"#,
            DONE,
        ]
    );
}

#[test]
fn a_dial_that_cannot_be_spawned_has_no_round_done() {
    let told = story(vec![
        Input::SpawnFailed("No such file or directory (os error 2)".to_string()),
        out("too late"),
        Input::Exited(Exit::Success),
    ]);
    assert_eq!(
        told,
        vec![
            START,
            DIALING,
            r#"{"type":"round_error","scenario":"bob","message":"spawning the dial: No such file or directory (os error 2)"}"#,
        ]
    );
}

#[test]
fn the_reply_is_the_last_line_that_is_not_blank() {
    let told = story(vec![
        Input::Spawned,
        out("first"),
        out("  second "),
        out(" \t\u{3000}"),
        out(""),
        Input::Exited(Exit::Success),
    ]);
    assert_eq!(told[2..], [r#"{"type":"reply_received","scenario":"bob","reply":"  second "}"#, DONE]);
}

#[test]
fn a_silent_success_is_an_error() {
    let told = story(vec![Input::Spawned, out("   "), Input::Exited(Exit::Success)]);
    assert_eq!(
        told[2..],
        [
            r#"{"type":"round_error","scenario":"bob","message":"the peer exited 0 but printed no reply line"}"#,
            DONE
        ]
    );
}

#[test]
fn a_reply_does_not_make_up_for_a_failure() {
    let failures = vec![
        (Exit::Failure("exit status: 1".to_string()), "the peer exited with exit status: 1"),
        (Exit::WaitFailed("no child".to_string()), "waiting on the peer: no child"),
        (Exit::TimedOut, "timed out waiting for a reply through the real edge"),
    ];
    for (exit, message) in failures {
        let told = story(vec![Input::Spawned, out("a reply"), Input::Exited(exit)]);
        let error = format!(r#"{{"type":"round_error","scenario":"bob","message":"{message}"}}"#);
        assert_eq!(told[2..], [error.as_str(), DONE]);
    }
}

#[test]
fn only_a_timeout_kills_the_initiator() {
    let exits = vec![
        (Exit::Success, false),
        (Exit::Failure(String::new()), false),
        (Exit::WaitFailed(String::new()), false),
        (Exit::TimedOut, true),
    ];
    for (exit, kill) in exits {
        let (mut round, _) = Round::start(&params(), 1, "hi");
        assert!(!round.step(Input::Spawned).kill);
        assert_eq!(round.step(Input::Exited(exit)).kill, kill);
        assert!(!round.step(Input::Exited(Exit::TimedOut)).kill);
    }
}

#[test]
fn nothing_follows_the_end_of_a_round() {
    let told = story(vec![
        Input::Spawned,
        Input::Exited(Exit::TimedOut),
        err("late"),
        out("late"),
        Input::Spawned,
        Input::SpawnFailed(String::new()),
        Input::Exited(Exit::Success),
    ]);
    assert_eq!(told.len(), 4);
    assert_eq!(told[3], DONE);
}

#[test]
fn a_dial_passes_its_identity_and_its_edge_by_the_environment() {
    let expected = vec![
        ("CT_CHANNEL_ROLE", "initiate"),
        ("CT_CHANNEL_BROKER", "edge:4435"),
        ("CT_CHANNEL_RELAY", "edge:4436"),
        ("CT_CHANNEL_RELAY_ONLY", "1"),
        ("CT_CHANNEL_HOLDER_KEY", "aa"),
        ("CT_CHANNEL_NOISE_KEY", "bb"),
        ("CT_CHANNEL_GRANT", "cc"),
        ("CT_CHANNEL_CALL_SERVICE", "text_generation"),
        ("CT_CHANNEL_FRONT_DOOR", "edge:443"),
        ("CT_CHANNEL_FRONT_DOOR_CERT", "dd"),
        ("CT_CHANNEL_DIRECT_UPGRADE", "1"),
    ];
    let vars = params().environment();
    let vars: Vec<(&str, &str)> = vars.iter().map(|(n, v)| (*n, v.as_str())).collect();
    assert_eq!(vars, expected);
}

#[test]
fn a_dial_runs_the_channel_command_with_the_message_on_its_input() {
    let dial = params().command(&Environment::new(vec![]), " hi ");
    assert_eq!(dial.program, "ct-agent");
    assert_eq!(dial.arguments, vec!["channel"]);
    assert_eq!(dial.environment, params().environment());
    assert_eq!(dial.input, " hi \n");
    let env = Environment::new(vec![("CT_AGENT_BIN".to_string(), "/opt/ct-agent".to_string())]);
    assert_eq!(params().command(&env, "hi").program, "/opt/ct-agent");
    assert_eq!(params().arguments(), vec!["channel"]);
}

#[test]
fn the_request_is_one_line() {
    assert_eq!(request_line("hi there"), "hi there\n");
    assert_eq!(SERVICE, "text_generation");
    assert_eq!(INITIATOR_TIMEOUT_SECS, 60);
}
