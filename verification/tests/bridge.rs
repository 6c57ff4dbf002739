use a2a_demo_bridge::bridge::{
    build_state, run_handler, run_scenario_handler, startup_fetch, BridgeState, EVENT_BACKLOG,
};
use a2a_demo_bridge::environment::Environment;
use a2a_demo_bridge::heartbeat::heartbeat_handler;
use a2a_demo_bridge::identity::CaFetch;
use a2a_demo_bridge::message::Refusal;
use a2a_demo_bridge::report::{identities_handler, start_of_key, startup_lines, status_handler};

const REQUIRED: [(&str, &str); 9] = [
    ("A2A_AGENT_CP_URL", "http://cp:8090/"),
    ("A2A_BOB_HOLDER_KEY", "bob-holder"),
    ("A2A_BOB_NOISE_KEY", "bob-noise"),
    ("A2A_BOB_GRANT", "bob-grant"),
    ("A2A_BOB_HOLDER_PUBKEY", "0123456789abcdef0123456789abcdef"),
    ("A2A_CHANNEL_ID", "bob-channel"),
    ("A2A_CHANNEL_BROKER", "edge:4435"),
    ("A2A_CHANNEL_RELAY", "edge:4436"),
    ("A2A_CHANNEL_FRONT_DOOR", "edge:443"),
];

const BOB1: [(&str, &str); 6] = [
    ("A2A_SCENARIOS_ALICE_HOLDER_KEY", "alice-holder"),
    ("A2A_SCENARIOS_ALICE_NOISE_KEY", "alice-noise"),
    ("A2A_S_ALICE_BOB1_CHANNEL_ID", "channel-1"),
    ("A2A_S_ALICE_BOB1_ALICE_GRANT", "grant-1"),
    ("A2A_S_BOB1_HOLDER_PUBKEY", "pubkey-1"),
    ("A2A_HEARTBEAT_TOKEN_BOB1", "token-1"),
];

fn env(vars: &[&[(&str, &str)]]) -> Environment {
    Environment::new(
        vars.concat().iter().map(|(n, v)| (n.to_string(), v.to_string())).collect(),
    )
}

fn der() -> CaFetch {
    CaFetch::Body(vec![0x30, 0x0a])
}

fn state() -> BridgeState {
    build_state(&env(&[&REQUIRED, &BOB1]), &der()).ok().unwrap()
}

fn refusal<T>(r: Result<T, Refusal>) -> Refusal {
    match r {
        Ok(_) => panic!("accepted"),
        Err(refusal) => refusal,
    }
}

#[test]
fn bob_dials_with_his_own_identity() {
    let mut st = state();
    let launch = run_handler(&mut st, " hi ").ok().unwrap();
    assert_eq!(launch.round, 1);
    assert_eq!(launch.message, " hi ");
    assert_eq!(launch.params.scenario, "bob");
    assert_eq!(launch.params.broker_addr, "edge:4435");
    assert_eq!(launch.params.relay_addr, "edge:4436");
    assert_eq!(launch.params.holder_key_hex, "bob-holder");
    assert_eq!(launch.params.noise_key_hex, "bob-noise");
    assert_eq!(launch.params.grant_hex, "bob-grant");
    assert_eq!(launch.params.front_door_addr, "edge:443");
    assert_eq!(launch.params.front_door_cert_hex, "300a");
}

#[test]
fn alice_dials_a_peer_through_the_edge() {
    let mut st = state();
    let launch = run_scenario_handler(&mut st, "bob1", "\thi\n").ok().unwrap();
    assert_eq!(launch.round, 1);
    assert_eq!(launch.message, "\thi\n");
    assert_eq!(launch.params.scenario, "bob1");
    assert_eq!(launch.params.broker_addr, "edge:4435");
    assert_eq!(launch.params.relay_addr, "edge:4436");
    assert_eq!(launch.params.holder_key_hex, "alice-holder");
    assert_eq!(launch.params.noise_key_hex, "alice-noise");
    assert_eq!(launch.params.grant_hex, "grant-1");
    assert_eq!(launch.params.front_door_addr, "edge:443");
    assert_eq!(launch.params.front_door_cert_hex, "300a");
}

#[test]
fn padding_is_sent_but_not_measured() {
    let mut st = state();
    let padded = format!("{}{}{}", " ".repeat(500), "x".repeat(400), "\n".repeat(500));
    assert_eq!(run_handler(&mut st, &padded).ok().unwrap().message, padded);
    st.end_round();
    let long = format!(" {}", "x".repeat(401));
    assert_eq!(refusal(run_handler(&mut st, &long)), Refusal::MessageTooLong);
}

#[test]
fn one_round_runs_at_a_time() {
    let mut st = state();
    assert!(run_handler(&mut st, "one").is_ok());
    assert_eq!(refusal(run_handler(&mut st, "two")), Refusal::Busy);
    assert_eq!(refusal(run_scenario_handler(&mut st, "bob1", "two")), Refusal::Busy);
    st.end_round();
    assert_eq!(run_scenario_handler(&mut st, "bob1", "two").ok().unwrap().round, 2);
    st.end_round();
    assert_eq!(run_handler(&mut st, "three").ok().unwrap().round, 3);
}

#[test]
fn heartbeats_leave_rounds_alone() {
    let mut st = state();
    assert!(run_handler(&mut st, "one").is_ok());
    assert!(heartbeat_handler(&mut st.heartbeats, "bob1", "token-1", 7).is_ok());
    assert_eq!(refusal(run_handler(&mut st, "two")), Refusal::Busy);
    st.end_round();
    assert!(heartbeat_handler(&mut st.heartbeats, "bob1", "token-1", 8).is_ok());
    assert_eq!(run_handler(&mut st, "two").ok().unwrap().round, 2);
}

#[test]
fn the_numbers_start_over_after_the_last_one() {
    let mut st = state();
    st.round = u32::MAX - 1;
    assert_eq!(run_handler(&mut st, "one").ok().unwrap().round, u32::MAX);
    st.end_round();
    assert_eq!(run_handler(&mut st, "two").ok().unwrap().round, 0);
    st.end_round();
    assert_eq!(run_handler(&mut st, "three").ok().unwrap().round, 1);
}

#[test]
fn requests_are_turned_down_for_the_first_thing_that_is_wrong() {
    let mut st = state();
    let long = "x".repeat(401);
    assert_eq!(refusal(run_handler(&mut st, " ")), Refusal::EmptyMessage);
    assert_eq!(refusal(run_handler(&mut st, &long)), Refusal::MessageTooLong);
    assert_eq!(refusal(run_scenario_handler(&mut st, "nobody", " ")), Refusal::EmptyMessage);
    assert_eq!(refusal(run_scenario_handler(&mut st, "nobody", &long)), Refusal::MessageTooLong);
    assert_eq!(refusal(run_scenario_handler(&mut st, "bob", "hi")), Refusal::UnknownScenario);
    assert_eq!(refusal(run_scenario_handler(&mut st, "bob2", "hi")), Refusal::NotProvisioned);
    assert!(!st.busy);
    assert_eq!(st.round, 0);
    assert!(run_handler(&mut st, "hi").is_ok());
    assert_eq!(refusal(run_handler(&mut st, " ")), Refusal::EmptyMessage);
    assert_eq!(refusal(run_scenario_handler(&mut st, "nobody", "hi")), Refusal::UnknownScenario);
    assert_eq!(refusal(run_scenario_handler(&mut st, "bob2", "hi")), Refusal::NotProvisioned);
    assert_eq!(st.round, 1);
}

#[test]
fn the_bridge_starts_without_any_scenario() {
    let st = build_state(&env(&[&REQUIRED]), &der()).ok().unwrap();
    assert!(st.bob1.is_none() && st.bob2.is_none());
    assert!(st.heartbeats.peer("bob1").is_none() && st.heartbeats.peer("bob2").is_none());
    assert_eq!(st.plane.front_door_cert_hex, "300a");
    assert_eq!(EVENT_BACKLOG, 128);
}

#[test]
fn the_bridge_does_not_start_without_bob_or_the_edge() {
    let unreachable = CaFetch::Unreachable("refused".to_string());
    let err = build_state(&env(&[&REQUIRED[..8]]), &der()).err().unwrap();
    assert_eq!(err, "A2A_CHANNEL_FRONT_DOOR must be set (see README/provision.md)");
    let err = build_state(&env(&[&REQUIRED]), &unreachable).err().unwrap();
    assert_eq!(err, "fetching http://cp:8090/pki/ca: refused");
    let err = build_state(&env(&[&REQUIRED]), &CaFetch::Body(vec![])).err().unwrap();
    assert_eq!(
        err,
        "empty /pki/ca response from http://cp:8090/, refusing to start without a front-door trust anchor"
    );
}

#[test]
fn the_first_thing_to_do_is_to_fetch_the_ca() {
    assert_eq!(startup_fetch(&env(&[&REQUIRED])), Ok("http://cp:8090/pki/ca".to_string()));
    assert_eq!(
        startup_fetch(&env(&[&BOB1])),
        Err("A2A_AGENT_CP_URL must be set (see README/provision.md)".to_string())
    );
}

#[test]
fn the_status_tells_who_is_there() {
    let mut st = state();
    assert_eq!(
        status_handler(&st, 7).to_string(),
        r#"{"bob1_online":false,"bob2_online":false,"bob1_provisioned":true,"bob2_provisioned":false}"#
    );
    assert!(heartbeat_handler(&mut st.heartbeats, "bob1", "token-1", 7).is_ok());
    assert_eq!(
        status_handler(&st, 8).to_string(),
        r#"{"bob1_online":true,"bob2_online":false,"bob1_provisioned":true,"bob2_provisioned":false}"#
    );
}

#[test]
fn identities_tell_the_public_part_and_no_secret() {
    let text = identities_handler(&state()).to_string();
    assert_eq!(
        text,
        concat_lines(&[
            r#"{"channel_id":"bob-channel","#,
            r#""bob":{"role":"initiator (calls it, spawned by this bridge per request)","holder_pubkey":"0123456789abcdef0123456789abcdef"},"#,
            r#""alice":{"role":"responder (serves text_generation)","note":"a separate, persistent container (a2a-demo-alice) -- this bridge has no handle on it, only the real channel id both were registered against"},"#,
            r#""bob1":{"label":"bob-1 (intern, NAT'd)","channel_id":"channel-1","peer_holder_pubkey":"pubkey-1"},"#,
            r#""bob2":null}"#,
        ])
    );
    for secret in ["bob-holder", "bob-noise", "bob-grant", "alice-holder", "alice-noise", "grant-1", "token-1"] {
        assert!(!text.contains(secret));
    }
}

fn concat_lines(lines: &[&str]) -> String {
    lines.concat()
}

#[test]
fn the_bridge_introduces_itself() {
    let (bob, scenarios) = startup_lines(&state());
    assert_eq!(
        bob,
        "a2a-demo-bridge: agent-bob configured -- channel=bob-channel holder_pubkey=0123456789abcdef"
    );
    assert_eq!(
        scenarios,
        "a2a-demo-bridge: bob-1 (intern) provisioned -- bob-2 (remote) NOT yet provisioned (see GitHub #248)"
    );
}

#[test]
fn short_keys_are_shown_whole() {
    assert_eq!(start_of_key("abc"), "abc");
    assert_eq!(start_of_key(""), "");
    assert_eq!(start_of_key("\u{e9}\u{e9}\u{e9}\u{e9}\u{e9}\u{e9}\u{e9}\u{e9}\u{e9}"), "\u{e9}\u{e9}\u{e9}\u{e9}\u{e9}\u{e9}\u{e9}\u{e9}");
}
