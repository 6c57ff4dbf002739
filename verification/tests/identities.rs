use a2a_demo_bridge::environment::Environment;
use a2a_demo_bridge::hex::hex_encode;
use a2a_demo_bridge::identity::{
    ca_url, fetch_front_door_cert_hex, BobIdentity, CaFetch, PeerScenario, PlaneConfig,
};

const REQUIRED: [(&str, &str); 9] = [
    ("A2A_AGENT_CP_URL", "http://cp:8090/"),
    ("A2A_BOB_HOLDER_KEY", "holder"),
    ("A2A_BOB_NOISE_KEY", "noise"),
    ("A2A_BOB_GRANT", "grant"),
    ("A2A_BOB_HOLDER_PUBKEY", "pubkey"),
    ("A2A_CHANNEL_ID", "channel"),
    ("A2A_CHANNEL_BROKER", "edge:4435"),
    ("A2A_CHANNEL_RELAY", "edge:4436"),
    ("A2A_CHANNEL_FRONT_DOOR", "edge:443"),
];

fn env_without(missing: &[&str]) -> Environment {
    Environment::new(
        REQUIRED
            .iter()
            .filter(|(n, _)| !missing.contains(n))
            .map(|(n, v)| (n.to_string(), v.to_string()))
            .collect(),
    )
}

fn der() -> CaFetch {
    CaFetch::Body(vec![0x30, 0x0a])
}

#[test]
fn bytes_are_two_lower_case_digits_each() {
    assert_eq!(hex_encode(&[]), "");
    assert_eq!(hex_encode(&[0x00, 0x09, 0x0a, 0x10, 0x7f, 0xbe, 0xef, 0xff]), "00090a107fbeefff");
    let all: Vec<u8> = (0..=255).collect();
    let expected: String = all.iter().map(|b| format!("{b:02x}")).collect();
    assert_eq!(hex_encode(&all), expected);
}

#[test]
fn the_ca_is_asked_for_without_doubled_slashes() {
    assert_eq!(ca_url("http://cp:8090"), "http://cp:8090/pki/ca");
    assert_eq!(ca_url("http://cp:8090///"), "http://cp:8090/pki/ca");
    assert_eq!(ca_url("http://cp:8090/base/"), "http://cp:8090/base/pki/ca");
    assert_eq!(ca_url(""), "/pki/ca");
}

#[test]
fn the_trust_anchor_is_the_body_in_hexadecimal() {
    assert_eq!(fetch_front_door_cert_hex("http://cp/", &der()), Ok("300a".to_string()));
}

#[test]
fn there_is_no_start_without_a_trust_anchor() {
    assert_eq!(
        fetch_front_door_cert_hex("http://cp/", &CaFetch::Body(vec![])),
        Err("empty /pki/ca response from http://cp/, refusing to start without a front-door trust anchor".to_string())
    );
    assert_eq!(
        fetch_front_door_cert_hex("http://cp/", &CaFetch::Unreachable("refused".to_string())),
        Err("fetching http://cp/pki/ca: refused".to_string())
    );
    assert_eq!(
        fetch_front_door_cert_hex("http://cp/", &CaFetch::Unreadable("reset".to_string())),
        Err("reading http://cp/pki/ca response: reset".to_string())
    );
}

#[test]
fn bob_is_read_from_the_environment() {
    let bob = BobIdentity::from_env(&env_without(&[]), &der()).ok().unwrap();
    assert_eq!(bob.holder_key_hex, "holder");
    assert_eq!(bob.noise_key_hex, "noise");
    assert_eq!(bob.grant_hex, "grant");
    assert_eq!(bob.holder_pubkey_hex, "pubkey");
    assert_eq!(bob.channel_id_hex, "channel");
    assert_eq!(bob.broker_addr, "edge:4435");
    assert_eq!(bob.relay_addr, "edge:4436");
    assert_eq!(bob.front_door_addr, "edge:443");
    assert_eq!(bob.front_door_cert_hex, "300a");
}

#[test]
fn every_variable_of_bob_is_required() {
    for (name, _) in REQUIRED {
        let err = BobIdentity::from_env(&env_without(&[name]), &der()).err().unwrap();
        assert_eq!(err, format!("{name} must be set (see README/provision.md)"));
    }
}

#[test]
fn what_is_missing_first_is_the_error() {
    let unreachable = CaFetch::Unreachable("refused".to_string());
    let err = BobIdentity::from_env(&env_without(&["A2A_AGENT_CP_URL", "A2A_BOB_GRANT"]), &unreachable).err();
    assert_eq!(err.unwrap(), "A2A_AGENT_CP_URL must be set (see README/provision.md)");
    let err = BobIdentity::from_env(&env_without(&["A2A_BOB_GRANT"]), &unreachable).err();
    assert_eq!(err.unwrap(), "fetching http://cp:8090/pki/ca: refused");
    let err = BobIdentity::from_env(&env_without(&["A2A_CHANNEL_ID", "A2A_BOB_GRANT"]), &der()).err();
    assert_eq!(err.unwrap(), "A2A_BOB_GRANT must be set (see README/provision.md)");
}

#[test]
fn the_edge_asks_for_its_trust_anchor_last() {
    let unreachable = CaFetch::Unreachable("refused".to_string());
    let err = PlaneConfig::from_env(&env_without(&["A2A_CHANNEL_RELAY"]), "http://cp", &unreachable).err();
    assert_eq!(err.unwrap(), "A2A_CHANNEL_RELAY must be set (see README/provision.md)");
    let err = PlaneConfig::from_env(&env_without(&[]), "http://cp", &unreachable).err();
    assert_eq!(err.unwrap(), "fetching http://cp/pki/ca: refused");
    let plane = PlaneConfig::from_env(&env_without(&[]), "http://cp", &der()).ok().unwrap();
    assert_eq!(plane.broker_addr, "edge:4435");
    assert_eq!(plane.relay_addr, "edge:4436");
    assert_eq!(plane.front_door_addr, "edge:443");
    assert_eq!(plane.front_door_cert_hex, "300a");
}

#[test]
fn a_scenario_is_absent_until_it_is_complete() {
    let all = [
        ("A2A_SCENARIOS_ALICE_HOLDER_KEY", "h"),
        ("A2A_SCENARIOS_ALICE_NOISE_KEY", "n"),
        ("GRANT", "g"),
        ("CHANNEL", "c"),
        ("PUBKEY", "p"),
    ];
    let read = |vars: &[(&str, &str)]| {
        let vars = vars.iter().map(|(n, v)| (n.to_string(), v.to_string())).collect();
        PeerScenario::from_env(&Environment::new(vars), "label", "CHANNEL", "GRANT", "PUBKEY")
    };
    let peer = read(&all).unwrap();
    assert_eq!(peer.label, "label");
    assert_eq!(peer.alice_holder_key_hex, "h");
    assert_eq!(peer.alice_noise_key_hex, "n");
    assert_eq!(peer.grant_hex, "g");
    assert_eq!(peer.channel_id_hex, "c");
    assert_eq!(peer.peer_holder_pubkey_hex, "p");
    for k in 0..all.len() {
        let mut unset = all.to_vec();
        unset.remove(k);
        assert!(read(&unset).is_none());
        let mut empty = all.to_vec();
        empty[k].1 = "";
        assert!(read(&empty).is_none());
    }
}
