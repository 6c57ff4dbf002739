use a2a_demo_bridge::environment::Environment;
use a2a_demo_bridge::event::Event;
use a2a_demo_bridge::heartbeat::{
    heartbeat_handler, HeartbeatState, Watchdog, HEARTBEAT_STALE_AFTER, WATCHDOG_PERIOD_SECS,
};
use a2a_demo_bridge::message::Refusal;

const SECOND: u128 = 1_000_000_000;

fn peers(vars: &[(&str, &str)]) -> HeartbeatState {
    HeartbeatState::from_env(&Environment::new(
        vars.iter().map(|(n, v)| (n.to_string(), v.to_string())).collect(),
    ))
}

fn both() -> HeartbeatState {
    peers(&[("A2A_HEARTBEAT_TOKEN_BOB1", "one"), ("A2A_HEARTBEAT_TOKEN_BOB2", "two")])
}

fn texts(events: Vec<Event>) -> Vec<String> {
    events.iter().map(|e| e.text()).collect()
}

#[test]
fn the_first_heartbeat_brings_a_peer_online() {
    let mut hb = both();
    assert!(!hb.online("bob1", 0));
    let event = heartbeat_handler(&mut hb, "bob1", " one\n", 10 * SECOND).unwrap().unwrap();
    assert_eq!(event.text(), r#"{"type":"presence","peer":"bob1","online":true}"#);
    assert!(hb.online("bob1", 10 * SECOND));
    assert!(!hb.online("bob2", 10 * SECOND));
    // The next one finds it online.
    assert!(heartbeat_handler(&mut hb, "bob1", "one", 25 * SECOND).unwrap().is_none());
    // And one after a long silence does not.
    assert!(heartbeat_handler(&mut hb, "bob1", "one", 60 * SECOND).unwrap().is_some());
}

#[test]
fn a_heartbeat_lasts_for_less_than_thirty_five_seconds() {
    assert_eq!(HEARTBEAT_STALE_AFTER, 35 * SECOND);
    assert_eq!(WATCHDOG_PERIOD_SECS, 5);
    let mut hb = both();
    let _ = heartbeat_handler(&mut hb, "bob2", "two", 100);
    assert!(hb.online("bob2", 100 + 35 * SECOND - 1));
    assert!(!hb.online("bob2", 100 + 35 * SECOND));
    assert!(hb.online("bob2", 0));
}

#[test]
fn heartbeats_need_a_known_peer_and_its_token() {
    let mut hb = peers(&[("A2A_HEARTBEAT_TOKEN_BOB1", "one"), ("A2A_HEARTBEAT_TOKEN_BOB2", "")]);
    assert!(matches!(heartbeat_handler(&mut hb, "bob2", "", 1), Err(Refusal::UnknownPeer)));
    assert!(matches!(heartbeat_handler(&mut hb, "alice", "one", 1), Err(Refusal::UnknownPeer)));
    assert!(matches!(heartbeat_handler(&mut hb, "bob1", "two", 1), Err(Refusal::Unauthorized)));
    assert!(matches!(heartbeat_handler(&mut hb, "bob1", "", 1), Err(Refusal::Unauthorized)));
    assert!(matches!(heartbeat_handler(&mut hb, "bob1", "one one", 1), Err(Refusal::Unauthorized)));
    assert!(!hb.online("bob1", 1));
    assert_eq!(hb.peer("bob1").unwrap().last_seen, None);
    assert!(hb.peer("bob2").is_none());
}

#[test]
fn a_token_with_white_space_around_it_cannot_be_matched() {
    let mut hb = peers(&[("A2A_HEARTBEAT_TOKEN_BOB1", " one ")]);
    assert!(matches!(heartbeat_handler(&mut hb, "bob1", " one ", 1), Err(Refusal::Unauthorized)));
}

#[test]
fn the_watchdog_tells_departures_and_leaves_arrivals_to_the_heartbeats() {
    let mut hb = both();
    let mut watchdog = Watchdog::new();
    assert!(watchdog.tick(&hb, 0).is_empty());
    let _ = heartbeat_handler(&mut hb, "bob1", "one", 1 * SECOND);
    let _ = heartbeat_handler(&mut hb, "bob2", "two", 2 * SECOND);
    assert!(watchdog.tick(&hb, 5 * SECOND).is_empty());
    assert!(watchdog.tick(&hb, 35 * SECOND).is_empty());
    assert_eq!(
        texts(watchdog.tick(&hb, 36 * SECOND)),
        vec![r#"{"type":"presence","peer":"bob1","online":false}"#]
    );
    assert_eq!(
        texts(watchdog.tick(&hb, 40 * SECOND)),
        vec![r#"{"type":"presence","peer":"bob2","online":false}"#]
    );
    assert!(watchdog.tick(&hb, 45 * SECOND).is_empty());
}

#[test]
fn the_watchdog_tells_bob1_before_bob2() {
    let mut hb = both();
    let mut watchdog = Watchdog::new();
    let _ = heartbeat_handler(&mut hb, "bob2", "two", 0);
    let _ = heartbeat_handler(&mut hb, "bob1", "one", 0);
    assert!(watchdog.tick(&hb, 0).is_empty());
    assert_eq!(
        texts(watchdog.tick(&hb, 50 * SECOND)),
        vec![
            r#"{"type":"presence","peer":"bob1","online":false}"#,
            r#"{"type":"presence","peer":"bob2","online":false}"#
        ]
    );
}

#[test]
fn a_dashboard_that_follows_the_stream_ends_up_right() {
    let mut hb = both();
    let mut watchdog = Watchdog::new();
    let mut shown = false;
    // Heartbeats at these seconds, a look every five.
    let beats = [3, 18, 33, 90, 105, 111, 200];
    for second in 0..260u128 {
        if beats.contains(&second) {
            if let Some(event) = heartbeat_handler(&mut hb, "bob1", "one", second * SECOND).unwrap() {
                shown = event.text().contains("true");
            }
        }
        if second % 5 == 0 {
            for event in watchdog.tick(&hb, second * SECOND) {
                shown = event.text().contains("true");
            }
            assert_eq!(shown, hb.online("bob1", second * SECOND), "at {second}");
        }
        assert!(shown || !hb.online("bob1", second * SECOND), "at {second}");
    }
}

#[test]
fn a_dashboard_that_was_opened_late_ends_up_right() {
    let beats = [3, 18, 33, 90, 105, 111, 200];
    for opened in 0..255u128 {
        let mut hb = both();
        let mut watchdog = Watchdog::new();
        let mut shown = None;
        for second in 0..260u128 {
            if second == opened {
                shown = Some(hb.online("bob1", second * SECOND));
            }
            let mut events = Vec::new();
            if beats.contains(&second) {
                events.extend(heartbeat_handler(&mut hb, "bob1", "one", second * SECOND).unwrap());
            }
            if second % 5 == 0 {
                events.extend(watchdog.tick(&hb, second * SECOND));
            }
            for event in events {
                shown = shown.map(|_| event.text().contains("true"));
            }
            if second % 5 == 0 && second >= opened {
                assert_eq!(shown, Some(hb.online("bob1", second * SECOND)), "{opened}, {second}");
            }
        }
    }
}
