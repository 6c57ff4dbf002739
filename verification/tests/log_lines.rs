use a2a_demo_bridge::log_line::{is_log_line, relay_transport_from_log_line};

#[test]
fn is_log_line_matches_ct_agent_status_prefix_only() {
    assert!(is_log_line("ct-agent channel: plane-brokered Initiate (relay 1.2.3.4:4436)"));
    assert!(!is_log_line("agent-alice (pid 123, 12:00:00): you said \"hi\""));
}

#[test]
fn relay_transport_from_log_line_distinguishes_quic_from_the_443_front_door() {
    assert_eq!(
        relay_transport_from_log_line("ct-agent channel: relay leg via QUIC (172.18.0.6:4436) (#106)"),
        Some("quic")
    );
    assert_eq!(
        relay_transport_from_log_line("ct-agent channel: relay leg via the :443 front door (edge:443) (#106)"),
        Some("tcp_443")
    );
    assert_eq!(relay_transport_from_log_line("ct-agent channel: plane-brokered Initiate (relay 1.2.3.4:4436)"), None);
    assert_eq!(relay_transport_from_log_line("agent-alice (pid 123, 12:00:00): you said \"hi\""), None);
}

#[test]
fn status_lines_have_the_whole_prefix_at_the_start() {
    assert!(is_log_line("ct-agent channel:"));
    assert!(!is_log_line("ct-agent channel"));
    assert!(!is_log_line(" ct-agent channel: indented"));
    assert!(!is_log_line(""));
}

#[test]
fn only_lines_that_start_with_the_relay_leg_name_a_transport() {
    assert_eq!(relay_transport_from_log_line("ct-agent channel: gave up on the relay leg via QUIC"), None);
    assert_eq!(relay_transport_from_log_line("ct-agent channel:  relay leg via QUIC"), None);
    assert_eq!(relay_transport_from_log_line("ct-agent channel: relay leg via"), None);
}

#[test]
fn the_front_door_goes_before_quic() {
    assert_eq!(
        relay_transport_from_log_line("ct-agent channel: relay leg via front door, QUIC failed"),
        Some("tcp_443")
    );
    assert_eq!(relay_transport_from_log_line("ct-agent channel: relay leg via carrier pigeon"), None);
    assert_eq!(relay_transport_from_log_line("relay leg via QUIC"), None);
}
