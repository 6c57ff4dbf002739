use a2a_demo_bridge::environment::{
    ct_agent_bin, listen_addr, optional_env, required_env, Environment,
};

fn env(vars: &[(&str, &str)]) -> Environment {
    Environment::new(vars.iter().map(|(n, v)| (n.to_string(), v.to_string())).collect())
}

#[test]
fn missing_env_errors_with_the_specific_var_name_instead_of_panicking() {
    // Isolated from the real environment: this test must not accidentally pass
    // because a developer's shell happens to export A2A_BOB_HOLDER_KEY.
    let err = required_env(&env(&[]), "A2A_DEFINITELY_NOT_SET_IN_ANY_ENV").unwrap_err();
    assert!(err.contains("A2A_DEFINITELY_NOT_SET_IN_ANY_ENV"), "error should name the missing var: {err}");
}

#[test]
fn the_error_for_a_missing_variable_points_to_the_docs() {
    let err = required_env(&env(&[("B", "x")]), "A").unwrap_err();
    assert_eq!(err, "A must be set (see README/provision.md)");
}

#[test]
fn required_variables_may_be_empty_but_optional_ones_may_not() {
    let env = env(&[("A", ""), ("B", " ")]);
    assert_eq!(required_env(&env, "A"), Ok(String::new()));
    assert_eq!(optional_env(&env, "A"), None);
    assert_eq!(optional_env(&env, "B"), Some(" ".to_string()));
    assert_eq!(optional_env(&env, "C"), None);
}

#[test]
fn the_first_of_two_variables_of_one_name_counts() {
    let env = env(&[("A", "1"), ("A", "2"), ("AA", "3")]);
    assert_eq!(required_env(&env, "A"), Ok("1".to_string()));
    assert_eq!(required_env(&env, "AA"), Ok("3".to_string()));
}

#[test]
fn the_agent_and_the_listen_address_have_defaults() {
    assert_eq!(ct_agent_bin(&env(&[])), "ct-agent");
    assert_eq!(ct_agent_bin(&env(&[("CT_AGENT_BIN", "/opt/ct-agent")])), "/opt/ct-agent");
    assert_eq!(ct_agent_bin(&env(&[("CT_AGENT_BIN", "")])), "");
    assert_eq!(listen_addr(&env(&[])), "0.0.0.0:8790");
    assert_eq!(listen_addr(&env(&[("A2A_BRIDGE_LISTEN", "127.0.0.1:1")])), "127.0.0.1:1");
}
