use ce_integration::config::{Config, EnvVars, RequiredVar};

fn full() -> EnvVars {
    EnvVars {
        a_base: Some("http://127.0.0.1:18901".to_string()),
        a_token: Some("ta".to_string()),
        b_base: Some("http://127.0.0.1:18902".to_string()),
        b_token: Some("tb".to_string()),
        peer_timeout_secs: None,
    }
}

fn timeout_of(setting: &str) -> u64 {
    let mut vars = full();
    vars.peer_timeout_secs = Some(setting.to_string());
    match Config::from_env(vars) {
        Ok(c) => c.peer_timeout_secs,
        Err(_) => panic!("all variables are set"),
    }
}

fn missing(vars: EnvVars) -> RequiredVar {
    match Config::from_env(vars) {
        Ok(_) => panic!("a variable is missing"),
        Err(v) => v,
    }
}

#[test]
fn full_environment_is_taken_over() {
    match Config::from_env(full()) {
        Ok(c) => {
            assert_eq!(c.a_base, "http://127.0.0.1:18901");
            assert_eq!(c.a_token, "ta");
            assert_eq!(c.b_base, "http://127.0.0.1:18902");
            assert_eq!(c.b_token, "tb");
            assert_eq!(c.peer_timeout_secs, 45);
        }
        Err(_) => panic!("all variables are set"),
    }
}

#[test]
fn timeout_is_read_or_defaults() {
    assert_eq!(timeout_of("90"), 90);
    assert_eq!(timeout_of("0"), 0);
    assert_eq!(timeout_of("+3"), 3);
    assert_eq!(timeout_of("soon"), 45);
    assert_eq!(timeout_of(""), 45);
    assert_eq!(timeout_of("-1"), 45);
    assert_eq!(timeout_of("18446744073709551616"), 45);
}

#[test]
fn first_missing_variable_is_named() {
    let mut vars = full();
    vars.b_token = None;
    assert_eq!(missing(vars), RequiredVar::BToken);
    let mut vars = full();
    vars.b_token = None;
    vars.b_base = None;
    assert_eq!(missing(vars), RequiredVar::BBase);
    let mut vars = full();
    vars.b_base = None;
    vars.a_token = None;
    assert_eq!(missing(vars), RequiredVar::AToken);
    let mut vars = full();
    vars.a_token = None;
    vars.a_base = None;
    assert_eq!(missing(vars), RequiredVar::ABase);
}

#[test]
fn missing_variable_message() {
    assert_eq!(RequiredVar::ABase.missing_message(), "missing required env var CE_IT_A_BASE");
    assert_eq!(RequiredVar::AToken.name(), "CE_IT_A_TOKEN");
    assert_eq!(RequiredVar::BBase.name(), "CE_IT_B_BASE");
    assert_eq!(RequiredVar::BToken.missing_message(), "missing required env var CE_IT_B_TOKEN");
}
