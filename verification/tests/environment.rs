use digital_server::environment::Environment;

#[test]
fn names_of_environments() {
    assert_eq!(Environment::Local.as_str(), "local");
    assert_eq!(Environment::Production.as_str(), "production");
}

#[test]
fn parses_names_ignoring_case_and_whitespace() {
    assert_eq!(Environment::parse("local"), Ok(Environment::Local));
    assert_eq!(Environment::parse("  PRODUCTION\n"), Ok(Environment::Production));
    assert_eq!(Environment::parse("\tLoCaL "), Ok(Environment::Local));
}

#[test]
fn rejects_unknown_environment_with_its_normalized_name() {
    assert_eq!(
        Environment::parse("  Staging "),
        Err("staging is not a supported environment.".to_string())
    );
    assert_eq!(Environment::parse(""), Err(" is not a supported environment.".to_string()));
}

#[test]
fn unset_variable_means_local() {
    assert_eq!(Environment::from_variable(None), Ok(Environment::Local));
    assert_eq!(Environment::from_variable(Some("production")), Ok(Environment::Production));
    assert!(Environment::from_variable(Some("prod")).is_err());
}

#[test]
fn environment_name_round_trip() {
    for env in [Environment::Local, Environment::Production] {
        assert_eq!(Environment::parse(env.as_str()), Ok(env));
    }
}

#[test]
fn from_str_parses_like_parse() {
    let env: Environment = " production ".parse().unwrap();
    assert_eq!(env, Environment::Production);
    assert_eq!("x".parse::<Environment>(), Err("x is not a supported environment.".to_string()));
}

#[test]
fn non_ascii_names_are_lowercased_by_unicode_rules() {
    assert_eq!(
        Environment::parse(" ÄRGER "),
        Err("ärger is not a supported environment.".to_string())
    );
}
