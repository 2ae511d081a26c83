use zero2prod_axum::settings::{DatabaseSettings, Environment};

#[test]
fn environment_names_parse_case_insensitively() {
    assert!(matches!(
        Environment::try_from("local".to_string()),
        Ok(Environment::Local)
    ));
    assert!(matches!(
        Environment::try_from("LOCAL".to_string()),
        Ok(Environment::Local)
    ));
    assert!(matches!(
        Environment::try_from("Production".to_string()),
        Ok(Environment::Production)
    ));
}

#[test]
fn unknown_environment_names_are_refused() {
    assert!(Environment::try_from("staging".to_string()).is_err());
    assert!(Environment::try_from("".to_string()).is_err());
}

#[test]
fn environment_round_trips_through_its_name() {
    for env in [Environment::Local, Environment::Production] {
        let name = env.as_str().to_string();
        assert!(Environment::try_from(name.clone()).is_ok());
        assert_eq!(
            Environment::try_from(name).unwrap().as_str(),
            env.as_str()
        );
    }
}

#[test]
fn connection_string_names_the_database() {
    let settings = DatabaseSettings {
        name: "newsletter.db".to_string(),
    };
    assert_eq!(settings.connection_string(), "sqlite://newsletter.db");
}
