use limiting_factor::config::{
    Config, ConfigurationError, DefaultConfig, EnvironmentConfigurable, EnvironmentSnapshot,
    MinimalConfig,
};

fn snapshot(
    database_url: Option<&str>,
    api_entry_point: Option<&str>,
    database_pool_size: Option<&str>,
    database_disabled: bool,
) -> EnvironmentSnapshot {
    EnvironmentSnapshot {
        database_url: database_url.map(str::to_string),
        api_entry_point: api_entry_point.map(str::to_string),
        database_pool_size: database_pool_size.map(str::to_string),
        database_disabled,
    }
}

#[test]
fn test_default_config_parse_environment() {
    let env = snapshot(Some("postgres://localhost/app"), None, Some("8"), false);
    let config = DefaultConfig::parse_environment(&env).unwrap();
    assert_eq!("postgres://localhost/app", config.get_database_url());
    assert_eq!("/", config.get_entry_point());
    assert_eq!(8, config.get_database_pool_size());
    assert!(config.with_database());
}

#[test]
fn test_default_config_missing_database_url() {
    let env = snapshot(None, None, None, false);
    let outcome = DefaultConfig::parse_environment(&env);
    assert_eq!(Some(ConfigurationError::MissingDatabaseUrl), outcome.err());
}

#[test]
fn test_default_config_database_disabled() {
    let env = snapshot(None, Some("/api"), None, true);
    let config = DefaultConfig::parse_environment(&env).unwrap();
    assert_eq!("", config.get_database_url());
    assert_eq!("/api", config.get_entry_point());
    assert!(!config.with_database());
}

#[test]
fn test_default_config_pool_size_not_a_number() {
    let env = snapshot(Some("postgres://localhost/app"), None, Some("many"), false);
    let config = DefaultConfig::parse_environment(&env).unwrap();
    assert_eq!(4, config.get_database_pool_size());
}

#[test]
fn test_default_config_pool_size_absent() {
    let env = snapshot(Some("postgres://localhost/app"), None, None, false);
    let config = DefaultConfig::parse_environment(&env).unwrap();
    assert_eq!(4, config.get_database_pool_size());
}

#[test]
fn test_minimal_config_parse_environment() {
    let env = snapshot(None, Some("/api"), None, false);
    let config = MinimalConfig::parse_environment(&env).unwrap();
    assert_eq!("/api", config.get_entry_point());
    assert_eq!("", config.get_database_url());
    assert_eq!(0, config.get_database_pool_size());
    assert!(!config.with_database());
}

#[test]
fn test_minimal_config_entry_point_default() {
    let env = snapshot(None, None, None, false);
    let config = MinimalConfig::parse_environment(&env).unwrap();
    assert_eq!("/", config.get_entry_point());
}
