use ising::config::{Config, Environment, LogLevel};

#[test]
fn test_default() {
    let svc_endpoint = "localhost";
    let svc_port = "8080";
    let log_level = LogLevel::Info;
    let environment = Environment::Release;

    let result = Config::default();

    assert_eq!(result.svc_endpoint, svc_endpoint);
    assert_eq!(result.svc_port, svc_port);
    assert_eq!(result.log_level, log_level);
    assert_eq!(result.environment, environment);
}

#[test]
fn environment_reads_every_spelling_of_development() {
    assert_eq!(Config::parse_environment(Some("development")), Environment::Development);
    assert_eq!(Config::parse_environment(Some("Development")), Environment::Development);
    assert_eq!(Config::parse_environment(Some("DEVELOPMENT")), Environment::Development);
}

#[test]
fn environment_reads_every_spelling_of_release() {
    assert_eq!(Config::parse_environment(Some("release")), Environment::Release);
    assert_eq!(Config::parse_environment(Some("Release")), Environment::Release);
    assert_eq!(Config::parse_environment(Some("RELEASE")), Environment::Release);
}

#[test]
fn environment_falls_back_to_release() {
    assert_eq!(Config::parse_environment(None), Environment::Release);
    assert_eq!(Config::parse_environment(Some("")), Environment::Release);
    assert_eq!(Config::parse_environment(Some("staging")), Environment::Release);
    assert_eq!(Config::parse_environment(Some("dEVELOPMENT")), Environment::Release);
    assert_eq!(Config::parse_environment(Some("development ")), Environment::Release);
}

#[test]
fn log_level_reads_the_five_names() {
    assert_eq!(Config::parse_log_level(Some("ERROR")), LogLevel::Error);
    assert_eq!(Config::parse_log_level(Some("WARN")), LogLevel::Warn);
    assert_eq!(Config::parse_log_level(Some("INFO")), LogLevel::Info);
    assert_eq!(Config::parse_log_level(Some("DEBUG")), LogLevel::Debug);
    assert_eq!(Config::parse_log_level(Some("TRACE")), LogLevel::Trace);
}

#[test]
fn log_level_falls_back_to_info() {
    assert_eq!(Config::parse_log_level(None), LogLevel::Info);
    assert_eq!(Config::parse_log_level(Some("")), LogLevel::Info);
    assert_eq!(Config::parse_log_level(Some("debug")), LogLevel::Info);
    assert_eq!(Config::parse_log_level(Some("VERBOSE")), LogLevel::Info);
}

#[test]
fn from_envar_takes_the_settings_as_given() {
    let config = Config::from_envar(
        "0.0.0.0".to_string(),
        "3000".to_string(),
        Some("DEBUG"),
        Some("development"),
    );

    assert_eq!(config.svc_endpoint, "0.0.0.0");
    assert_eq!(config.svc_port, "3000");
    assert_eq!(config.log_level, LogLevel::Debug);
    assert_eq!(config.environment, Environment::Development);
}

#[test]
fn from_envar_without_the_optional_settings_matches_the_default() {
    let config = Config::from_envar("localhost".to_string(), "8080".to_string(), None, None);

    assert_eq!(config, Config::default());
}

#[test]
fn environment_prints_its_name() {
    assert_eq!(Environment::Development.to_string(), "Development");
    assert_eq!(Environment::Release.to_string(), "Release");
}

#[test]
fn config_clone_is_equal() {
    let config = Config::from_envar("127.0.0.1".to_string(), "443".to_string(), Some("WARN"), None);

    assert_eq!(config.clone(), config);
}
