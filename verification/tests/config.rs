//! Configuration: document parsing, key validation, and the precedence of
//! command line over file over defaults.

use shabby::cli::verbose::Verbosity;
use shabby::cli::Cli;
use shabby::config::{
    Config, ConfigError, ConfigFile, ConfigFileError, ConfigValueShape, RawConfigValues,
};
use shabby::logging::LogLevel;

fn bare_cli() -> Cli {
    Cli {
        verbose: Verbosity::new(0, 0),
        log_level: None,
        config: None,
        api_id: None,
        api_hash: None,
        phone_number: None,
        session: None,
    }
}

fn empty_file() -> ConfigFile {
    ConfigFile::default()
}

#[test]
fn parse_reads_every_known_key() {
    let text = "log_level 3\ntelegram {\n    api_id 12345\n    api_hash \"abc\"\n    phone_number \"+123456\"\n    session_filename \"/tmp/session\"\n}\n";
    let file = ConfigFile::parse(text).unwrap();
    assert_eq!(file.log_level, Some(LogLevel::Info));
    assert_eq!(file.api_id, Some(12345));
    assert_eq!(file.api_hash.as_deref(), Some("abc"));
    assert_eq!(file.phone_number.as_deref(), Some("+123456"));
    assert_eq!(file.session_filename.as_deref(), Some("/tmp/session"));
}

#[test]
fn parse_accepts_textual_log_levels() {
    let file = ConfigFile::parse("log_level \"debug\"\n").unwrap();
    assert_eq!(file.log_level, Some(LogLevel::Debug));
}

#[test]
fn parse_of_malformed_document_is_a_parse_error() {
    assert!(matches!(
        ConfigFile::parse("telegram {"),
        Err(ConfigFileError::Parse)
    ));
}

#[test]
fn present_but_malformed_keys_fail_the_whole_file() {
    assert!(matches!(
        ConfigFile::parse("log_level #true\n"),
        Err(ConfigFileError::InvalidValue)
    ));
    assert!(matches!(
        ConfigFile::parse("log_level \"nonsense\"\n"),
        Err(ConfigFileError::InvalidValue)
    ));
    assert!(matches!(
        ConfigFile::parse("telegram {\n    api_id \"not a number\"\n}\n"),
        Err(ConfigFileError::InvalidValue)
    ));
    assert!(matches!(
        ConfigFile::parse("telegram {\n    api_id 4294967296\n}\n"),
        Err(ConfigFileError::InvalidValue)
    ));
    assert!(matches!(
        ConfigFile::parse("telegram {\n    api_hash 42\n}\n"),
        Err(ConfigFileError::InvalidValue)
    ));
}

#[test]
fn absent_keys_contribute_nothing() {
    let file = ConfigFile::parse("").unwrap();
    assert_eq!(file.log_level, None);
    assert_eq!(file.api_id, None);
    assert!(file.api_hash.is_none());
    assert!(file.phone_number.is_none());
    assert!(file.session_filename.is_none());
}

#[test]
fn from_raw_validates_shapes() {
    let raw = RawConfigValues {
        log_level: ConfigValueShape::Integer(99),
        api_id: ConfigValueShape::Integer(7),
        api_hash: ConfigValueShape::Text("h".to_string()),
        phone_number: ConfigValueShape::Missing,
        session_filename: ConfigValueShape::Missing,
    };
    let file = ConfigFile::from_raw(raw).unwrap();
    assert_eq!(file.log_level, Some(LogLevel::Trace));
    assert_eq!(file.api_id, Some(7));
    assert_eq!(file.api_hash.as_deref(), Some("h"));

    let raw = RawConfigValues {
        log_level: ConfigValueShape::Missing,
        api_id: ConfigValueShape::Integer(1 << 40),
        api_hash: ConfigValueShape::Missing,
        phone_number: ConfigValueShape::Missing,
        session_filename: ConfigValueShape::Missing,
    };
    assert!(matches!(
        ConfigFile::from_raw(raw),
        Err(ConfigFileError::InvalidValue)
    ));

    let raw = RawConfigValues {
        log_level: ConfigValueShape::Invalid,
        api_id: ConfigValueShape::Missing,
        api_hash: ConfigValueShape::Missing,
        phone_number: ConfigValueShape::Missing,
        session_filename: ConfigValueShape::Missing,
    };
    assert!(matches!(
        ConfigFile::from_raw(raw),
        Err(ConfigFileError::InvalidValue)
    ));
}

fn full_file() -> ConfigFile {
    ConfigFile {
        log_level: Some(LogLevel::Error),
        api_id: Some(222),
        api_hash: Some("file-hash".to_string()),
        phone_number: Some("+2".to_string()),
        session_filename: Some("/file/session".to_string()),
    }
}

#[test]
fn cli_values_win_over_file_values() {
    let mut cli = bare_cli();
    cli.log_level = Some(LogLevel::Trace);
    cli.api_id = Some(111);
    cli.api_hash = Some("cli-hash".to_string());
    cli.phone_number = Some("+1".to_string());
    cli.session = Some("/cli/session".to_string());
    let config = Config::from_cli(&cli, Some(full_file()), None).unwrap();
    assert_eq!(config.log_level(), Some(LogLevel::Trace));
    assert_eq!(config.api_id(), 111);
    assert_eq!(config.api_hash(), "cli-hash");
    assert_eq!(config.phone_number(), "+1");
    assert_eq!(config.session_filename(), "/cli/session");
}

#[test]
fn file_values_fill_what_the_cli_leaves_open() {
    let config = Config::from_cli(&bare_cli(), Some(full_file()), None).unwrap();
    assert_eq!(config.log_level(), Some(LogLevel::Error));
    assert_eq!(config.api_id(), 222);
    assert_eq!(config.api_hash(), "file-hash");
    assert_eq!(config.phone_number(), "+2");
    assert_eq!(config.session_filename(), "/file/session");
}

#[test]
fn verbosity_counters_count_as_a_cli_log_level() {
    let mut cli = bare_cli();
    cli.verbose = Verbosity::new(0, 2);
    let config = Config::from_cli(&cli, Some(full_file()), None).unwrap();
    assert_eq!(config.log_level(), Some(LogLevel::Error));
    let mut cli = bare_cli();
    cli.verbose = Verbosity::new(1, 0);
    let config = Config::from_cli(&cli, Some(full_file()), None).unwrap();
    assert_eq!(config.log_level(), Some(LogLevel::Debug));
}

#[test]
fn missing_required_fields_fail_naming_the_field() {
    let mut file = full_file();
    file.api_id = None;
    let err = Config::from_cli(&bare_cli(), Some(file), None).unwrap_err();
    assert!(matches!(err, ConfigError::MissingApiId));
    assert_eq!(err.message(), "API ID not provided");

    let mut file = full_file();
    file.api_hash = None;
    let err = Config::from_cli(&bare_cli(), Some(file), None).unwrap_err();
    assert!(matches!(err, ConfigError::MissingApiHash));
    assert_eq!(err.message(), "API hash not provided");

    let mut file = full_file();
    file.phone_number = None;
    let err = Config::from_cli(&bare_cli(), Some(file), None).unwrap_err();
    assert!(matches!(err, ConfigError::MissingPhoneNumber));
    assert_eq!(err.message(), "Phone number not provided");
}

#[test]
fn empty_credentials_count_as_missing() {
    let mut cli = bare_cli();
    cli.api_hash = Some("".to_string());
    let err = Config::from_cli(&cli, Some(full_file()), None).unwrap_err();
    assert!(matches!(err, ConfigError::MissingApiHash));

    let mut cli = bare_cli();
    cli.phone_number = Some("".to_string());
    let err = Config::from_cli(&cli, Some(full_file()), None).unwrap_err();
    assert!(matches!(err, ConfigError::MissingPhoneNumber));

    let mut file = full_file();
    file.api_hash = Some("".to_string());
    let err = Config::from_cli(&bare_cli(), Some(file), None).unwrap_err();
    assert!(matches!(err, ConfigError::MissingApiHash));

    let mut file = full_file();
    file.phone_number = Some(String::new());
    let err = Config::from_cli(&bare_cli(), Some(file), None).unwrap_err();
    assert!(matches!(err, ConfigError::MissingPhoneNumber));
}

#[test]
fn log_level_may_be_set_nowhere() {
    let mut file = full_file();
    file.log_level = None;
    let config = Config::from_cli(&bare_cli(), Some(file), None).unwrap();
    assert_eq!(config.log_level(), None);
}

#[test]
fn default_session_path_comes_from_the_state_directory() {
    let mut file = full_file();
    file.session_filename = None;
    let config =
        Config::from_cli(&bare_cli(), Some(file), Some("/var/state".to_string())).unwrap();
    assert_eq!(config.session_filename(), "/var/state/session");
}

#[test]
fn no_session_path_and_no_state_directory_is_fatal() {
    let mut file = full_file();
    file.session_filename = None;
    let err = Config::from_cli(&bare_cli(), Some(file), None).unwrap_err();
    assert!(matches!(err, ConfigError::StateDirUnavailable));
    assert!(!err.message().is_empty());
}

#[test]
fn resolution_without_any_file_requires_cli_fields() {
    let mut cli = bare_cli();
    cli.api_id = Some(5);
    cli.api_hash = Some("h".to_string());
    cli.phone_number = Some("+5".to_string());
    cli.session = Some("/s".to_string());
    let config = Config::from_cli(&cli, None, None).unwrap();
    assert_eq!(config.api_id(), 5);
    assert_eq!(config.log_level(), None);

    let err = Config::from_cli(&bare_cli(), None, Some("/st".to_string())).unwrap_err();
    assert!(matches!(err, ConfigError::MissingApiId));
}

#[test]
fn empty_config_file_contributes_nothing() {
    let err = Config::from_cli(&bare_cli(), Some(empty_file()), Some("/st".to_string()))
        .unwrap_err();
    assert!(matches!(err, ConfigError::MissingApiId));
}
