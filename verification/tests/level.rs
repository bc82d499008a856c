//! The severity scale: numeric and textual parsing, rendering, offsets, and
//! the dependency down-mapping.

use shabby::logging::level::LevelParseError;
use shabby::logging::{map_other_log_level, LogLevel};

#[test]
fn level_name_round_trip_all_six() {
    let levels = [
        LogLevel::Off,
        LogLevel::Error,
        LogLevel::Warn,
        LogLevel::Info,
        LogLevel::Debug,
        LogLevel::Trace,
    ];
    for level in levels {
        let name = level.as_str();
        assert_eq!(LogLevel::parse_str(name).unwrap(), level);
    }
}

#[test]
fn level_parse_is_case_insensitive() {
    assert_eq!(LogLevel::parse_str("e").unwrap(), LogLevel::Error);
    assert_eq!(LogLevel::parse_str("ERR").unwrap(), LogLevel::Error);
    assert_eq!(LogLevel::parse_str("Error").unwrap(), LogLevel::Error);
    assert_eq!(LogLevel::parse_str("W").unwrap(), LogLevel::Warn);
    assert_eq!(LogLevel::parse_str("warning").unwrap(), LogLevel::Warn);
    assert_eq!(LogLevel::parse_str("Information").unwrap(), LogLevel::Info);
    assert_eq!(LogLevel::parse_str("dbg").unwrap(), LogLevel::Debug);
    assert_eq!(LogLevel::parse_str("VERBOSE").unwrap(), LogLevel::Trace);
    assert_eq!(LogLevel::parse_str("t").unwrap(), LogLevel::Trace);
    assert_eq!(LogLevel::parse_str("None").unwrap(), LogLevel::Off);
    assert_eq!(LogLevel::parse_str("disabled").unwrap(), LogLevel::Off);
}

#[test]
fn level_parse_numeric_clamps() {
    assert_eq!(LogLevel::parse_str("0").unwrap(), LogLevel::Off);
    assert_eq!(LogLevel::parse_str("1").unwrap(), LogLevel::Error);
    assert_eq!(LogLevel::parse_str("2").unwrap(), LogLevel::Warn);
    assert_eq!(LogLevel::parse_str("3").unwrap(), LogLevel::Info);
    assert_eq!(LogLevel::parse_str("+4").unwrap(), LogLevel::Debug);
    assert_eq!(LogLevel::parse_str("5").unwrap(), LogLevel::Trace);
    assert_eq!(LogLevel::parse_str("7").unwrap(), LogLevel::Trace);
    assert_eq!(LogLevel::parse_str("-3").unwrap(), LogLevel::Off);
    assert_eq!(
        LogLevel::parse_str("170141183460469231731687303715884105727").unwrap(),
        LogLevel::Trace
    );
}

#[test]
fn level_parse_numeric_overflow_is_an_error() {
    assert!(LogLevel::parse_str("170141183460469231731687303715884105728").is_err());
    assert!(LogLevel::parse_str("99999999999999999999999999999999999999999999").is_err());
    assert!(LogLevel::parse_str("-170141183460469231731687303715884105729").is_err());
}

#[test]
fn level_parse_empty_gives_default() {
    assert_eq!(LogLevel::parse_str("").unwrap(), LogLevel::default());
    assert_eq!(LogLevel::default(), LogLevel::Info);
}

#[test]
fn level_parse_rejects_garbage_naming_it() {
    let err: LevelParseError = LogLevel::parse_str("bogus").unwrap_err();
    assert_eq!(err.input, "bogus");
    assert_eq!(err.message(), "Invalid log level: bogus");
    assert!(LogLevel::parse_str("+").is_err());
    assert!(LogLevel::parse_str("-").is_err());
    assert!(LogLevel::parse_str("1.5").is_err());
}

#[test]
fn with_offset_saturates_at_both_ends() {
    assert_eq!(LogLevel::Info.with_offset(1), LogLevel::Debug);
    assert_eq!(LogLevel::Info.with_offset(-1), LogLevel::Warn);
    assert_eq!(LogLevel::Info.with_offset(255), LogLevel::Trace);
    assert_eq!(LogLevel::Info.with_offset(-255), LogLevel::Off);
    assert_eq!(LogLevel::Off.with_offset(-1), LogLevel::Off);
    assert_eq!(LogLevel::Trace.with_offset(1), LogLevel::Trace);
    assert_eq!(LogLevel::Off.with_offset(0), LogLevel::Off);
}

#[test]
fn dependency_levels_never_exceed_the_primary() {
    assert_eq!(map_other_log_level(LogLevel::Trace), LogLevel::Warn);
    assert_eq!(map_other_log_level(LogLevel::Debug), LogLevel::Warn);
    assert_eq!(map_other_log_level(LogLevel::Info), LogLevel::Warn);
    assert_eq!(map_other_log_level(LogLevel::Warn), LogLevel::Warn);
    assert_eq!(map_other_log_level(LogLevel::Error), LogLevel::Error);
    assert_eq!(map_other_log_level(LogLevel::Off), LogLevel::Off);
}

#[test]
fn level_from_int_clamps() {
    assert_eq!(LogLevel::from_int(-100), LogLevel::Off);
    assert_eq!(LogLevel::from_int(0), LogLevel::Off);
    assert_eq!(LogLevel::from_int(4), LogLevel::Debug);
    assert_eq!(LogLevel::from_int(100), LogLevel::Trace);
}
