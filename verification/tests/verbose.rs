//! Verbosity counters: how repeated raises and lowers derive a level, with
//! saturation at both ends of the scale.

use shabby::cli::verbose::{DebugLevel, InfoLevel, Verbosity};
use shabby::cli::Cli;
use shabby::logging::LogLevel;

#[test]
fn verbosity_info_0_0_info() {
    assert_eq!(Verbosity::<InfoLevel>::new(0, 0).level(), LogLevel::Info);
}

#[test]
fn verbosity_info_1_0_debug() {
    assert_eq!(Verbosity::<InfoLevel>::new(1, 0).level(), LogLevel::Debug);
}

#[test]
fn verbosity_info_2_0_trace() {
    assert_eq!(Verbosity::<InfoLevel>::new(2, 0).level(), LogLevel::Trace);
}

#[test]
fn verbosity_info_3_0_trace() {
    assert_eq!(Verbosity::<InfoLevel>::new(3, 0).level(), LogLevel::Trace);
}

#[test]
fn verbosity_info_255_0_trace() {
    assert_eq!(Verbosity::<InfoLevel>::new(255, 0).level(), LogLevel::Trace);
}

#[test]
fn verbosity_info_0_1_warn() {
    assert_eq!(Verbosity::<InfoLevel>::new(0, 1).level(), LogLevel::Warn);
}

#[test]
fn verbosity_info_0_2_error() {
    assert_eq!(Verbosity::<InfoLevel>::new(0, 2).level(), LogLevel::Error);
}

#[test]
fn verbosity_info_0_3_off() {
    assert_eq!(Verbosity::<InfoLevel>::new(0, 3).level(), LogLevel::Off);
}

#[test]
fn verbosity_info_0_4_off() {
    assert_eq!(Verbosity::<InfoLevel>::new(0, 4).level(), LogLevel::Off);
}

#[test]
fn verbosity_info_0_255_off() {
    assert_eq!(Verbosity::<InfoLevel>::new(0, 255).level(), LogLevel::Off);
}

#[test]
fn verbosity_info_255_255_info() {
    assert_eq!(Verbosity::<InfoLevel>::new(255, 255).level(), LogLevel::Info);
}

#[test]
fn verbosity_debug_0_0_debug() {
    assert_eq!(Verbosity::<DebugLevel>::new(0, 0).level(), LogLevel::Debug);
}

#[test]
fn verbosity_debug_1_0_trace() {
    assert_eq!(Verbosity::<DebugLevel>::new(1, 0).level(), LogLevel::Trace);
}

#[test]
fn verbosity_debug_2_0_trace() {
    assert_eq!(Verbosity::<DebugLevel>::new(2, 0).level(), LogLevel::Trace);
}

#[test]
fn verbosity_debug_255_0_trace() {
    assert_eq!(Verbosity::<DebugLevel>::new(255, 0).level(), LogLevel::Trace);
}

#[test]
fn verbosity_debug_0_1_info() {
    assert_eq!(Verbosity::<DebugLevel>::new(0, 1).level(), LogLevel::Info);
}

#[test]
fn verbosity_debug_0_2_warn() {
    assert_eq!(Verbosity::<DebugLevel>::new(0, 2).level(), LogLevel::Warn);
}

#[test]
fn verbosity_debug_0_3_error() {
    assert_eq!(Verbosity::<DebugLevel>::new(0, 3).level(), LogLevel::Error);
}

#[test]
fn verbosity_debug_0_4_off() {
    assert_eq!(Verbosity::<DebugLevel>::new(0, 4).level(), LogLevel::Off);
}

#[test]
fn verbosity_debug_0_5_off() {
    assert_eq!(Verbosity::<DebugLevel>::new(0, 5).level(), LogLevel::Off);
}

#[test]
fn verbosity_debug_0_255_off() {
    assert_eq!(Verbosity::<DebugLevel>::new(0, 255).level(), LogLevel::Off);
}

#[test]
fn verbosity_debug_255_255_debug() {
    assert_eq!(Verbosity::<DebugLevel>::new(255, 255).level(), LogLevel::Debug);
}

#[test]
fn verbosity_presence_and_silence() {
    assert!(!Verbosity::<InfoLevel>::new(0, 0).is_present());
    assert!(Verbosity::<InfoLevel>::new(1, 0).is_present());
    assert!(Verbosity::<InfoLevel>::new(0, 1).is_present());
    assert!(!Verbosity::<InfoLevel>::new(0, 2).is_silent());
    assert!(Verbosity::<InfoLevel>::new(0, 3).is_silent());
}

fn bare_cli() -> Cli {
    Cli {
        verbose: Verbosity::new(0, 0),
        log_level: None,
        config: None,
        api_id: None,
        api_hash: None,
        phone_number: None,
        session: None,
    }
}

#[test]
fn cli_explicit_level_wins_over_counters() {
    let mut cli = bare_cli();
    cli.log_level = Some(LogLevel::Trace);
    cli.verbose = Verbosity::new(0, 3);
    assert_eq!(cli.log_level(), Some(LogLevel::Trace));
}

#[test]
fn cli_counters_count_when_no_explicit_level() {
    let mut cli = bare_cli();
    cli.verbose = Verbosity::new(2, 0);
    assert_eq!(cli.log_level(), Some(LogLevel::Trace));
}

#[test]
fn cli_silent_when_nothing_given() {
    assert_eq!(bare_cli().log_level(), None);
}

#[test]
fn initial_level_is_the_compiled_default_when_nothing_is_chosen() {
    assert_eq!(shabby::initial_log_level(&bare_cli()), LogLevel::Info);
    let mut cli = bare_cli();
    cli.log_level = Some(LogLevel::Off);
    assert_eq!(shabby::initial_log_level(&cli), LogLevel::Off);
    let mut cli = bare_cli();
    cli.verbose = Verbosity::new(0, 1);
    assert_eq!(shabby::initial_log_level(&cli), LogLevel::Warn);
}
