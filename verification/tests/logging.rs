//! The re-levelable logging handle and the platform directories.

use shabby::dirs;
use shabby::logging::{LogLevel, LogState};
use tracing::metadata::LevelFilter;
use tracing_subscriber::reload;

#[test]
fn set_level_filter_swaps_both_filters() {
    let (_own_layer, own_handle) = reload::Layer::new(LevelFilter::INFO);
    let (_others_layer, others_handle) = reload::Layer::new(LevelFilter::WARN);
    let state = LogState::new(own_handle.clone(), others_handle.clone());

    state.set_level_filter(LogLevel::Trace).unwrap();
    assert_eq!(own_handle.clone_current(), Some(LevelFilter::TRACE));
    assert_eq!(others_handle.clone_current(), Some(LevelFilter::WARN));

    state.set_level_filter(LogLevel::Error).unwrap();
    assert_eq!(own_handle.clone_current(), Some(LevelFilter::ERROR));
    assert_eq!(others_handle.clone_current(), Some(LevelFilter::ERROR));

    state.set_level_filter(LogLevel::Off).unwrap();
    assert_eq!(own_handle.clone_current(), Some(LevelFilter::OFF));
    assert_eq!(others_handle.clone_current(), Some(LevelFilter::OFF));
}

#[test]
fn set_level_filter_reports_a_lost_subscriber() {
    let (own_layer, own_handle) = reload::Layer::new(LevelFilter::INFO);
    let (others_layer, others_handle) = reload::Layer::new(LevelFilter::WARN);
    drop(own_layer);
    drop(others_layer);
    let state = LogState::new(own_handle, others_handle);
    let err = state.set_level_filter(LogLevel::Debug).unwrap_err();
    assert!(!err.message().is_empty());
}

#[test]
fn join_path_inserts_one_separator() {
    assert_eq!(dirs::join_path("/var/state", "session"), "/var/state/session");
    assert_eq!(dirs::join_path("", "x"), "/x");
}

#[test]
fn platform_directories_name_the_application_when_found() {
    if let Some(path) = dirs::config() {
        assert!(path.contains("shabby"));
    }
    if let Some(path) = dirs::state() {
        assert!(path.contains("shabby"));
    }
}
