//! Process-wide logging policy: the severity scale and the rule that keeps
//! dependency log output quieter than the application's own.

pub mod level;

pub use self::level::LogLevel;

use vstd::prelude::*;

verus! {

/// The level used for log events coming from dependency code, computed from
/// the application's own level.
pub open spec fn spec_other_log_level(level: LogLevel) -> LogLevel {
    match level {
        LogLevel::Trace | LogLevel::Debug | LogLevel::Info => LogLevel::Warn,
        _ => level,
    }
}

/// Maps the application's chosen level to the strictly-less-or-equally-verbose
/// level that gates log events from dependency code, so that library chatter
/// never exceeds the user's chosen verbosity.
pub fn map_other_log_level(level: LogLevel) -> (r: LogLevel)
    ensures
        r == spec_other_log_level(level),
        r.spec_index() <= level.spec_index(),
{
    match level {
        LogLevel::Trace | LogLevel::Debug | LogLevel::Info => LogLevel::Warn,
        _ => level,
    }
}

#[verifier::external_type_specification]
#[verifier::external_body]
pub struct ExLevelFilter(tracing::metadata::LevelFilter);

#[verifier::external_type_specification]
#[verifier::external_body]
#[verifier::reject_recursive_types(L)]
#[verifier::reject_recursive_types(S)]
pub struct ExReloadHandle<L, S>(tracing_subscriber::reload::Handle<L, S>);

#[verifier::external_type_specification]
#[verifier::external_body]
pub struct ExRegistry(tracing_subscriber::Registry);

#[verifier::external_type_specification]
#[verifier::external_body]
pub struct ExReloadError(tracing_subscriber::reload::Error);

/// Relies on tracing's level filter constants: the filter that passes log
/// events at or below the given severity, one constant per level.
#[verifier::external_body]
fn level_filter_for(level: &LogLevel) -> tracing::metadata::LevelFilter {
    match level {
        LogLevel::Off => tracing::metadata::LevelFilter::OFF,
        LogLevel::Error => tracing::metadata::LevelFilter::ERROR,
        LogLevel::Warn => tracing::metadata::LevelFilter::WARN,
        LogLevel::Info => tracing::metadata::LevelFilter::INFO,
        LogLevel::Debug => tracing::metadata::LevelFilter::DEBUG,
        LogLevel::Trace => tracing::metadata::LevelFilter::TRACE,
    }
}

/// Relies on tracing_subscriber::reload::Handle::modify: swaps the filter
/// behind the handle for the given one, atomically with respect to
/// concurrent log emission.
#[verifier::external_body]
fn reload_filter(
    handle: &tracing_subscriber::reload::Handle<
        tracing::metadata::LevelFilter,
        tracing_subscriber::Registry,
    >,
    filter: tracing::metadata::LevelFilter,
) -> (r: Result<(), tracing_subscriber::reload::Error>) {
    handle.modify(|f| *f = filter)
}

/// How re-leveling the installed logging subsystem can fail.
#[derive(Debug)]
pub enum LoggingError {
    /// A reload handle no longer reaches its filter.
    ReloadFailed,
}

impl LoggingError {
    /// A human-readable description of the failure.
    pub fn message(&self) -> (r: String)
        ensures
            r@.len() > 0,
    {
        proof {
            reveal_strlit("Failed to modify log level filter");
        }
        String::from_str("Failed to modify log level filter")
    }
}

/// The handle to the installed logging subsystem, through which both
/// severity filters can be swapped after initialization.
pub struct LogState {
    own_handle: tracing_subscriber::reload::Handle<
        tracing::metadata::LevelFilter,
        tracing_subscriber::Registry,
    >,
    others_handle: tracing_subscriber::reload::Handle<
        tracing::metadata::LevelFilter,
        tracing_subscriber::Registry,
    >,
}

impl LogState {
    /// Wraps the two reload handles that initialization created: the first
    /// gates the application's own log events, the second gates events from
    /// dependency code.
    pub fn new(
        own_handle: tracing_subscriber::reload::Handle<
            tracing::metadata::LevelFilter,
            tracing_subscriber::Registry,
        >,
        others_handle: tracing_subscriber::reload::Handle<
            tracing::metadata::LevelFilter,
            tracing_subscriber::Registry,
        >,
    ) -> LogState {
        LogState { own_handle, others_handle }
    }

    /// Swaps both filters' thresholds: the application's own filter to
    /// `level`, the dependency filter to the level [`map_other_log_level`]
    /// computes from it. What the swap does to the process's log output lives
    /// behind the reload handles; this function reports whether both swaps
    /// were accepted.
    pub fn set_level_filter(&self, level: LogLevel) -> (r: Result<(), LoggingError>) {
        let own = level_filter_for(&level);
        let others = level_filter_for(&map_other_log_level(level));
        match reload_filter(&self.own_handle, own) {
            Ok(_) => match reload_filter(&self.others_handle, others) {
                Ok(_) => Ok(()),
                Err(_) => Err(LoggingError::ReloadFailed),
            },
            Err(_) => Err(LoggingError::ReloadFailed),
        }
    }
}

} // verus!
