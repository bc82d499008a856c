//! The command-line surface as plain values, after flag and environment
//! resolution.

pub mod verbose;

use vstd::prelude::*;

use self::verbose::Verbosity;
use crate::logging::LogLevel;

verus! {

/// The command-line flags, each already resolved against its bound
/// environment variable by the layer that parses the terminal arguments.
/// Every field is optional; what is missing here may still come from the
/// configuration file or a compiled-in default.
pub struct Cli {
    /// Repeatable verbose/quiet counters.
    pub verbose: Verbosity,
    /// An explicitly named log level; mutually exclusive with the counters.
    pub log_level: Option<LogLevel>,
    /// Path to the configuration file.
    pub config: Option<String>,
    /// The platform API identifier.
    pub api_id: Option<i32>,
    /// The platform API secret.
    pub api_hash: Option<String>,
    /// The account phone number.
    pub phone_number: Option<String>,
    /// Path to the session credential file.
    pub session: Option<String>,
}

impl Cli {
    /// The level chosen on the command line: an explicit level wins, counters
    /// count otherwise, and `None` means nothing was chosen there.
    pub open spec fn spec_log_level(self) -> Option<LogLevel> {
        if self.log_level is Some {
            self.log_level
        } else if self.verbose.spec_is_present() {
            Some(self.verbose.spec_level())
        } else {
            None
        }
    }

    /// The level chosen on the command line, if any: an explicitly named
    /// level takes precedence, otherwise present verbose/quiet counters
    /// derive one.
    pub fn log_level(&self) -> (r: Option<LogLevel>)
        ensures
            r == self.spec_log_level(),
    {
        if let Some(ll) = self.log_level {
            return Some(ll);
        }
        if self.verbose.is_present() {
            Some(self.verbose.level())
        } else {
            None
        }
    }
}

} // verus!
