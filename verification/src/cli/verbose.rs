//! Repeatable verbose/quiet counters and their mapping to a severity level.

use vstd::prelude::*;

use crate::logging::LogLevel;

verus! {

/// A family of verbosity flags: where the scale starts when neither flag is
/// given, and the help text shown for the two flags.
pub trait VerbosityLevel {
    /// The level used when neither flag is given.
    spec fn spec_default_level() -> LogLevel;

    /// The level used when neither flag is given.
    fn default_level() -> (r: LogLevel)
        ensures
            r == Self::spec_default_level(),
    ;

    /// Short help for the flag that raises verbosity.
    fn verbose_help() -> Option<&'static str>;

    /// Long help for the flag that raises verbosity.
    fn verbose_long_help() -> Option<&'static str>;

    /// Short help for the flag that lowers verbosity.
    fn quiet_help() -> Option<&'static str>;

    /// Long help for the flag that lowers verbosity.
    fn quiet_long_help() -> Option<&'static str>;
}

/// A pair of non-negative counters: how often verbosity was raised and how
/// often it was lowered. The derived level is the family's default moved by
/// their difference, saturating at both ends of the scale.
pub struct Verbosity<L: VerbosityLevel = InfoLevel> {
    /// How many times verbosity was raised.
    pub verbose: u8,
    /// How many times verbosity was lowered.
    pub quiet: u8,
    /// Ties the counters to their flag family.
    pub marker: core::marker::PhantomData<L>,
}

impl<L: VerbosityLevel> Verbosity<L> {
    /// A verbosity from its two counters.
    pub fn new(verbose: u8, quiet: u8) -> (r: Self)
        ensures
            r.verbose == verbose,
            r.quiet == quiet,
    {
        Self { verbose, quiet, marker: core::marker::PhantomData }
    }

    /// Whether either counter was given at all.
    pub open spec fn spec_is_present(self) -> bool {
        self.verbose != 0 || self.quiet != 0
    }

    /// Whether either counter was given at all.
    pub fn is_present(&self) -> (r: bool)
        ensures
            r == self.spec_is_present(),
    {
        self.verbose != 0 || self.quiet != 0
    }

    /// The level derived from the counters: the family default, raised once
    /// per verbose count and lowered once per quiet count, clamped to the
    /// scale.
    pub open spec fn spec_level(self) -> LogLevel {
        LogLevel::spec_from_int(
            L::spec_default_level().spec_index() + self.verbose - self.quiet,
        )
    }

    /// The level derived from the counters.
    pub fn level(&self) -> (r: LogLevel)
        ensures
            r == self.spec_level(),
    {
        let offset: i16 = self.verbose as i16 - self.quiet as i16;
        L::default_level().with_offset(offset)
    }

    /// Whether the counters turn logging off entirely.
    pub fn is_silent(&self) -> (r: bool)
        ensures
            r == (self.spec_level() == LogLevel::Off),
    {
        self.level() == LogLevel::Off
    }
}

/// However large the two counters are, the derived level stays on the
/// six-step scale: a surplus of raises at or past the top gives `Trace`, a
/// surplus of lowers at or past the bottom gives `Off`, and in between the
/// offset is applied exactly.
pub proof fn lemma_verbosity_level_saturates(default: LogLevel, increase: u8, decrease: u8)
    ensures
        0 <= LogLevel::spec_from_int(
            default.spec_index() + increase - decrease,
        ).spec_index() <= 5,
        default.spec_index() + increase - decrease >= 5 ==> LogLevel::spec_from_int(
            default.spec_index() + increase - decrease,
        ) == LogLevel::Trace,
        default.spec_index() + increase - decrease <= 0 ==> LogLevel::spec_from_int(
            default.spec_index() + increase - decrease,
        ) == LogLevel::Off,
        0 < default.spec_index() + increase - decrease < 5 ==> LogLevel::spec_from_int(
            default.spec_index() + increase - decrease,
        ).spec_index() == default.spec_index() + increase - decrease,
{
}

/// Verbosity family whose default is `Info`.
#[derive(Copy, Clone, Debug)]
pub struct InfoLevel;

impl VerbosityLevel for InfoLevel {
    open spec fn spec_default_level() -> LogLevel {
        LogLevel::Info
    }

    fn default_level() -> (r: LogLevel) {
        LogLevel::Info
    }

    fn verbose_help() -> Option<&'static str> {
        Some("Increase logging verbosity")
    }

    fn verbose_long_help() -> Option<&'static str> {
        Some(
            "Increase logging verbosity.\n\nThe more times this option is specified, the more verbose the\noutput will become.\n\nSpecifically, they relate as follows:\n    -v     Show debug\n    -vv    Show trace\n\nSpecifying this option more than two times has no further effect.\n",
        )
    }

    fn quiet_help() -> Option<&'static str> {
        Some("Decrease logging verbosity")
    }

    fn quiet_long_help() -> Option<&'static str> {
        Some(
            "Decrease logging verbosity.\n\nThe more times this option is specified, the less verbose the\noutput will become.\n\nSpecifically, they relate as follows:\n    -q      Show warning\n    -qq     Show error\n    -qqq    Show nothing (turns off logging)\n\nSpecifying this option more than three times has no further effect.\n",
        )
    }
}

/// Verbosity family whose default is `Debug`.
#[derive(Copy, Clone, Debug)]
pub struct DebugLevel;

impl VerbosityLevel for DebugLevel {
    open spec fn spec_default_level() -> LogLevel {
        LogLevel::Debug
    }

    fn default_level() -> (r: LogLevel) {
        LogLevel::Debug
    }

    fn verbose_help() -> Option<&'static str> {
        Some("Increase logging verbosity")
    }

    fn verbose_long_help() -> Option<&'static str> {
        Some(
            "Increase logging verbosity.\n\nThe more times this option is specified, the more verbose the\noutput will become.\n\nSpecifically, they relate as follows:\n    -v     Show trace\n\nSpecifying this option more than once has no further effect.\n\nThe default verbosity level is debug.\n",
        )
    }

    fn quiet_help() -> Option<&'static str> {
        Some("Decrease logging verbosity")
    }

    fn quiet_long_help() -> Option<&'static str> {
        Some(
            "Decrease logging verbosity.\n\nThe more times this option is specified, the less verbose the\noutput will become.\n\nSpecifically, they relate as follows:\n    -q      Show info\n    -qq     Show warning\n    -qqq    Show error\n    -qqqq   Show nothing (turns off logging)\n\nSpecifying this option more than four times has no further effect.\n\nThe default verbosity level is debug.\n",
        )
    }
}

} // verus!
