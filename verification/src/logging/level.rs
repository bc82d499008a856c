//! The ordered severity scale for log output, with numeric and textual forms.

use vstd::prelude::*;

use crate::text::{
    eq_ignore_ascii_case, lemma_eq_ignore_ascii_case_symm, lemma_eq_ignore_ascii_case_trans,
    spec_chars_eq_ignore_ascii_case, spec_eq_ignore_ascii_case,
};

verus! {

/// One of six log severities, totally ordered from completely silent to most
/// verbose: `Off < Error < Warn < Info < Debug < Trace`.
#[derive(Copy, Clone, Debug, PartialEq, Eq, Structural)]
pub enum LogLevel {
    Off,
    Error,
    Warn,
    Info,
    Debug,
    Trace,
}

/// The level compiled in as this build's default.
pub open spec fn spec_default_level() -> LogLevel {
    LogLevel::Info
}

impl LogLevel {
    /// Numeric position of the level on the severity scale.
    pub open spec fn spec_index(self) -> int {
        match self {
            LogLevel::Off => 0,
            LogLevel::Error => 1,
            LogLevel::Warn => 2,
            LogLevel::Info => 3,
            LogLevel::Debug => 4,
            LogLevel::Trace => 5,
        }
    }

    /// The level at a numeric position, clamped to the ends of the scale.
    pub open spec fn spec_from_int(value: int) -> LogLevel {
        if value <= 0 {
            LogLevel::Off
        } else if value == 1 {
            LogLevel::Error
        } else if value == 2 {
            LogLevel::Warn
        } else if value == 3 {
            LogLevel::Info
        } else if value == 4 {
            LogLevel::Debug
        } else {
            LogLevel::Trace
        }
    }

    /// The level's canonical upper-case name.
    pub open spec fn spec_name(self) -> Seq<char> {
        match self {
            LogLevel::Off => "OFF"@,
            LogLevel::Error => "ERROR"@,
            LogLevel::Warn => "WARN"@,
            LogLevel::Info => "INFO"@,
            LogLevel::Debug => "DEBUG"@,
            LogLevel::Trace => "TRACE"@,
        }
    }

    /// Numeric position of the level, `0` for `Off` through `5` for `Trace`.
    pub fn index(self) -> (r: i16)
        ensures
            r == self.spec_index(),
    {
        match self {
            LogLevel::Off => 0,
            LogLevel::Error => 1,
            LogLevel::Warn => 2,
            LogLevel::Info => 3,
            LogLevel::Debug => 4,
            LogLevel::Trace => 5,
        }
    }

    /// The level at a numeric position, clamping positions below the scale to
    /// `Off` and above it to `Trace`.
    pub fn from_int(value: i128) -> (r: LogLevel)
        ensures
            r == Self::spec_from_int(value as int),
    {
        if value <= 0 {
            LogLevel::Off
        } else if value == 1 {
            LogLevel::Error
        } else if value == 2 {
            LogLevel::Warn
        } else if value == 3 {
            LogLevel::Info
        } else if value == 4 {
            LogLevel::Debug
        } else {
            LogLevel::Trace
        }
    }

    /// Moves the level by a signed offset in numeric space, saturating at both
    /// ends: more quiet than `Off` stays `Off`, more verbose than `Trace`
    /// stays `Trace`.
    pub fn with_offset(&self, offset: i16) -> (r: LogLevel)
        ensures
            r == Self::spec_from_int(self.spec_index() + offset),
    {
        let base: i32 = self.index() as i32;
        let sum: i32 = base + offset as i32;
        if sum <= 0 {
            LogLevel::Off
        } else if sum == 1 {
            LogLevel::Error
        } else if sum == 2 {
            LogLevel::Warn
        } else if sum == 3 {
            LogLevel::Info
        } else if sum == 4 {
            LogLevel::Debug
        } else {
            LogLevel::Trace
        }
    }

    /// The level's canonical upper-case name.
    pub fn as_str(&self) -> (r: &'static str)
        ensures
            r@ == self.spec_name(),
    {
        match self {
            LogLevel::Off => "OFF",
            LogLevel::Error => "ERROR",
            LogLevel::Warn => "WARN",
            LogLevel::Info => "INFO",
            LogLevel::Debug => "DEBUG",
            LogLevel::Trace => "TRACE",
        }
    }
}

impl Default for LogLevel {
    /// The compiled-in default severity.
    fn default() -> (r: Self)
        ensures
            r == spec_default_level(),
    {
        LogLevel::Info
    }
}

/// Rejected input to [`LogLevel::parse_str`], carrying the offending text.
#[derive(Debug)]
pub struct LevelParseError {
    /// The text that did not name a level.
    pub input: String,
}

impl LevelParseError {
    /// A human-readable description of the error, naming the offending text.
    pub fn message(&self) -> (r: String)
        ensures
            r@ == "Invalid log level: "@ + self.input@,
            r@.len() > 0,
    {
        proof {
            reveal_strlit("Invalid log level: ");
        }
        let mut m = String::from_str("Invalid log level: ");
        m.append(self.input.as_str());
        m
    }
}

/// Whether `c` is an ASCII decimal digit.
pub open spec fn spec_is_digit(c: char) -> bool {
    48 <= c as u32 <= 57
}

/// The numeric value of an ASCII decimal digit.
pub open spec fn spec_digit_val(c: char) -> int {
    c as u32 - 48
}

/// Whether every character of `s` is an ASCII decimal digit.
pub open spec fn spec_all_digits(s: Seq<char>) -> bool {
    forall|i: int| 0 <= i < s.len() ==> spec_is_digit(#[trigger] s[i])
}

/// The value of a sequence of decimal digits, most significant first.
pub open spec fn spec_digits_value(s: Seq<char>) -> int
    decreases s.len(),
{
    if s.len() == 0 {
        0
    } else {
        spec_digits_value(s.drop_last()) * 10 + spec_digit_val(s.last())
    }
}

/// The mathematical integer denoted by `s` as an optionally signed decimal
/// numeral, or `None` if `s` is not such a numeral.
pub open spec fn spec_int_literal(s: Seq<char>) -> Option<int> {
    let digits = if s.len() > 0 && (s[0] == '+' || s[0] == '-') {
        s.skip(1)
    } else {
        s
    };
    if digits.len() == 0 || !spec_all_digits(digits) {
        None
    } else if s.len() > 0 && s[0] == '-' {
        Some(-spec_digits_value(digits))
    } else {
        Some(spec_digits_value(digits))
    }
}

/// The integer denoted by `s`, if `s` is a signed decimal numeral whose value
/// fits a 128-bit signed integer.
pub open spec fn spec_parse_i128(s: Seq<char>) -> Option<int> {
    match spec_int_literal(s) {
        Some(v) => if -170141183460469231731687303715884105728 <= v
            <= 170141183460469231731687303715884105727 {
            Some(v)
        } else {
            None
        },
        None => None,
    }
}

/// The level named by `s` through one of its case-insensitive aliases, the
/// compiled-in default for the empty string, or `None`.
pub open spec fn spec_alias_level(s: Seq<char>) -> Option<LogLevel> {
    if s.len() == 0 {
        Some(spec_default_level())
    } else if spec_eq_ignore_ascii_case(s, "e"@) || spec_eq_ignore_ascii_case(s, "err"@)
        || spec_eq_ignore_ascii_case(s, "error"@) {
        Some(LogLevel::Error)
    } else if spec_eq_ignore_ascii_case(s, "w"@) || spec_eq_ignore_ascii_case(s, "warn"@)
        || spec_eq_ignore_ascii_case(s, "warning"@) {
        Some(LogLevel::Warn)
    } else if spec_eq_ignore_ascii_case(s, "i"@) || spec_eq_ignore_ascii_case(s, "inf"@)
        || spec_eq_ignore_ascii_case(s, "info"@) || spec_eq_ignore_ascii_case(s, "information"@) {
        Some(LogLevel::Info)
    } else if spec_eq_ignore_ascii_case(s, "d"@) || spec_eq_ignore_ascii_case(s, "dbg"@)
        || spec_eq_ignore_ascii_case(s, "debug"@) {
        Some(LogLevel::Debug)
    } else if spec_eq_ignore_ascii_case(s, "t"@) || spec_eq_ignore_ascii_case(s, "trace"@)
        || spec_eq_ignore_ascii_case(s, "v"@) || spec_eq_ignore_ascii_case(s, "verbose"@) {
        Some(LogLevel::Trace)
    } else if spec_eq_ignore_ascii_case(s, "o"@) || spec_eq_ignore_ascii_case(s, "off"@)
        || spec_eq_ignore_ascii_case(s, "disable"@) || spec_eq_ignore_ascii_case(s, "disabled"@)
        || spec_eq_ignore_ascii_case(s, "no"@) || spec_eq_ignore_ascii_case(s, "none"@) {
        Some(LogLevel::Off)
    } else {
        None
    }
}

/// The level named by `s`: the clamped value of a decimal numeral that fits a
/// 128-bit signed integer, or a case-insensitive alias, or `None`.
pub open spec fn spec_parse_level(s: Seq<char>) -> Option<LogLevel> {
    match spec_parse_i128(s) {
        Some(v) => Some(LogLevel::spec_from_int(v)),
        None => spec_alias_level(s),
    }
}

/// Largest accumulator that can take one more digit without leaving `u128`.
const ACC_GUARD: u128 = 34028236692093846346337460743176821144;

/// Two to the 127th power: the magnitude of the smallest 128-bit signed value.
const I128_MIN_MAG: u128 = 170141183460469231731687303715884105728;

/// The largest 128-bit signed value.
const I128_MAX_MAG: u128 = 170141183460469231731687303715884105727;

impl LogLevel {
    /// The level denoted by `s` as a decimal numeral, clamped to the scale;
    /// `None` if `s` is not a numeral that fits a 128-bit signed integer.
    fn parse_numeric(s: &str) -> (r: Option<LogLevel>)
        ensures
            match spec_parse_i128(s@) {
                Some(v) => r == Some(LogLevel::spec_from_int(v)),
                None => r is None,
            },
    {
        let n = s.unicode_len();
        if n == 0 {
            return None;
        }
        let first = s.get_char(0);
        let negative = first == '-';
        let start: usize = if first == '-' || first == '+' {
            1
        } else {
            0
        };
        if n == start {
            // A sign with no digits after it.
            proof {
                assert(s@.skip(1).len() == 0);
            }
            return None;
        }
        let ghost digits = s@.skip(start as int);
        let mut acc: u128 = 0;
        let mut too_big = false;
        let mut i = start;
        while i < n
            invariant
                start <= i <= n,
                n == s@.len(),
                start <= 1,
                n > 0,
                (start == 1) == (s@[0] == '+' || s@[0] == '-'),
                digits == s@.skip(start as int),
                spec_all_digits(s@.subrange(start as int, i as int)),
                !too_big ==> acc == spec_digits_value(s@.subrange(start as int, i as int)),
                !too_big ==> acc <= ACC_GUARD * 10 + 9,
                too_big ==> spec_digits_value(s@.subrange(start as int, i as int))
                    > I128_MIN_MAG,
            decreases n - i,
        {
            let c = s.get_char(i);
            let u = c as u32;
            if u < 48 || u > 57 {
                proof {
                    if start == 0 {
                        assert(digits =~= s@);
                    }
                    assert(0 <= i - start < digits.len());
                    assert(digits[i - start] == s@[i as int]);
                    assert(!spec_is_digit(digits[i - start]));
                    assert(!spec_all_digits(digits));
                }
                return None;
            }
            let d = (u - 48) as u128;
            proof {
                let seen = s@.subrange(start as int, i as int);
                let seen2 = s@.subrange(start as int, i + 1 as int);
                assert(seen2.drop_last() =~= seen);
                assert(seen2.last() == s@[i as int]);
            }
            if too_big {
                // The value already exceeds every 128-bit signed magnitude;
                // further digits only increase it.
            } else if acc > ACC_GUARD {
                too_big = true;
                assert(acc * 10 + d > I128_MIN_MAG);
            } else {
                acc = acc * 10 + d;
            }
            i += 1;
        }
        proof {
            assert(s@.subrange(start as int, n as int) =~= digits);
            if start == 0 {
                assert(digits =~= s@);
            }
        }
        if negative {
            if !too_big && acc <= I128_MIN_MAG {
                // Any in-range negative value clamps to the bottom of the scale.
                Some(LogLevel::Off)
            } else {
                None
            }
        } else {
            if !too_big && acc <= I128_MAX_MAG {
                if acc == 0 {
                    Some(LogLevel::Off)
                } else if acc == 1 {
                    Some(LogLevel::Error)
                } else if acc == 2 {
                    Some(LogLevel::Warn)
                } else if acc == 3 {
                    Some(LogLevel::Info)
                } else if acc == 4 {
                    Some(LogLevel::Debug)
                } else {
                    Some(LogLevel::Trace)
                }
            } else {
                None
            }
        }
    }

    /// The level named by `s` through an alias, or the default for the empty
    /// string.
    fn parse_alias(s: &str) -> (r: Option<LogLevel>)
        ensures
            r == spec_alias_level(s@),
    {
        if s.unicode_len() == 0 {
            Some(LogLevel::Info)
        } else if eq_ignore_ascii_case(s, "e") || eq_ignore_ascii_case(s, "err")
            || eq_ignore_ascii_case(s, "error") {
            Some(LogLevel::Error)
        } else if eq_ignore_ascii_case(s, "w") || eq_ignore_ascii_case(s, "warn")
            || eq_ignore_ascii_case(s, "warning") {
            Some(LogLevel::Warn)
        } else if eq_ignore_ascii_case(s, "i") || eq_ignore_ascii_case(s, "inf")
            || eq_ignore_ascii_case(s, "info") || eq_ignore_ascii_case(s, "information") {
            Some(LogLevel::Info)
        } else if eq_ignore_ascii_case(s, "d") || eq_ignore_ascii_case(s, "dbg")
            || eq_ignore_ascii_case(s, "debug") {
            Some(LogLevel::Debug)
        } else if eq_ignore_ascii_case(s, "t") || eq_ignore_ascii_case(s, "trace")
            || eq_ignore_ascii_case(s, "v") || eq_ignore_ascii_case(s, "verbose") {
            Some(LogLevel::Trace)
        } else if eq_ignore_ascii_case(s, "o") || eq_ignore_ascii_case(s, "off")
            || eq_ignore_ascii_case(s, "disable") || eq_ignore_ascii_case(s, "disabled")
            || eq_ignore_ascii_case(s, "no") || eq_ignore_ascii_case(s, "none") {
            Some(LogLevel::Off)
        } else {
            None
        }
    }

    /// Parses a level from text: a decimal numeral is clamped to the scale, a
    /// case-insensitive alias names its level, the empty string gives the
    /// compiled-in default, and anything else is an error carrying the text.
    pub fn parse_str(s: &str) -> (r: Result<LogLevel, LevelParseError>)
        ensures
            match r {
                Ok(l) => spec_parse_level(s@) == Some(l),
                Err(e) => spec_parse_level(s@) is None && e.input@ == s@,
            },
    {
        match Self::parse_numeric(s) {
            Some(l) => Ok(l),
            None => match Self::parse_alias(s) {
                Some(l) => Ok(l),
                None => Err(LevelParseError { input: String::from_str(s) }),
            },
        }
    }
}

proof fn lemma_int_literal_case_insensitive(a: Seq<char>, b: Seq<char>)
    requires
        spec_eq_ignore_ascii_case(a, b),
    ensures
        spec_int_literal(a) == spec_int_literal(b),
{
    if a.len() == 0 {
        assert(b.len() == 0);
    } else {
        assert(spec_chars_eq_ignore_ascii_case(a[0], b[0]));
        // Signs and digits are not ASCII letters, so case-variation fixes
        // them exactly.
        assert(a[0] == '+' || a[0] == '-' ==> b[0] == a[0]);
        assert(b[0] == '+' || b[0] == '-' ==> a[0] == b[0]);
        let off: int = if a[0] == '+' || a[0] == '-' {
            1
        } else {
            0
        };
        let da = if off == 1 {
            a.skip(1)
        } else {
            a
        };
        let db = if off == 1 {
            b.skip(1)
        } else {
            b
        };
        assert(forall|i: int|
            0 <= i < da.len() ==> spec_chars_eq_ignore_ascii_case(#[trigger] da[i], db[i]))
            by {
            assert(forall|i: int|
                0 <= i < da.len() ==> #[trigger] da[i] == a[i + off] && db[i] == b[i + off]);
        }
        if spec_all_digits(da) {
            assert forall|i: int| 0 <= i < da.len() implies #[trigger] da[i] == db[i] by {
                assert(spec_is_digit(da[i]));
                assert(spec_chars_eq_ignore_ascii_case(da[i], db[i]));
            }
            assert(da =~= db);
        } else {
            let i = choose|i: int| 0 <= i < da.len() && !spec_is_digit(#[trigger] da[i]);
            assert(spec_chars_eq_ignore_ascii_case(da[i], db[i]));
            assert(!spec_is_digit(db[i]));
            assert(!spec_all_digits(db));
        }
    }
}

proof fn lemma_alias_level_case_insensitive(a: Seq<char>, b: Seq<char>)
    requires
        spec_eq_ignore_ascii_case(a, b),
    ensures
        spec_alias_level(a) == spec_alias_level(b),
{
    lemma_eq_ignore_ascii_case_symm(a, b);
    assert forall|lit: Seq<char>| #[trigger] spec_eq_ignore_ascii_case(a, lit) implies
        spec_eq_ignore_ascii_case(b, lit) by {
        lemma_eq_ignore_ascii_case_trans(b, a, lit);
    }
    assert forall|lit: Seq<char>| #[trigger] spec_eq_ignore_ascii_case(b, lit) implies
        spec_eq_ignore_ascii_case(a, lit) by {
        lemma_eq_ignore_ascii_case_trans(a, b, lit);
    }
}

/// Parsing is case-insensitive: two texts equal up to ASCII case name the
/// same level, or fail together.
pub proof fn lemma_parse_level_case_insensitive(a: Seq<char>, b: Seq<char>)
    requires
        spec_eq_ignore_ascii_case(a, b),
    ensures
        spec_parse_level(a) == spec_parse_level(b),
{
    lemma_int_literal_case_insensitive(a, b);
    lemma_alias_level_case_insensitive(a, b);
}

/// Rendering a level and reparsing the rendered name yields the level back,
/// for every level of the scale.
pub proof fn lemma_level_name_round_trip(level: LogLevel)
    ensures
        spec_parse_level(level.spec_name()) == Some(level),
{
    reveal_strlit("OFF");
    reveal_strlit("ERROR");
    reveal_strlit("WARN");
    reveal_strlit("INFO");
    reveal_strlit("DEBUG");
    reveal_strlit("TRACE");
    reveal_strlit("e");
    reveal_strlit("err");
    reveal_strlit("error");
    reveal_strlit("w");
    reveal_strlit("warn");
    reveal_strlit("warning");
    reveal_strlit("i");
    reveal_strlit("inf");
    reveal_strlit("info");
    reveal_strlit("information");
    reveal_strlit("d");
    reveal_strlit("dbg");
    reveal_strlit("debug");
    reveal_strlit("t");
    reveal_strlit("trace");
    reveal_strlit("v");
    reveal_strlit("verbose");
    reveal_strlit("o");
    reveal_strlit("off");
    reveal_strlit("disable");
    reveal_strlit("disabled");
    reveal_strlit("no");
    reveal_strlit("none");
    let name = level.spec_name();
    assert(spec_int_literal(name) is None);
    assert(spec_parse_level(name) == spec_alias_level(name));
    match level {
        LogLevel::Off => {
            assert(spec_eq_ignore_ascii_case(name, "err"@)
                ==> spec_chars_eq_ignore_ascii_case(name[0], "err"@[0]));
            assert(spec_eq_ignore_ascii_case(name, "inf"@)
                ==> spec_chars_eq_ignore_ascii_case(name[0], "inf"@[0]));
            assert(spec_eq_ignore_ascii_case(name, "dbg"@)
                ==> spec_chars_eq_ignore_ascii_case(name[0], "dbg"@[0]));
            assert(spec_eq_ignore_ascii_case(name, "off"@));
            assert(spec_alias_level(name) == Some(LogLevel::Off));
        },
        LogLevel::Error => {
            assert(spec_alias_level(name) == Some(LogLevel::Error));
        },
        LogLevel::Warn => {
            assert(spec_alias_level(name) == Some(LogLevel::Warn));
        },
        LogLevel::Info => {
            assert(spec_eq_ignore_ascii_case(name, "warn"@)
                ==> spec_chars_eq_ignore_ascii_case(name[0], "warn"@[0]));
            assert(spec_eq_ignore_ascii_case(name, "info"@));
            assert(spec_alias_level(name) == Some(LogLevel::Info));
        },
        LogLevel::Debug => {
            assert(spec_eq_ignore_ascii_case(name, "error"@)
                ==> spec_chars_eq_ignore_ascii_case(name[0], "error"@[0]));
            assert(spec_eq_ignore_ascii_case(name, "debug"@));
            assert(spec_alias_level(name) == Some(LogLevel::Debug));
        },
        LogLevel::Trace => {
            assert(spec_eq_ignore_ascii_case(name, "error"@)
                ==> spec_chars_eq_ignore_ascii_case(name[0], "error"@[0]));
            assert(spec_eq_ignore_ascii_case(name, "debug"@)
                ==> spec_chars_eq_ignore_ascii_case(name[0], "debug"@[0]));
            assert(spec_eq_ignore_ascii_case(name, "trace"@));
            assert(spec_alias_level(name) == Some(LogLevel::Trace));
        },
    }
}

} // verus!
