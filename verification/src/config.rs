//! Process-wide log configuration, resolved once at startup: a render
//! mode (human-readable or machine-readable) and a minimum severity.
//! Unrecognized selector values fall back deterministically to the
//! documented defaults.

use vstd::prelude::*;
use vstd::string::StringExecFns;

verus! {

/// How log output is rendered.
#[derive(Clone, Copy, Debug, PartialEq, Eq, Structural)]
pub enum LogType {
    /// Human-readable output; the default.
    Formatted,
    /// Machine-readable structured output.
    Json,
}

/// The minimum severity that is logged, from most to least verbose.
#[derive(Clone, Copy, Debug, PartialEq, Eq, Structural)]
pub enum LogLevel {
    /// Log everything.
    Verbose,
    /// The mid-level default.
    Normal,
    /// Log only serious conditions.
    Critical,
}

impl LogType {
    /// Resolve the render-mode selector: `json` selects machine-readable
    /// output; `formatted` and every unrecognized value select the
    /// human-readable default.
    pub fn from_config(value: &str) -> (r: LogType)
        ensures
            r is Json <==> value@ == "json"@,
            r is Formatted <==> value@ != "json"@,
    {
        let v = value.to_owned();
        if v == String::from_str("json") {
            LogType::Json
        } else {
            LogType::Formatted
        }
    }
}

impl LogLevel {
    /// Resolve the severity selector: `verbose` and `critical` select
    /// their levels; `normal` and every unrecognized value select the
    /// mid-level default.
    pub fn from_config(value: &str) -> (r: LogLevel)
        ensures
            r is Verbose <==> value@ == "verbose"@,
            r is Critical <==> value@ == "critical"@,
            r is Normal <==> (value@ != "verbose"@ && value@ != "critical"@),
    {
        proof {
            reveal_strlit("verbose");
            reveal_strlit("critical");
            assert("verbose"@.len() == 7);
            assert("critical"@.len() == 8);
            assert("verbose"@ != "critical"@);
        }
        let v = value.to_owned();
        if v == String::from_str("verbose") {
            LogLevel::Verbose
        } else if v == String::from_str("critical") {
            LogLevel::Critical
        } else {
            LogLevel::Normal
        }
    }

    /// How verbose this level is; greater means more is logged.
    pub open spec fn spec_verbosity(self) -> int {
        match self {
            LogLevel::Verbose => 2,
            LogLevel::Normal => 1,
            LogLevel::Critical => 0,
        }
    }

    /// Executable counterpart of [`LogLevel::spec_verbosity`].
    pub fn verbosity(self) -> (r: u8)
        ensures
            r as int == self.spec_verbosity(),
    {
        match self {
            LogLevel::Verbose => 2,
            LogLevel::Normal => 1,
            LogLevel::Critical => 0,
        }
    }
}

} // verus!
