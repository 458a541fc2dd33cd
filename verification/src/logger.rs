use vstd::prelude::*;
use vstd::string::*;

use crate::strutil::{lower_of, str_eq, to_lowercase_string};

verus! {

/// A severity, for the log and for notification routing.
#[derive(Debug, PartialEq, Eq, Structural, PartialOrd, Ord, Clone, Copy, Hash)]
pub enum LogLevel {
    Trace,
    Debug,
    Info,
    Warn,
    Error,
}

/// The lowercase name of a severity.
pub open spec fn spec_log_level_str(l: LogLevel) -> Seq<char> {
    match l {
        LogLevel::Trace => "trace"@,
        LogLevel::Debug => "debug"@,
        LogLevel::Info => "info"@,
        LogLevel::Warn => "warn"@,
        LogLevel::Error => "error"@,
    }
}

/// The severity a lowercased name denotes, if any.
pub open spec fn spec_log_level_of(low: Seq<char>) -> Option<LogLevel> {
    if low == "trace"@ {
        Some(LogLevel::Trace)
    } else if low == "debug"@ {
        Some(LogLevel::Debug)
    } else if low == "info"@ {
        Some(LogLevel::Info)
    } else if low == "warn"@ {
        Some(LogLevel::Warn)
    } else if low == "error"@ {
        Some(LogLevel::Error)
    } else {
        None
    }
}

/// The order of severities, lowest first.
pub open spec fn spec_level_rank(l: LogLevel) -> int {
    match l {
        LogLevel::Trace => 0,
        LogLevel::Debug => 1,
        LogLevel::Info => 2,
        LogLevel::Warn => 3,
        LogLevel::Error => 4,
    }
}

impl LogLevel {
    /// This severity's place in the order, lowest first.
    pub fn rank(&self) -> (r: u8)
        ensures
            r == spec_level_rank(*self),
    {
        match self {
            LogLevel::Trace => 0,
            LogLevel::Debug => 1,
            LogLevel::Info => 2,
            LogLevel::Warn => 3,
            LogLevel::Error => 4,
        }
    }

    /// The lowercase name of this severity.
    pub fn to_str(&self) -> (r: &'static str)
        ensures
            r@ == spec_log_level_str(*self),
    {
        match self {
            LogLevel::Trace => "trace",
            LogLevel::Debug => "debug",
            LogLevel::Info => "info",
            LogLevel::Warn => "warn",
            LogLevel::Error => "error",
        }
    }

    /// Reads a severity from its name, case-insensitively.
    pub fn from_str(s: &str) -> (r: Result<LogLevel, String>)
        ensures
            match r {
                Ok(l) => spec_log_level_of(lower_of(s@)) == Some(l),
                Err(e) => spec_log_level_of(lower_of(s@)) is None && e@
                    == "invalid value for LogLevel: "@ + lower_of(s@),
            },
    {
        let low = to_lowercase_string(s);
        if str_eq(low.as_str(), "trace") {
            return Ok(LogLevel::Trace);
        }
        if str_eq(low.as_str(), "debug") {
            return Ok(LogLevel::Debug);
        }
        if str_eq(low.as_str(), "info") {
            return Ok(LogLevel::Info);
        }
        if str_eq(low.as_str(), "warn") {
            return Ok(LogLevel::Warn);
        }
        if str_eq(low.as_str(), "error") {
            return Ok(LogLevel::Error);
        }
        let mut msg = String::new();
        msg.append("invalid value for LogLevel: ");
        msg.append(low.as_str());
        proof {
            assert(msg@ =~= "invalid value for LogLevel: "@ + lower_of(s@));
        }
        Err(msg)
    }
}

/// Hands an outcome through for the caller to log on error.
pub fn write_error_log_if_err<T, E>(label: &str, result: Result<T, E>) -> (r: Result<T, E>)
    ensures
        r == result,
{
    let _ = label;
    result
}

/// Hands an outcome through for the caller to log on warning.
pub fn write_warn_log_if_err<T, E>(label: &str, result: Result<T, E>) -> (r: Result<T, E>)
    ensures
        r == result,
{
    let _ = label;
    result
}

} // verus!
