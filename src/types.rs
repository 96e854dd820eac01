//! Engine enumerations and their native discriminants.
use vstd::prelude::*;

verus! {

/// Log severity levels.
#[derive(Debug, PartialEq, Eq, Structural, Clone, Copy)]
pub enum LogSeverity {
    /// Default logging (currently info).
    Default,
    /// Verbose logging.
    Verbose,
    /// Info logging.
    Info,
    /// Warning logging.
    Warning,
    /// Error logging.
    Error,
    /// Fatal logging.
    Fatal,
    /// Disable logging to file for all messages, and to stderr for messages with
    /// severity less than fatal.
    Disable,
}

impl LogSeverity {
    /// The engine's discriminant for each level.
    pub open spec fn raw_of(self) -> u32 {
        match self {
            LogSeverity::Default => 0,
            LogSeverity::Verbose => 1,
            LogSeverity::Info => 2,
            LogSeverity::Warning => 3,
            LogSeverity::Error => 4,
            LogSeverity::Fatal => 5,
            LogSeverity::Disable => 99,
        }
    }

    /// The engine's discriminant of this level.
    pub fn to_raw(self) -> (r: u32)
        ensures
            r == self.raw_of(),
    {
        match self {
            LogSeverity::Default => 0,
            LogSeverity::Verbose => 1,
            LogSeverity::Info => 2,
            LogSeverity::Warning => 3,
            LogSeverity::Error => 4,
            LogSeverity::Fatal => 5,
            LogSeverity::Disable => 99,
        }
    }

    /// The level with discriminant `raw`, if there is one.
    pub open spec fn from_raw_spec(raw: u32) -> Option<Self> {
        match raw {
            0 => Some(LogSeverity::Default),
            1 => Some(LogSeverity::Verbose),
            2 => Some(LogSeverity::Info),
            3 => Some(LogSeverity::Warning),
            4 => Some(LogSeverity::Error),
            5 => Some(LogSeverity::Fatal),
            99 => Some(LogSeverity::Disable),
            _ => None,
        }
    }

    /// The level with discriminant `raw`, if there is one.
    pub fn from_raw(raw: u32) -> (r: Option<Self>)
        ensures
            r == Self::from_raw_spec(raw),
    {
        match raw {
            0 => Some(LogSeverity::Default),
            1 => Some(LogSeverity::Verbose),
            2 => Some(LogSeverity::Info),
            3 => Some(LogSeverity::Warning),
            4 => Some(LogSeverity::Error),
            5 => Some(LogSeverity::Fatal),
            99 => Some(LogSeverity::Disable),
            _ => None,
        }
    }
}

impl Default for LogSeverity {
    fn default() -> (r: Self)
        ensures
            r == LogSeverity::Default,
    {
        LogSeverity::Default
    }
}

/// Log items prepended to each log line.
#[derive(Debug, PartialEq, Eq, Structural, Clone, Copy)]
pub enum LogItems {
    /// Prepend the default list of items.
    Default,
    /// Prepend no items.
    NoItems,
    /// Prepend the process ID.
    FlagProcessId,
    /// Prepend the thread ID.
    FlagThreadId,
    /// Prepend the timestamp.
    FlagTimeStamp,
    /// Prepend the tick count.
    FlagTickCount,
}

impl LogItems {
    /// The engine's discriminant for each choice.
    pub open spec fn raw_of(self) -> u32 {
        match self {
            LogItems::Default => 0,
            LogItems::NoItems => 1,
            LogItems::FlagProcessId => 2,
            LogItems::FlagThreadId => 4,
            LogItems::FlagTimeStamp => 8,
            LogItems::FlagTickCount => 16,
        }
    }

    /// The engine's discriminant of this choice.
    pub fn to_raw(self) -> (r: u32)
        ensures
            r == self.raw_of(),
    {
        match self {
            LogItems::Default => 0,
            LogItems::NoItems => 1,
            LogItems::FlagProcessId => 2,
            LogItems::FlagThreadId => 4,
            LogItems::FlagTimeStamp => 8,
            LogItems::FlagTickCount => 16,
        }
    }

    /// The choice with discriminant `raw`, if there is one.
    pub open spec fn from_raw_spec(raw: u32) -> Option<Self> {
        match raw {
            0 => Some(LogItems::Default),
            1 => Some(LogItems::NoItems),
            2 => Some(LogItems::FlagProcessId),
            4 => Some(LogItems::FlagThreadId),
            8 => Some(LogItems::FlagTimeStamp),
            16 => Some(LogItems::FlagTickCount),
            _ => None,
        }
    }

    /// The choice with discriminant `raw`, if there is one.
    pub fn from_raw(raw: u32) -> (r: Option<Self>)
        ensures
            r == Self::from_raw_spec(raw),
    {
        match raw {
            0 => Some(LogItems::Default),
            1 => Some(LogItems::NoItems),
            2 => Some(LogItems::FlagProcessId),
            4 => Some(LogItems::FlagThreadId),
            8 => Some(LogItems::FlagTimeStamp),
            16 => Some(LogItems::FlagTickCount),
            _ => None,
        }
    }
}

impl Default for LogItems {
    fn default() -> (r: Self)
        ensures
            r == LogItems::Default,
    {
        LogItems::Default
    }
}

} // verus!
