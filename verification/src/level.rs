//! Severities of log records and the thresholds that filter them.

use vstd::prelude::*;

verus! {

/// Severity of a log record. `Error` is the most severe, `Trace` the least.
#[derive(Clone, Copy, Debug, PartialEq, Eq, Hash, Structural)]
pub enum Level {
    /// Very serious errors.
    Error,
    /// Hazardous situations.
    Warn,
    /// Useful information.
    Info,
    /// Lower priority information.
    Debug,
    /// Very low priority, often extremely verbose, information.
    Trace,
}

/// A severity threshold: either `Off`, or one of the severities.
#[derive(Clone, Copy, Debug, PartialEq, Eq, Hash, Structural)]
pub enum LevelFilter {
    /// No severity at all.
    Off,
    /// Corresponds to `Level::Error`.
    Error,
    /// Corresponds to `Level::Warn`.
    Warn,
    /// Corresponds to `Level::Info`.
    Info,
    /// Corresponds to `Level::Debug`.
    Debug,
    /// Corresponds to `Level::Trace`.
    Trace,
}

impl Level {
    /// Place of a severity in the order: 1 for `Error`, the most severe, up to 5 for `Trace`.
    pub open spec fn rank(self) -> int {
        match self {
            Level::Error => 1,
            Level::Warn => 2,
            Level::Info => 3,
            Level::Debug => 4,
            Level::Trace => 5,
        }
    }

    /// `self` is at least as severe as `other`.
    pub open spec fn at_least(self, other: Level) -> bool {
        self.rank() <= other.rank()
    }

    /// The rank as a machine integer.
    pub fn to_rank(self) -> (r: u8)
        ensures
            r == self.rank(),
    {
        match self {
            Level::Error => 1,
            Level::Warn => 2,
            Level::Info => 3,
            Level::Debug => 4,
            Level::Trace => 5,
        }
    }

    /// Decides whether `self` is at least as severe as `other`.
    pub fn is_at_least(self, other: Level) -> (r: bool)
        ensures
            r == self.at_least(other),
    {
        self.to_rank() <= other.to_rank()
    }
}

impl LevelFilter {
    /// The severity a threshold names; `None` for `Off`.
    pub open spec fn level(self) -> Option<Level> {
        match self {
            LevelFilter::Off => None,
            LevelFilter::Error => Some(Level::Error),
            LevelFilter::Warn => Some(Level::Warn),
            LevelFilter::Info => Some(Level::Info),
            LevelFilter::Debug => Some(Level::Debug),
            LevelFilter::Trace => Some(Level::Trace),
        }
    }

    /// Converts the threshold to the severity it names. Returns `None` for `Off`.
    pub fn to_level(self) -> (r: Option<Level>)
        ensures
            r == self.level(),
    {
        match self {
            LevelFilter::Off => None,
            LevelFilter::Error => Some(Level::Error),
            LevelFilter::Warn => Some(Level::Warn),
            LevelFilter::Info => Some(Level::Info),
            LevelFilter::Debug => Some(Level::Debug),
            LevelFilter::Trace => Some(Level::Trace),
        }
    }
}

} // verus!
