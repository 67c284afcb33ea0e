//! Severity levels of log records.

use vstd::prelude::*;

verus! {

/// Severity of a log record. The variants are listed from the most severe
/// (`Error`) to the least severe (`Trace`).
#[derive(Debug, Clone, Copy, PartialEq, Eq, Hash, Structural)]
pub enum Level {
    Error,
    Warn,
    Info,
    Debug,
    Trace,
}

impl Level {
    /// Position in the severity order: 1 for `Error` up to 5 for `Trace`.
    /// A smaller rank is a more severe level.
    pub open spec fn rank(self) -> int {
        match self {
            Level::Error => 1,
            Level::Warn => 2,
            Level::Info => 3,
            Level::Debug => 4,
            Level::Trace => 5,
        }
    }

    /// `self` is `threshold` or more severe.
    pub open spec fn at_least(self, threshold: Level) -> bool {
        self.rank() <= threshold.rank()
    }

    /// The upper-case name under which the level is shown to the consumer.
    pub open spec fn name(self) -> Seq<char> {
        match self {
            Level::Error => "ERROR"@,
            Level::Warn => "WARN"@,
            Level::Info => "INFO"@,
            Level::Debug => "DEBUG"@,
            Level::Trace => "TRACE"@,
        }
    }

    /// The rank of the level as a number.
    pub fn severity_rank(self) -> (r: u8)
        ensures
            r == self.rank(),
    {
        match self {
            Level::Error => 1,
            Level::Warn => 2,
            Level::Info => 3,
            Level::Debug => 4,
            Level::Trace => 5,
        }
    }

    /// Whether `self` is `threshold` or more severe.
    pub fn is_at_least(self, threshold: Level) -> (b: bool)
        ensures
            b == self.at_least(threshold),
    {
        self.severity_rank() <= threshold.severity_rank()
    }

    /// The upper-case name of the level.
    pub fn as_str(self) -> (s: &'static str)
        ensures
            s@ == self.name(),
    {
        match self {
            Level::Error => "ERROR",
            Level::Warn => "WARN",
            Level::Info => "INFO",
            Level::Debug => "DEBUG",
            Level::Trace => "TRACE",
        }
    }
}

/// The severity order is total: two levels of equal rank are the same level,
/// and of any two levels one is at least as severe as the other.
pub proof fn lemma_level_order_total(a: Level, b: Level)
    ensures
        a.at_least(b) || b.at_least(a),
        a.at_least(b) && b.at_least(a) ==> a == b,
        a.at_least(a),
        Level::Error.at_least(a),
        a.at_least(Level::Trace),
{
}

} // verus!
