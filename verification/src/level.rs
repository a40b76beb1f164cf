//! Severity levels and their order.

use core::cmp::Ordering;
use vstd::prelude::*;
use vstd::std_specs::cmp::PartialOrdSpec;

verus! {

/// Log severity levels in order of importance.
#[derive(Debug, Clone, Copy, PartialEq, Eq, Structural, Ord)]
pub enum LogLevel {
    Trace,
    Debug,
    Info,
    Warn,
    Error,
}

impl LogLevel {
    /// The position of the level in the order Trace, Debug, Info, Warn, Error.
    pub open spec fn severity(self) -> nat {
        match self {
            LogLevel::Trace => 0,
            LogLevel::Debug => 1,
            LogLevel::Info => 2,
            LogLevel::Warn => 3,
            LogLevel::Error => 4,
        }
    }

    /// The position of the level, as a number that code can compare.
    pub fn rank(self) -> (r: u8)
        ensures
            r == self.severity(),
    {
        match self {
            LogLevel::Trace => 0,
            LogLevel::Debug => 1,
            LogLevel::Info => 2,
            LogLevel::Warn => 3,
            LogLevel::Error => 4,
        }
    }

    /// How two levels compare: as their positions do.
    pub open spec fn order(self, other: LogLevel) -> Ordering {
        if self.severity() < other.severity() {
            Ordering::Less
        } else if self.severity() == other.severity() {
            Ordering::Equal
        } else {
            Ordering::Greater
        }
    }
}

impl PartialOrd for LogLevel {
    fn partial_cmp(&self, other: &LogLevel) -> (r: Option<Ordering>) {
        let a = self.rank();
        let b = other.rank();
        if a < b {
            Some(Ordering::Less)
        } else if a == b {
            Some(Ordering::Equal)
        } else {
            Some(Ordering::Greater)
        }
    }
}

impl vstd::std_specs::cmp::PartialOrdSpecImpl for LogLevel {
    open spec fn obeys_partial_cmp_spec() -> bool {
        true
    }

    open spec fn partial_cmp_spec(&self, other: &LogLevel) -> Option<Ordering> {
        Some(self.order(*other))
    }
}

/// One level is above another exactly when it stands later in the order
/// Trace, Debug, Info, Warn, Error; below it exactly when it stands earlier;
/// and the two compare as equal exactly when they are the same level.
pub proof fn lemma_order_is_by_severity(a: LogLevel, b: LogLevel)
    ensures
        a.partial_cmp_spec(&b) == Some(Ordering::Greater) <==> a.severity() > b.severity(),
        a.partial_cmp_spec(&b) == Some(Ordering::Less) <==> a.severity() < b.severity(),
        a.partial_cmp_spec(&b) == Some(Ordering::Equal) <==> a == b,
{
}

} // verus!
