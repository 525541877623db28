//! Urgency of a log emission.
use vstd::prelude::*;

verus! {

/// Ordered by increasing urgency: `Trace` is the least urgent, `Critical` the most.
#[derive(Clone, Copy, Debug, PartialEq, Eq, Structural)]
pub enum Severity {
    Trace,
    Debug,
    Info,
    Warning,
    Error,
    Critical,
}

/// The place of a severity in the order of urgency, from 0 for `Trace` to 5 for `Critical`.
pub open spec fn rank(s: Severity) -> nat {
    match s {
        Severity::Trace => 0,
        Severity::Debug => 1,
        Severity::Info => 2,
        Severity::Warning => 3,
        Severity::Error => 4,
        Severity::Critical => 5,
    }
}

impl Severity {
    /// The place of this severity in the order of urgency.
    pub fn urgency(self) -> (r: u8)
        ensures
            r as nat == rank(self),
    {
        match self {
            Severity::Trace => 0,
            Severity::Debug => 1,
            Severity::Info => 2,
            Severity::Warning => 3,
            Severity::Error => 4,
            Severity::Critical => 5,
        }
    }

    /// Whether this severity is at least as urgent as `other`.
    pub fn is_at_least(self, other: Severity) -> (r: bool)
        ensures
            r == (rank(self) >= rank(other)),
    {
        self.urgency() >= other.urgency()
    }
}

} // verus!
