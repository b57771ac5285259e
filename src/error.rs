use vstd::prelude::*;

verus! {

/// Every failure the notifier can report.
#[derive(Debug, Clone, Copy, PartialEq, Eq, Structural)]
pub enum ErrorKind {
    /// Missing or conflicting location flags, malformed coordinates or override time.
    ConfigurationError,
    /// A city name that the bundled table does not hold.
    LookupError,
    /// The prayer-time provider could not produce a schedule.
    CalculationError,
    /// A local wall-clock time that maps to no instant, or to more than one.
    AmbiguousLocalTime,
    /// The desktop refused the alert.
    NotificationError,
}

} // verus!
