use vstd::prelude::*;

verus! {

/// The configuration cannot be used as it stands.
#[derive(Clone, Copy, Debug, PartialEq, Eq, Structural)]
pub enum ConfigurationError {
    /// The timezone identifier names no zone of the IANA database.
    UnknownTimezone,
    /// The configured month and day name no end of day in the given year:
    /// the date does not exist, or 23:59:59 is skipped on it in the zone.
    NoSuchDeadline,
    /// 23:59:59 occurs twice on the configured day in the zone.
    AmbiguousDeadline,
}

/// The membership store could not carry out an operation.
#[derive(Clone, Copy, Debug, PartialEq, Eq, Structural)]
pub enum StoreError {
    /// The store cannot be reached.
    Unavailable,
    /// The referral ledger cannot hold another entry.
    Full,
}

/// Why a claimed membership was not confirmed.
#[derive(Clone, Copy, Debug, PartialEq, Eq, Structural)]
pub enum VerificationError {
    /// The verification authority answered, and the answer was not the
    /// success sentinel.
    Failed,
    /// The verification authority, or a transform service in front of it,
    /// could not be reached or gave no readable answer.
    Unavailable,
}

} // verus!
