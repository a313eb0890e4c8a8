//! Points in time and where they come from.

use vstd::prelude::*;

verus! {

/// A point in time in UTC: seconds since the Unix epoch, and nanoseconds since
/// that second began.
#[derive(Clone, Copy, Debug, PartialEq, Eq, Structural)]
pub struct Timestamp {
    pub seconds: i64,
    pub nanos: u32,
}

/// A clock. What it says is up to its implementation.
pub trait TimeProvider: Send + Sync {
    fn now(&self) -> Timestamp;
}

/// The clock of the machine.
pub struct RealTimeProvider;

impl RealTimeProvider {
    pub fn new() -> (provider: Self)
        ensures
            provider == RealTimeProvider,
    {
        RealTimeProvider
    }
}

/// Calls `chrono::Utc::now` and reads the `timestamp` and the
/// `timestamp_subsec_nanos` of what it returns.
///
/// Trusted: the time is not before the Unix epoch, and the nanoseconds are less
/// than a second. Which moment it is depends on the machine, so nothing is said
/// of it; nor is there a time to tell on a machine whose clock stands before
/// the epoch, where `chrono` panics.
#[verifier::external_body]
fn utc_now() -> (now: Timestamp)
    ensures
        now.seconds >= 0,
        now.nanos < 1_000_000_000,
{
    let now = chrono::Utc::now();
    Timestamp { seconds: now.timestamp(), nanos: now.timestamp_subsec_nanos() }
}

impl TimeProvider for RealTimeProvider {
    fn now(&self) -> (now: Timestamp)
        ensures
            now.seconds >= 0,
            now.nanos < 1_000_000_000,
    {
        utc_now()
    }
}

} // verus!
