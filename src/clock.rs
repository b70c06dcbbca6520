//! Where the current time comes from.

use vstd::prelude::*;
use crate::time::Instant;

verus! {

/// A source of the current instant. Decisions take the instant as a value, so
/// that one request is judged against a single reading.
pub trait Clock {
    fn now(&self) -> Instant;
}

/// The machine's clock.
pub struct SystemClock;

/// Relies on chrono's conversion of the system time (`DateTime<Utc>::from`
/// a `SystemTime`, which turns a reading before 1970 into a negative
/// timestamp rather than failing), read as whole seconds since the epoch by
/// DateTime::timestamp. Nothing is promised of the reading.
#[verifier::external_body]
fn utc_now() -> (r: Instant) {
    Instant { secs: chrono::DateTime::<chrono::Utc>::from(std::time::SystemTime::now()).timestamp() }
}

impl Clock for SystemClock {
    fn now(&self) -> Instant {
        utc_now()
    }
}

} // verus!
