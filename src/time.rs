use vstd::prelude::*;

verus! {

#[verifier::external_type_specification]
#[verifier::external_body]
pub struct ExInstant(std::time::Instant);

/// Relies on std::time::Instant::now: a reading of the monotonic clock.
/// Nothing is known of its value.
pub assume_specification[ std::time::Instant::now ]() -> std::time::Instant;

/// Relies on std::time::Instant::elapsed: the time from the instant to now
/// (zero if the clock reads earlier). Nothing is known of its value.
pub assume_specification[ std::time::Instant::elapsed ](i: &std::time::Instant) -> std::time::Duration;

/// Relies on std::time::Duration::as_nanos: the whole nanoseconds of a duration.
pub assume_specification[ std::time::Duration::as_nanos ](d: &std::time::Duration) -> u128;

pub const NANOS_PER_SEC: u128 = 1_000_000_000;

/// A point on the monotonic clock: `nanos` nanoseconds after the reading `origin`.
///
/// Two moments are only compared through the clock of their own origin, so a
/// moment never depends on a process-wide epoch.
#[derive(Clone, Copy, Debug, PartialEq)]
pub struct Moment {
    pub origin: std::time::Instant,
    pub nanos: u128,
}

impl Moment {
    /// The current moment: a fresh clock reading, with no offset.
    pub fn now() -> (r: Moment)
        ensures
            r.nanos == 0,
    {
        Moment { origin: std::time::Instant::now(), nanos: 0 }
    }

    /// The moment `secs` seconds after this one, on the same origin.
    pub fn after_secs(&self, secs: u64) -> (r: Moment)
        requires
            self.nanos + secs * NANOS_PER_SEC <= u128::MAX,
        ensures
            r.origin == self.origin,
            r.nanos == self.nanos + secs * NANOS_PER_SEC,
    {
        Moment { origin: self.origin, nanos: self.nanos + (secs as u128) * NANOS_PER_SEC }
    }

    /// How many nanoseconds the clock has run since this moment's origin.
    pub fn clock_nanos(&self) -> u128 {
        let d = std::time::Instant::elapsed(&self.origin);
        d.as_nanos()
    }
}

} // verus!
