//! The reservation policy of one field, and the checks that need only the
//! request and the current time.

use vstd::prelude::*;
use crate::error::Rejection;
use crate::time::{Instant, TimeOfDay, SECONDS_PER_DAY};

verus! {

/// The window over which a user's reservations are counted.
#[derive(Clone, Copy, Debug, PartialEq, Eq, Structural)]
pub enum ReservationPeriod {
    /// One calendar day in UTC.
    Daily,
}

/// How reservations of one field are constrained.
#[derive(Clone, Copy, Debug, PartialEq, Eq, Structural)]
pub struct ReservationRules {
    /// Time of day (UTC) before which no reservation for the day may be made.
    pub reservations_start_at_time_utc: TimeOfDay,
    /// Longest reservation, in minutes.
    pub max_duration_minutes: u32,
    /// Most reservations one user may hold in one period.
    pub max_reservations_per_period: u32,
    pub reservation_period: ReservationPeriod,
}

/// The length of the span from `start` to `end`, in seconds.
pub open spec fn span_seconds(start: Instant, end: Instant) -> int {
    end.secs - start.secs
}

impl ReservationRules {
    pub fn new(
        reservations_start_at_time_utc: TimeOfDay,
        max_duration_minutes: u32,
        max_reservations_per_period: u32,
        reservation_period: ReservationPeriod,
    ) -> (r: Self)
        ensures
            r.reservations_start_at_time_utc == reservations_start_at_time_utc,
            r.max_duration_minutes == max_duration_minutes,
            r.max_reservations_per_period == max_reservations_per_period,
            r.reservation_period == reservation_period,
    {
        ReservationRules {
            reservations_start_at_time_utc,
            max_duration_minutes,
            max_reservations_per_period,
            reservation_period,
        }
    }

    /// `start` lies in the period that contains `now`.
    pub open spec fn same_period(self, now: Instant, start: Instant) -> bool {
        match self.reservation_period {
            ReservationPeriod::Daily => now.day() == start.day(),
        }
    }

    /// The day's opening time for reservations has been reached at `now`.
    pub open spec fn cutoff_reached(self, now: Instant) -> bool {
        now.time_of_day() >= self.reservations_start_at_time_utc@
    }

    pub open spec fn within_cutoff(self, now: Instant, start: Instant) -> bool {
        self.same_period(now, start) && self.cutoff_reached(now)
    }

    /// The span from `start` to `end` lasts at most the longest allowed.
    pub open spec fn within_max_duration(self, start: Instant, end: Instant) -> bool {
        span_seconds(start, end) <= 60 * self.max_duration_minutes
    }

    /// The first rule, in order, that a request from `start` to `end` made at
    /// `now` breaks, if any.
    pub open spec fn temporal_verdict(self, start: Instant, end: Instant, now: Instant) -> Option<Rejection> {
        if !self.same_period(now, start) {
            Some(Rejection::WrongDay)
        } else if !self.cutoff_reached(now) {
            Some(Rejection::TooEarly)
        } else if !self.within_max_duration(start, end) {
            Some(Rejection::DurationExceeded)
        } else {
            None
        }
    }

    pub fn is_same_period(&self, now: Instant, start: Instant) -> (r: bool)
        ensures
            r == self.same_period(now, start),
    {
        match self.reservation_period {
            ReservationPeriod::Daily => now.date() == start.date(),
        }
    }

    pub fn is_after_cutoff(&self, now: Instant) -> (r: bool)
        ensures
            r == self.cutoff_reached(now),
    {
        now.time().secs() >= self.reservations_start_at_time_utc.secs()
    }

    /// `start` is on the day of `now`, and the day's opening time has passed.
    pub fn is_within_cutoff(&self, now: Instant, start: Instant) -> (r: bool)
        ensures
            r == self.within_cutoff(now, start),
    {
        self.is_same_period(now, start) && self.is_after_cutoff(now)
    }

    /// The span from `start` to `end` is at most the longest allowed.
    pub fn is_within_max_duration(&self, start: Instant, end: Instant) -> (r: bool)
        ensures
            r == self.within_max_duration(start, end),
    {
        let limit: i128 = self.max_duration_minutes as i128 * 60;
        end.secs as i128 - start.secs as i128 <= limit
    }

    /// The period containing `now`, as a half-open range of instants.
    pub fn period_window(&self, now: Instant) -> (r: (Instant, Instant))
        requires
            i64::MIN + 86400 <= now.secs <= i64::MAX - 86400,
        ensures
            r.0.secs == now.day() * 86400,
            r.1.secs == r.0.secs + 86400,
            r.0.secs <= now.secs < r.1.secs,
    {
        let start = now.start_of_day();
        proof {
            crate::time::lemma_day_parts(now.secs as int);
        }
        (start, Instant { secs: start.secs + SECONDS_PER_DAY })
    }

    /// Checks that need only the request and the time, in their fixed order:
    /// the day, then the opening time, then the length.
    pub fn check_temporal(&self, start: Instant, end: Instant, now: Instant) -> (r: Result<(), Rejection>)
        ensures
            r == (match self.temporal_verdict(start, end, now) {
                Some(e) => Err(e),
                None => Ok(()),
            }),
    {
        if !self.is_same_period(now, start) {
            Err(Rejection::WrongDay)
        } else if !self.is_after_cutoff(now) {
            Err(Rejection::TooEarly)
        } else if !self.is_within_max_duration(start, end) {
            Err(Rejection::DurationExceeded)
        } else {
            Ok(())
        }
    }

    /// The quota check, given how many active reservations the user holds in
    /// the current period.
    pub fn check_quota(&self, user_count: u64) -> (r: Result<(), Rejection>)
        ensures
            r == (if user_count < self.max_reservations_per_period {
                Ok(())
            } else {
                Err(Rejection::QuotaExceeded)
            }),
    {
        if user_count >= self.max_reservations_per_period as u64 {
            Err(Rejection::QuotaExceeded)
        } else {
            Ok(())
        }
    }
}

} // verus!
