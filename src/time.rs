//! Instants and times of day in UTC.

use vstd::prelude::*;

verus! {

/// Seconds in one calendar day of UTC (timestamps carry no leap seconds).
pub const SECONDS_PER_DAY: i64 = 86400;

/// The calendar day, counted from 1970-01-01, on which a timestamp falls.
pub open spec fn day_of(secs: int) -> int {
    secs / 86400
}

/// The number of seconds since midnight of that day.
pub open spec fn second_of_day(secs: int) -> int {
    secs % 86400
}

/// An instant in UTC, as whole seconds since 1970-01-01T00:00:00Z.
#[derive(Clone, Copy, Debug, PartialEq, Eq, Structural)]
pub struct Instant {
    pub secs: i64,
}

/// A time of day in UTC, as seconds since midnight: always under 24 hours.
#[derive(Clone, Copy, Debug, PartialEq, Eq, Structural)]
pub struct TimeOfDay {
    secs: u32,
}

impl View for TimeOfDay {
    type V = nat;

    /// Seconds since midnight.
    closed spec fn view(&self) -> nat {
        self.secs as nat
    }
}

impl TimeOfDay {
    #[verifier::type_invariant]
    spec fn wf(self) -> bool {
        self.secs < 86400
    }

    /// The time `hour:min:sec`, or `None` where a component is out of range.
    pub fn from_hms(hour: u32, min: u32, sec: u32) -> (r: Option<TimeOfDay>)
        ensures
            r is Some <==> (hour < 24 && min < 60 && sec < 60),
            r is Some ==> r->0@ == hour * 3600 + min * 60 + sec,
    {
        if hour < 24 && min < 60 && sec < 60 {
            Some(TimeOfDay { secs: hour * 3600 + min * 60 + sec })
        } else {
            None
        }
    }

    /// Seconds since midnight.
    pub fn secs(&self) -> (r: u32)
        ensures
            r == self@,
            r < 86400,
    {
        proof {
            use_type_invariant(self);
        }
        self.secs
    }
}

impl Instant {
    pub fn from_unix_seconds(secs: i64) -> (r: Instant)
        ensures
            r.secs == secs,
    {
        Instant { secs }
    }

    /// The calendar day of this instant.
    pub open spec fn day(self) -> int {
        day_of(self.secs as int)
    }

    /// Seconds since midnight of this instant's day.
    pub open spec fn time_of_day(self) -> int {
        second_of_day(self.secs as int)
    }

    /// The calendar day of this instant, counted from 1970-01-01.
    pub fn date(&self) -> (r: i64)
        ensures
            r == self.day(),
    {
        proof {
            lemma_day_in_range(self.secs as int);
        }
        match self.secs.checked_div_euclid(SECONDS_PER_DAY) {
            Some(d) => d,
            None => 0,
        }
    }

    /// The time of day of this instant.
    pub fn time(&self) -> (r: TimeOfDay)
        ensures
            r@ == self.time_of_day(),
    {
        let s = match self.secs.checked_rem_euclid(SECONDS_PER_DAY) {
            Some(s) => s,
            None => 0,
        };
        TimeOfDay { secs: s as u32 }
    }

    /// Midnight at the start of this instant's day.
    pub fn start_of_day(&self) -> (r: Instant)
        requires
            self.secs >= i64::MIN + 86400,
        ensures
            r.secs == self.day() * 86400,
            r.day() == self.day(),
            r.time_of_day() == 0,
    {
        let t = self.time().secs();
        proof {
            lemma_day_parts(self.secs as int);
            lemma_midnight(self.day());
        }
        Instant { secs: self.secs - t as i64 }
    }
}

/// A timestamp is its day's midnight plus its time of day.
pub proof fn lemma_day_parts(secs: int)
    ensures
        secs == day_of(secs) * 86400 + second_of_day(secs),
        0 <= second_of_day(secs) < 86400,
{
}

/// The day of a timestamp lies between the timestamp and zero.
pub proof fn lemma_day_in_range(secs: int)
    ensures
        secs >= 0 ==> 0 <= day_of(secs) <= secs,
        secs < 0 ==> secs <= day_of(secs) < 0,
{
    lemma_day_parts(secs);
    if secs >= 0 {
        assert(day_of(secs) >= 0) by (nonlinear_arith)
            requires secs == day_of(secs) * 86400 + second_of_day(secs), 0 <= second_of_day(secs) < 86400, secs >= 0;
        assert(day_of(secs) <= secs) by (nonlinear_arith)
            requires secs == day_of(secs) * 86400 + second_of_day(secs), 0 <= second_of_day(secs), day_of(secs) >= 0;
    } else {
        assert(day_of(secs) < 0) by (nonlinear_arith)
            requires secs == day_of(secs) * 86400 + second_of_day(secs), 0 <= second_of_day(secs), secs < 0;
        assert(secs <= day_of(secs)) by (nonlinear_arith)
            requires secs == day_of(secs) * 86400 + second_of_day(secs), second_of_day(secs) < 86400, day_of(secs) < 0;
    }
}

/// Midnight of a day falls on that day, at time zero.
pub proof fn lemma_midnight(d: int)
    ensures
        day_of(d * 86400) == d,
        second_of_day(d * 86400) == 0,
{
    vstd::arithmetic::div_mod::lemma_div_multiples_vanish(d, 86400);
    vstd::arithmetic::div_mod::lemma_mod_multiples_basic(d, 86400);
}

} // verus!
