//! The admission decision for a reservation request.
//!
//! The checks run in a fixed order and stop at the first failure: the day,
//! the opening time, the length (these need no storage), then a conflicting
//! reservation of the field, then the user's quota for the period. A field
//! without rules skips every check but the conflict check.

use vstd::prelude::*;
use crate::error::Rejection;
use crate::reservation::{
    count_user_reservations_in_period, has_overlap, period_count, slot_taken, FieldReservation,
    FieldReservationInput,
};
use crate::rules::{span_seconds, ReservationPeriod, ReservationRules};
use crate::time::Instant;

verus! {

/// The decision on a request from `start` to `end` made at `now`, given
/// whether its slot is taken and how many reservations its user holds in the
/// current period: the first check that fails, in the fixed order.
pub open spec fn ordered_verdict(
    rules: Option<ReservationRules>,
    start: Instant,
    end: Instant,
    now: Instant,
    taken: bool,
    user_count: int,
) -> Result<(), Rejection> {
    if rules is Some && rules->0.temporal_verdict(start, end, now) is Some {
        Err(rules->0.temporal_verdict(start, end, now)->0)
    } else if taken {
        Err(Rejection::SlotConflict)
    } else if rules is Some && user_count >= rules->0.max_reservations_per_period {
        Err(Rejection::QuotaExceeded)
    } else {
        Ok(())
    }
}

/// The decision on a request by `user_id` for field `field_id` from `start` to
/// `end`, made at `now`, with `stored` the reservations in storage.
pub open spec fn decision(
    rules: Option<ReservationRules>,
    field_id: u128,
    user_id: u128,
    start: Instant,
    end: Instant,
    now: Instant,
    stored: Seq<FieldReservation>,
) -> Result<(), Rejection> {
    ordered_verdict(
        rules,
        start,
        end,
        now,
        slot_taken(stored, field_id, start, end),
        period_count(stored, user_id, now) as int,
    )
}

/// The decision on `input`, made at `now` against `stored`.
pub open spec fn admission(
    rules: Option<ReservationRules>,
    input: FieldReservationInput,
    now: Instant,
    stored: Seq<FieldReservation>,
) -> Result<(), Rejection> {
    decision(rules, input.field_id, input.user_id, input.start_date, input.end_date, now, stored)
}

impl ReservationRules {
    /// Decides a request under these rules, against the reservations in `existing`.
    pub fn can_reserve(
        &self,
        field_id: u128,
        user_id: u128,
        start_date_time: Instant,
        end_date_time: Instant,
        now: Instant,
        existing: &Vec<FieldReservation>,
    ) -> (r: Result<(), Rejection>)
        requires
            start_date_time.secs < end_date_time.secs,
        ensures
            r == decision(Some(*self), field_id, user_id, start_date_time, end_date_time, now, existing@),
    {
        match self.check_temporal(start_date_time, end_date_time, now) {
            Err(e) => return Err(e),
            Ok(()) => {},
        }
        if has_overlap(existing, field_id, start_date_time, end_date_time) {
            return Err(Rejection::SlotConflict);
        }
        let count = count_user_reservations_in_period(existing, user_id, now);
        self.check_quota(count as u64)
    }
}

/// Decides `input` at `now` under the field's rules, if it has any, against
/// the reservations in `existing`.
pub fn evaluate(
    rules: &Option<ReservationRules>,
    input: &FieldReservationInput,
    now: Instant,
    existing: &Vec<FieldReservation>,
) -> (r: Result<(), Rejection>)
    requires
        input.wf(),
    ensures
        r == admission(*rules, *input, now, existing@),
{
    match rules {
        Some(rules) => rules.can_reserve(
            input.field_id,
            input.user_id,
            input.start_date,
            input.end_date,
            now,
            existing,
        ),
        None => {
            if has_overlap(existing, input.field_id, input.start_date, input.end_date) {
                Err(Rejection::SlotConflict)
            } else {
                Ok(())
            }
        },
    }
}

/// Decides `input` at `now` under the field's rules, if any, from what
/// storage answered: `overlapping`, the reservations it returned for the slot,
/// and `user_count`, how many active reservations the user holds in the
/// current period.
pub fn decide(
    rules: &Option<ReservationRules>,
    input: &FieldReservationInput,
    now: Instant,
    overlapping: &Vec<FieldReservation>,
    user_count: u64,
) -> (r: Result<(), Rejection>)
    ensures
        r == ordered_verdict(
            *rules,
            input.start_date,
            input.end_date,
            now,
            slot_taken(overlapping@, input.field_id, input.start_date, input.end_date),
            user_count as int,
        ),
{
    if let Some(rules) = rules {
        match rules.check_temporal(input.start_date, input.end_date, now) {
            Err(e) => return Err(e),
            Ok(()) => {},
        }
    }
    if has_overlap(overlapping, input.field_id, input.start_date, input.end_date) {
        return Err(Rejection::SlotConflict);
    }
    match rules {
        Some(rules) => rules.check_quota(user_count),
        None => Ok(()),
    }
}

/// The conflict check on what storage returned for the requested slot.
pub fn check_slot(
    overlapping: &Vec<FieldReservation>,
    input: &FieldReservationInput,
) -> (r: Result<(), Rejection>)
    ensures
        r == (if slot_taken(overlapping@, input.field_id, input.start_date, input.end_date) {
            Err(Rejection::SlotConflict)
        } else {
            Ok(())
        }),
{
    if has_overlap(overlapping, input.field_id, input.start_date, input.end_date) {
        Err(Rejection::SlotConflict)
    } else {
        Ok(())
    }
}

/// Under daily rules, a request that does not start on the day of `now` is
/// refused as being for the wrong day, whatever else holds of it.
pub proof fn lemma_wrong_day_rejected(
    rules: ReservationRules,
    field_id: u128,
    user_id: u128,
    start: Instant,
    end: Instant,
    now: Instant,
    stored: Seq<FieldReservation>,
)
    requires
        rules.reservation_period == ReservationPeriod::Daily,
        start.day() != now.day(),
    ensures
        decision(Some(rules), field_id, user_id, start, end, now, stored) == Err::<(), Rejection>(
            Rejection::WrongDay,
        ),
{
}

/// A request for the day of `now`, made before the day's opening time, is
/// refused as too early.
pub proof fn lemma_too_early_rejected(
    rules: ReservationRules,
    field_id: u128,
    user_id: u128,
    start: Instant,
    end: Instant,
    now: Instant,
    stored: Seq<FieldReservation>,
)
    requires
        start.day() == now.day(),
        now.time_of_day() < rules.reservations_start_at_time_utc@,
    ensures
        decision(Some(rules), field_id, user_id, start, end, now, stored) == Err::<(), Rejection>(
            Rejection::TooEarly,
        ),
{
}

/// A request longer than the rules allow is refused for its length, whatever
/// the stored reservations, once its day and the opening time are right.
pub proof fn lemma_too_long_rejected(
    rules: ReservationRules,
    field_id: u128,
    user_id: u128,
    start: Instant,
    end: Instant,
    now: Instant,
    stored: Seq<FieldReservation>,
)
    requires
        rules.within_cutoff(now, start),
        span_seconds(start, end) > 60 * rules.max_duration_minutes,
    ensures
        decision(Some(rules), field_id, user_id, start, end, now, stored) == Err::<(), Rejection>(
            Rejection::DurationExceeded,
        ),
{
}

/// A user who already holds the period's quota of active reservations is
/// refused a further one that passes the earlier checks.
pub proof fn lemma_quota_exhausted_rejected(
    rules: ReservationRules,
    field_id: u128,
    user_id: u128,
    start: Instant,
    end: Instant,
    now: Instant,
    stored: Seq<FieldReservation>,
)
    requires
        rules.temporal_verdict(start, end, now) is None,
        !slot_taken(stored, field_id, start, end),
        period_count(stored, user_id, now) >= rules.max_reservations_per_period,
    ensures
        decision(Some(rules), field_id, user_id, start, end, now, stored) == Err::<(), Rejection>(
            Rejection::QuotaExceeded,
        ),
{
}

/// A decision depends only on the rules, the request, the instant and what
/// storage holds: deciding the same request again, at the same instant and
/// against unchanged storage, gives the same decision.
pub proof fn lemma_decision_repeatable(
    rules: Option<ReservationRules>,
    input: FieldReservationInput,
    again: FieldReservationInput,
    now: Instant,
    stored: Seq<FieldReservation>,
    stored_again: Seq<FieldReservation>,
)
    requires
        again == input,
        stored_again == stored,
    ensures
        admission(rules, again, now, stored_again) == admission(rules, input, now, stored),
{
}

} // verus!
