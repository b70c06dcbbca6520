//! Reservation records, and the two storage-side checks: whether a slot is
//! taken, and how many reservations a user holds in a period.

use vstd::prelude::*;
use crate::time::{Instant, SECONDS_PER_DAY};

verus! {

/// Whether a reservation still holds its slot.
#[derive(Clone, Copy, Debug, PartialEq, Eq, Structural)]
pub enum ReservationStatus {
    Active,
    /// Withdrawn by its owner at the given instant; kept for the record.
    Deleted { at: Instant },
}

/// A stored reservation of a field.
#[derive(Debug)]
pub struct FieldReservation {
    pub id: u128,
    pub field_id: u128,
    pub user_id: u128,
    pub description: Option<String>,
    pub start_date: Instant,
    pub end_date: Instant,
    pub status: ReservationStatus,
    pub created_at: Instant,
    pub updated_at: Instant,
}

/// A request to reserve a field from `start_date` to `end_date`.
#[derive(Debug)]
pub struct FieldReservationInput {
    pub field_id: u128,
    pub user_id: u128,
    pub description: Option<String>,
    pub start_date: Instant,
    pub end_date: Instant,
}

impl FieldReservationInput {
    /// The interval is not empty.
    pub open spec fn wf(self) -> bool {
        self.start_date.secs < self.end_date.secs
    }
}

pub(crate) fn clone_optional_string(d: &Option<String>) -> (r: Option<String>)
    ensures
        r == *d,
{
    match d {
        Some(s) => Some(s.clone()),
        None => None,
    }
}

impl FieldReservation {
    pub open spec fn is_active(self) -> bool {
        self.status is Active
    }

    pub fn deleted(&self) -> (r: bool)
        ensures
            r == !self.is_active(),
    {
        match self.status {
            ReservationStatus::Active => false,
            ReservationStatus::Deleted { .. } => true,
        }
    }

    /// A copy of this record.
    pub fn duplicate(&self) -> (r: FieldReservation)
        ensures
            r == *self,
    {
        FieldReservation {
            id: self.id,
            field_id: self.field_id,
            user_id: self.user_id,
            description: clone_optional_string(&self.description),
            start_date: self.start_date,
            end_date: self.end_date,
            status: self.status,
            created_at: self.created_at,
            updated_at: self.updated_at,
        }
    }
}

/// The half-open intervals `[a_start, a_end)` and `[b_start, b_end)` share an instant.
pub open spec fn overlaps(a_start: Instant, a_end: Instant, b_start: Instant, b_end: Instant) -> bool {
    a_start.secs < b_end.secs && a_end.secs > b_start.secs
}

/// `r` keeps a request for `[start, end)` on field `field_id` from being admitted.
pub open spec fn blocks(r: FieldReservation, field_id: u128, start: Instant, end: Instant) -> bool {
    r.is_active() && r.field_id == field_id && overlaps(r.start_date, r.end_date, start, end)
}

/// Some reservation in `s` blocks the slot.
pub open spec fn slot_taken(s: Seq<FieldReservation>, field_id: u128, start: Instant, end: Instant) -> bool {
    exists|i: int| 0 <= i < s.len() && #[trigger] blocks(s[i], field_id, start, end)
}

/// `r` counts toward the daily quota of `user_id` on the day of `now`: it is
/// active, it is the user's, and it starts on that day.
pub open spec fn counts_toward_quota(r: FieldReservation, user_id: u128, now: Instant) -> bool {
    r.is_active() && r.user_id == user_id && r.start_date.day() == now.day()
}

/// How many reservations in `s` count toward the quota of `user_id` on the day of `now`.
pub open spec fn period_count(s: Seq<FieldReservation>, user_id: u128, now: Instant) -> nat
    decreases s.len(),
{
    if s.len() == 0 {
        0
    } else {
        period_count(s.drop_last(), user_id, now) + if counts_toward_quota(s.last(), user_id, now) {
            1nat
        } else {
            0nat
        }
    }
}

pub fn overlaps_interval(a_start: Instant, a_end: Instant, b_start: Instant, b_end: Instant) -> (r: bool)
    ensures
        r == overlaps(a_start, a_end, b_start, b_end),
{
    a_start.secs < b_end.secs && a_end.secs > b_start.secs
}

/// Whether an active reservation of field `field_id` overlaps `[start, end)`.
pub fn has_overlap(existing: &Vec<FieldReservation>, field_id: u128, start: Instant, end: Instant) -> (r: bool)
    ensures
        r == slot_taken(existing@, field_id, start, end),
{
    let mut i: usize = 0;
    while i < existing.len()
        invariant
            i <= existing@.len(),
            forall|k: int| 0 <= k < i ==> !#[trigger] blocks(existing@[k], field_id, start, end),
        decreases existing@.len() - i,
    {
        let r = &existing[i];
        if !r.deleted() && r.field_id == field_id && overlaps_interval(r.start_date, r.end_date, start, end) {
            assert(blocks(existing@[i as int], field_id, start, end));
            return true;
        }
        i = i + 1;
    }
    false
}

/// How many active reservations of `user_id` start on the day of `now`.
pub fn count_user_reservations_in_period(existing: &Vec<FieldReservation>, user_id: u128, now: Instant) -> (r: usize)
    ensures
        r == period_count(existing@, user_id, now),
{
    let today = now.date();
    let mut count: usize = 0;
    let mut i: usize = 0;
    while i < existing.len()
        invariant
            i <= existing@.len(),
            today == now.day(),
            count == period_count(existing@.subrange(0, i as int), user_id, now),
            count <= i,
        decreases existing@.len() - i,
    {
        let r = &existing[i];
        proof {
            let s = existing@.subrange(0, i as int + 1);
            assert(s.drop_last() =~= existing@.subrange(0, i as int));
            assert(s.last() == existing@[i as int]);
        }
        if !r.deleted() && r.user_id == user_id && r.start_date.date() == today {
            count = count + 1;
        }
        i = i + 1;
    }
    assert(existing@.subrange(0, existing@.len() as int) =~= existing@);
    count
}

/// The longest span, in days, over which a field's reservations are listed at once.
pub const MAX_LISTING_DAYS: i64 = 30;

/// `r` is an active reservation of field `field_id` lying within `[from, to]`.
pub open spec fn listed_between(r: FieldReservation, field_id: u128, from: Instant, to: Instant) -> bool {
    r.is_active() && r.field_id == field_id && r.start_date.secs >= from.secs && r.end_date.secs <= to.secs
}

/// The reservations of `s` listed for field `field_id` between `from` and `to`, in order.
pub open spec fn listing(s: Seq<FieldReservation>, field_id: u128, from: Instant, to: Instant) -> Seq<FieldReservation>
    decreases s.len(),
{
    if s.len() == 0 {
        Seq::empty()
    } else if listed_between(s.last(), field_id, from, to) {
        listing(s.drop_last(), field_id, from, to).push(s.last())
    } else {
        listing(s.drop_last(), field_id, from, to)
    }
}

/// The active reservations of field `field_id` lying between `from` and `to`,
/// or `None` where the span reaches 30 days.
pub fn field_reservations_between(
    existing: &Vec<FieldReservation>,
    field_id: u128,
    from: Instant,
    to: Instant,
) -> (r: Option<Vec<FieldReservation>>)
    ensures
        to.secs - from.secs >= 30 * 86400 ==> r is None,
        to.secs - from.secs < 30 * 86400 ==> r is Some && r->0@ == listing(existing@, field_id, from, to),
{
    if to.secs as i128 - from.secs as i128 >= (MAX_LISTING_DAYS * SECONDS_PER_DAY) as i128 {
        return None;
    }
    let mut out: Vec<FieldReservation> = Vec::new();
    let mut i: usize = 0;
    while i < existing.len()
        invariant
            i <= existing@.len(),
            out@ == listing(existing@.subrange(0, i as int), field_id, from, to),
        decreases existing@.len() - i,
    {
        let r = &existing[i];
        proof {
            let s = existing@.subrange(0, i as int + 1);
            assert(s.drop_last() =~= existing@.subrange(0, i as int));
            assert(s.last() == existing@[i as int]);
        }
        if !r.deleted() && r.field_id == field_id && r.start_date.secs >= from.secs && r.end_date.secs <= to.secs {
            out.push(r.duplicate());
        }
        i = i + 1;
    }
    assert(existing@.subrange(0, existing@.len() as int) =~= existing@);
    Some(out)
}

} // verus!
