//! The reservations of an association held in memory: created only through an
//! admission decision, and withdrawn by a soft delete that keeps the record.

use vstd::prelude::*;
use crate::admission::{admission, decision, evaluate};
use crate::error::Rejection;
use crate::reservation::{
    blocks, counts_toward_quota, overlaps, period_count, slot_taken, FieldReservation,
    FieldReservationInput, ReservationStatus,
};
use crate::rules::ReservationRules;
use crate::time::Instant;

verus! {

/// Some record in `s` has the identifier `id`.
pub open spec fn id_taken(s: Seq<FieldReservation>, id: u128) -> bool {
    exists|i: int| 0 <= i < s.len() && #[trigger] s[i].id == id
}

/// No two records in `s` share an identifier.
pub open spec fn ids_unique(s: Seq<FieldReservation>) -> bool {
    forall|i: int, j: int| 0 <= i < s.len() && 0 <= j < s.len() && i != j ==> #[trigger] s[i].id != #[trigger] s[j].id
}

/// No two active reservations of one field overlap.
pub open spec fn no_double_booking(s: Seq<FieldReservation>) -> bool {
    forall|i: int, j: int|
        #![trigger s[i], s[j]]
        0 <= i < s.len() && 0 <= j < s.len() && i != j && s[i].is_active() && s[j].is_active()
            && s[i].field_id == s[j].field_id ==> !overlaps(
            s[i].start_date,
            s[i].end_date,
            s[j].start_date,
            s[j].end_date,
        )
}

/// The position in `s` of the record with identifier `id`.
pub open spec fn index_of(s: Seq<FieldReservation>, id: u128) -> int {
    choose|i: int| 0 <= i < s.len() && #[trigger] s[i].id == id
}

/// The record stored for an admitted request.
pub open spec fn admitted_record(input: FieldReservationInput, id: u128, now: Instant) -> FieldReservation {
    FieldReservation {
        id,
        field_id: input.field_id,
        user_id: input.user_id,
        description: input.description,
        start_date: input.start_date,
        end_date: input.end_date,
        status: ReservationStatus::Active,
        created_at: now,
        updated_at: now,
    }
}

/// `r` after a delete at `now`: an active record becomes deleted as of `now`;
/// a deleted one stays as it was.
pub open spec fn soft_deleted(r: FieldReservation, now: Instant) -> FieldReservation {
    if r.is_active() {
        FieldReservation { status: ReservationStatus::Deleted { at: now }, updated_at: now, ..r }
    } else {
        r
    }
}

/// Stored reservations, each with its own identifier.
pub struct ReservationBook {
    reservations: Vec<FieldReservation>,
}

impl View for ReservationBook {
    type V = Seq<FieldReservation>;

    closed spec fn view(&self) -> Seq<FieldReservation> {
        self.reservations@
    }
}

impl ReservationBook {
    /// Identifiers are unique, and no slot of a field is booked twice.
    pub open spec fn wf(&self) -> bool {
        ids_unique(self@) && no_double_booking(self@)
    }

    pub fn new() -> (r: ReservationBook)
        ensures
            r@ == Seq::<FieldReservation>::empty(),
            r.wf(),
    {
        ReservationBook { reservations: Vec::new() }
    }

    /// All records, deleted ones included, in the order they were created.
    pub fn reservations(&self) -> (r: &Vec<FieldReservation>)
        ensures
            r@ == self@,
    {
        &self.reservations
    }

    pub fn len(&self) -> (r: usize)
        ensures
            r == self@.len(),
    {
        self.reservations.len()
    }

    fn find(&self, id: u128) -> (r: Option<usize>)
        requires
            self.wf(),
        ensures
            r is None <==> !id_taken(self@, id),
            r is Some ==> r->0 == index_of(self@, id) && r->0 < self@.len(),
    {
        let mut i: usize = 0;
        while i < self.reservations.len()
            invariant
                i <= self@.len(),
                self.wf(),
                forall|k: int| 0 <= k < i ==> #[trigger] self@[k].id != id,
            decreases self@.len() - i,
        {
            if self.reservations[i].id == id {
                proof {
                    let j = index_of(self@, id);
                    assert(self@[i as int].id == id);
                    assert(0 <= j < self@.len() && self@[j].id == id);
                    if j != i as int {
                        assert(self@[i as int].id != self@[j].id);
                    }
                }
                return Some(i);
            }
            i = i + 1;
        }
        None
    }

    /// The record with identifier `id`.
    pub fn get(&self, id: u128) -> (r: Result<FieldReservation, Rejection>)
        requires
            self.wf(),
        ensures
            !id_taken(self@, id) ==> r == Err::<FieldReservation, Rejection>(Rejection::StorageError),
            id_taken(self@, id) ==> r == Ok::<FieldReservation, Rejection>(self@[index_of(self@, id)]),
    {
        match self.find(id) {
            None => Err(Rejection::StorageError),
            Some(i) => Ok(self.reservations[i].duplicate()),
        }
    }

    /// Decides `input` at `now` under `rules`; if it is admitted, stores it
    /// under identifier `id` and returns the new record. An identifier already
    /// in use is a storage error, and nothing is stored.
    pub fn create(
        &mut self,
        rules: &Option<ReservationRules>,
        input: FieldReservationInput,
        now: Instant,
        id: u128,
    ) -> (r: Result<FieldReservation, Rejection>)
        requires
            old(self).wf(),
            input.wf(),
        ensures
            final(self).wf(),
            admission(*rules, input, now, old(self)@) is Err ==> r == Err::<FieldReservation, Rejection>(
                admission(*rules, input, now, old(self)@)->Err_0,
            ) && final(self)@ == old(self)@,
            admission(*rules, input, now, old(self)@) is Ok && id_taken(old(self)@, id) ==> r
                == Err::<FieldReservation, Rejection>(Rejection::StorageError) && final(self)@ == old(self)@,
            admission(*rules, input, now, old(self)@) is Ok && !id_taken(old(self)@, id) ==> r
                == Ok::<FieldReservation, Rejection>(admitted_record(input, id, now)) && final(self)@
                == old(self)@.push(admitted_record(input, id, now)),
    {
        match evaluate(rules, &input, now, &self.reservations) {
            Err(e) => return Err(e),
            Ok(()) => {},
        }
        if self.find(id).is_some() {
            return Err(Rejection::StorageError);
        }
        let record = FieldReservation {
            id,
            field_id: input.field_id,
            user_id: input.user_id,
            description: input.description,
            start_date: input.start_date,
            end_date: input.end_date,
            status: ReservationStatus::Active,
            created_at: now,
            updated_at: now,
        };
        let copy = record.duplicate();
        self.reservations.push(record);
        proof {
            let s = self@;
            let n = old(self)@.len() as int;
            assert forall|i: int, j: int| 0 <= i < s.len() && 0 <= j < s.len() && i != j implies #[trigger] s[i].id != #[trigger] s[j].id by {
                if i == n {
                    assert(old(self)@[j].id != id);
                } else if j == n {
                    assert(old(self)@[i].id != id);
                }
            }
            assert forall|i: int, j: int|
                #![trigger s[i], s[j]]
                0 <= i < s.len() && 0 <= j < s.len() && i != j && s[i].is_active() && s[j].is_active()
                    && s[i].field_id == s[j].field_id implies !overlaps(
                    s[i].start_date,
                    s[i].end_date,
                    s[j].start_date,
                    s[j].end_date,
                ) by {
                if i == n {
                    assert(!blocks(old(self)@[j], input.field_id, input.start_date, input.end_date));
                } else if j == n {
                    assert(!blocks(old(self)@[i], input.field_id, input.start_date, input.end_date));
                } else {
                    assert(old(self)@[i] == s[i] && old(self)@[j] == s[j]);
                }
            }
        }
        Ok(copy)
    }

    /// Withdraws reservation `id` on behalf of `user_id` at `now`, keeping the
    /// record. Only its owner may do so; withdrawing a deleted reservation
    /// leaves it as it was.
    pub fn delete(&mut self, id: u128, user_id: u128, now: Instant) -> (r: Result<FieldReservation, Rejection>)
        requires
            old(self).wf(),
        ensures
            final(self).wf(),
            !id_taken(old(self)@, id) ==> r == Err::<FieldReservation, Rejection>(Rejection::StorageError)
                && final(self)@ == old(self)@,
            id_taken(old(self)@, id) && old(self)@[index_of(old(self)@, id)].user_id != user_id ==> r
                == Err::<FieldReservation, Rejection>(Rejection::Unauthorized) && final(self)@ == old(self)@,
            id_taken(old(self)@, id) && old(self)@[index_of(old(self)@, id)].user_id == user_id ==> ({
                let i = index_of(old(self)@, id);
                &&& r == Ok::<FieldReservation, Rejection>(soft_deleted(old(self)@[i], now))
                &&& final(self)@ == old(self)@.update(i, soft_deleted(old(self)@[i], now))
            }),
    {
        let i = match self.find(id) {
            None => return Err(Rejection::StorageError),
            Some(i) => i,
        };
        if self.reservations[i].user_id != user_id {
            return Err(Rejection::Unauthorized);
        }
        let old_record = self.reservations[i].duplicate();
        let updated = if old_record.deleted() {
            old_record
        } else {
            FieldReservation {
                status: ReservationStatus::Deleted { at: now },
                updated_at: now,
                ..old_record
            }
        };
        let copy = updated.duplicate();
        self.reservations.set(i, updated);
        proof {
            let s = self@;
            let o = old(self)@;
            assert forall|a: int, b: int| 0 <= a < s.len() && 0 <= b < s.len() && a != b implies #[trigger] s[a].id != #[trigger] s[b].id by {
                assert(o[a].id != o[b].id);
            }
            assert forall|a: int, b: int|
                #![trigger s[a], s[b]]
                0 <= a < s.len() && 0 <= b < s.len() && a != b && s[a].is_active() && s[b].is_active()
                    && s[a].field_id == s[b].field_id implies !overlaps(
                    s[a].start_date,
                    s[a].end_date,
                    s[b].start_date,
                    s[b].end_date,
                ) by {
                assert(o[a].is_active() && o[b].is_active());
                assert(o[a].field_id == s[a].field_id && o[b].field_id == s[b].field_id);
                assert(o[a].start_date == s[a].start_date && o[b].start_date == s[b].start_date);
                assert(o[a].end_date == s[a].end_date && o[b].end_date == s[b].end_date);
            }
        }
        Ok(copy)
    }
}

/// Replacing a record that counts toward a quota by one that does not lowers
/// the count by one.
pub proof fn lemma_period_count_drops(
    s: Seq<FieldReservation>,
    i: int,
    r: FieldReservation,
    user_id: u128,
    now: Instant,
)
    requires
        0 <= i < s.len(),
        counts_toward_quota(s[i], user_id, now),
        !counts_toward_quota(r, user_id, now),
    ensures
        period_count(s.update(i, r), user_id, now) + 1 == period_count(s, user_id, now),
    decreases s.len(),
{
    let u = s.update(i, r);
    if i == s.len() - 1 {
        assert(u.drop_last() =~= s.drop_last());
    } else {
        assert(u.drop_last() =~= s.drop_last().update(i, r));
        lemma_period_count_drops(s.drop_last(), i, r, user_id, now);
    }
}

/// A user refused for the quota while holding exactly the quota is admitted
/// with the same request once one of the reservations counted is deleted.
pub proof fn lemma_delete_frees_quota(
    rules: ReservationRules,
    field_id: u128,
    user_id: u128,
    start: Instant,
    end: Instant,
    now: Instant,
    stored: Seq<FieldReservation>,
    i: int,
    deleted_at: Instant,
)
    requires
        decision(Some(rules), field_id, user_id, start, end, now, stored) == Err::<(), Rejection>(
            Rejection::QuotaExceeded,
        ),
        period_count(stored, user_id, now) == rules.max_reservations_per_period,
        0 <= i < stored.len(),
        counts_toward_quota(stored[i], user_id, now),
    ensures
        decision(
            Some(rules),
            field_id,
            user_id,
            start,
            end,
            now,
            stored.update(i, soft_deleted(stored[i], deleted_at)),
        ) == Ok::<(), Rejection>(()),
{
    let d = soft_deleted(stored[i], deleted_at);
    let after = stored.update(i, d);
    lemma_period_count_drops(stored, i, d, user_id, now);
    assert(!slot_taken(after, field_id, start, end)) by {
        assert forall|k: int| 0 <= k < after.len() implies !#[trigger] blocks(after[k], field_id, start, end) by {
            if k != i {
                assert(after[k] == stored[k]);
                assert(!blocks(stored[k], field_id, start, end));
            }
        }
    }
}

/// Of two requests for the same field whose intervals overlap, once the first
/// is admitted and stored, the second is refused for the conflict, provided
/// it passes the checks that come before.
pub proof fn lemma_overlapping_request_conflicts(
    rules: Option<ReservationRules>,
    first: FieldReservationInput,
    id: u128,
    second: FieldReservationInput,
    now: Instant,
    stored: Seq<FieldReservation>,
)
    requires
        admission(rules, first, now, stored) is Ok,
        second.field_id == first.field_id,
        overlaps(first.start_date, first.end_date, second.start_date, second.end_date),
        rules is None || rules->0.temporal_verdict(second.start_date, second.end_date, now) is None,
    ensures
        admission(rules, second, now, stored.push(admitted_record(first, id, now)))
            == Err::<(), Rejection>(Rejection::SlotConflict),
{
    let after = stored.push(admitted_record(first, id, now));
    assert(blocks(after[stored.len() as int], second.field_id, second.start_date, second.end_date));
}

} // verus!
