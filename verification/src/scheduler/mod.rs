pub mod laws;
pub mod models;
pub mod store;

use vstd::prelude::*;

pub use models::{Booking, BookingRequest, CreateBooking, CreateTimeSlot, TimeSlot, UpdateTimeSlot};

use crate::calendar::{moscow_today, utc_now, Date, TimeOfDay, UtcTimestamp};
use crate::error::AppError;
use crate::ids::new_uuid;
use models::{booking_from, make_booking};
use store::{
    has_id, insertion_point, keys_match, lemma_keys_match, lemma_map_at, lemma_map_insert,
    lemma_map_len, lemma_map_remove, lemma_sorted_insert, lemma_sorted_remove,
    position_of, slot_key_lt, slot_map, sorted_slots, unique_ids,
};

verus! {

/// The text of the error for a booking on today's or an earlier date.
pub open spec fn past_date_message() -> Seq<char> {
    "Нельзя записываться на слоты в текущие и прошедшие даты"@
}

/// The slot that a creation request makes under id `id`: free, unbooked, not completed.
pub open spec fn new_slot(id: u128, req: CreateTimeSlot) -> TimeSlot {
    TimeSlot {
        id,
        start_time: req.start_time,
        end_time: req.end_time,
        date: req.date,
        is_available: true,
        booking: None,
        yougile_task_id: None,
        completed: false,
    }
}

/// A booking carries the company data of a request: name, admin e-mail, company id and
/// download e-mail, each as given.
pub open spec fn booking_matches(b: Booking, req: CreateBooking) -> bool {
    &&& b.company_name == req.company_name
    &&& b.admin_email == req.admin_email
    &&& b.company_id == req.company_id
    &&& b.download_email == req.download_email
}

/// A slot after it is booked by `req` at instant `now`.
pub open spec fn booked_slot(slot: TimeSlot, req: CreateBooking, now: UtcTimestamp) -> TimeSlot {
    TimeSlot {
        id: slot.id,
        start_time: slot.start_time,
        end_time: slot.end_time,
        date: slot.date,
        is_available: false,
        booking: Some(booking_from(req, now)),
        yougile_task_id: slot.yougile_task_id,
        completed: slot.completed,
    }
}

/// A slot with its tracker task id set.
pub open spec fn slot_with_task(slot: TimeSlot, task_id: String) -> TimeSlot {
    TimeSlot {
        id: slot.id,
        start_time: slot.start_time,
        end_time: slot.end_time,
        date: slot.date,
        is_available: slot.is_available,
        booking: slot.booking,
        yougile_task_id: Some(task_id),
        completed: slot.completed,
    }
}

/// The start time a slot has after an update.
pub open spec fn updated_start(slot: TimeSlot, u: UpdateTimeSlot) -> TimeOfDay {
    match u.start_time {
        Some(t) => t,
        None => slot.start_time,
    }
}

/// The end time a slot has after an update.
pub open spec fn updated_end(slot: TimeSlot, u: UpdateTimeSlot) -> TimeOfDay {
    match u.end_time {
        Some(t) => t,
        None => slot.end_time,
    }
}

/// Availability and booking after the update's `is_available`: opening a slot drops its
/// booking.
pub open spec fn after_availability(slot: TimeSlot, u: UpdateTimeSlot) -> (bool, Option<Booking>) {
    match u.is_available {
        Some(a) => (a, if a { None } else { slot.booking }),
        None => (slot.is_available, slot.booking),
    }
}

/// Availability and booking after the whole update: a new booking closes the slot.
pub open spec fn after_booking(slot: TimeSlot, u: UpdateTimeSlot, now: UtcTimestamp) -> (
    bool,
    Option<Booking>,
) {
    match u.booking {
        Some(b) => (false, Some(booking_from(b, now))),
        None => after_availability(slot, u),
    }
}

/// A slot after the update `u`, made at instant `now`.
pub open spec fn updated_slot(slot: TimeSlot, u: UpdateTimeSlot, now: UtcTimestamp) -> TimeSlot {
    TimeSlot {
        id: slot.id,
        start_time: updated_start(slot, u),
        end_time: updated_end(slot, u),
        date: match u.date {
            Some(d) => d,
            None => slot.date,
        },
        is_available: after_booking(slot, u, now).0,
        booking: after_booking(slot, u, now).1,
        yougile_task_id: slot.yougile_task_id,
        completed: match u.completed {
            Some(c) => c,
            None => slot.completed,
        },
    }
}

/// Whether a date lies within the optional inclusive bounds `from` and `to`.
pub open spec fn date_in_range(d: Date, from: Option<Date>, to: Option<Date>) -> bool {
    &&& (from matches Some(f) ==> f.day() <= d.day())
    &&& (to matches Some(t) ==> d.day() <= t.day())
}

/// The map that loading the slots `s` in order builds: a later slot replaces an earlier
/// one with the same id.
pub open spec fn loaded_map(s: Seq<TimeSlot>) -> Map<u128, TimeSlot>
    decreases s.len(),
{
    if s.len() == 0 {
        Map::empty()
    } else {
        loaded_map(s.drop_last()).insert(s.last().id, s.last())
    }
}

/// The store of migration slots, kept in order of date, start time and id.
pub struct Scheduler {
    slots: Vec<TimeSlot>,
}

impl View for Scheduler {
    type V = Map<u128, TimeSlot>;

    /// The slots by id.
    closed spec fn view(&self) -> Map<u128, TimeSlot> {
        slot_map(self.slots@)
    }
}

impl Scheduler {
    #[verifier::type_invariant]
    spec fn inv(self) -> bool {
        sorted_slots(self.slots@) && unique_ids(self.slots@)
    }

    /// Every slot is stored under its own id.
    pub proof fn lemma_keys_match(self)
        ensures
            keys_match(self@),
    {
        lemma_keys_match(self.slots@);
    }

    /// An empty store.
    pub fn new() -> (r: Scheduler)
        ensures
            r@ == Map::<u128, TimeSlot>::empty(),
    {
        let r = Scheduler { slots: Vec::new() };
        assert(r@ =~= Map::<u128, TimeSlot>::empty());
        r
    }

    fn take_slots(&mut self) -> (v: Vec<TimeSlot>)
        ensures
            v@ == old(self).slots@,
            sorted_slots(v@),
            unique_ids(v@),
    {
        proof {
            use_type_invariant(&*self);
        }
        let mut v: Vec<TimeSlot> = Vec::new();
        std::mem::swap(&mut v, &mut self.slots);
        v
    }

    /// Inserts or replaces the slot with the id of `slot`.
    fn upsert(&mut self, slot: TimeSlot)
        ensures
            final(self)@ == old(self)@.insert(slot.id, slot),
    {
        let mut v = self.take_slots();
        let ghost s0 = v@;
        match position_of(&v, slot.id) {
            Some(i) => {
                proof {
                    lemma_map_remove(v@, i as int);
                    lemma_sorted_remove(v@, i as int);
                }
                v.remove(i);
            },
            None => {},
        }
        let ghost s1 = v@;
        assert(!has_id(s1, slot.id)) by {
            if has_id(s1, slot.id) {
                let j = choose|j: int| 0 <= j < s1.len() && (#[trigger] s1[j]).id == slot.id;
                lemma_map_at(s1, j);
            }
        }
        assert(slot_map(s1) == slot_map(s0).remove(slot.id)) by {
            if !has_id(s0, slot.id) {
                assert(slot_map(s0).remove(slot.id) =~= slot_map(s0));
            }
        }
        let k = insertion_point(&v, &slot);
        proof {
            lemma_map_insert(s1, k as int, slot);
            lemma_sorted_insert(s1, k as int, slot);
            assert(slot_map(s0).remove(slot.id).insert(slot.id, slot) =~= slot_map(s0).insert(
                slot.id,
                slot,
            ));
        }
        v.insert(k, slot);
        self.slots = v;
    }

    /// A store holding `slots`, loaded in order; a later slot replaces an earlier one with
    /// the same id.
    pub fn from_slots(slots: Vec<TimeSlot>) -> (r: Scheduler)
        ensures
            r@ == loaded_map(slots@),
    {
        let mut r = Scheduler::new();
        let mut i: usize = 0;
        while i < slots.len()
            invariant
                i <= slots.len(),
                r@ == loaded_map(slots@.take(i as int)),
            decreases slots.len() - i,
        {
            proof {
                assert(slots@.take(i + 1).drop_last() =~= slots@.take(i as int));
            }
            r.upsert(slots[i].clone());
            i = i + 1;
        }
        assert(slots@.take(slots.len() as int) =~= slots@);
        r
    }

    /// The number of slots.
    pub fn slot_count(&self) -> (r: usize)
        ensures
            self@.dom().finite(),
            r == self@.dom().len(),
    {
        proof {
            use_type_invariant(self);
            lemma_map_len(self.slots@);
        }
        self.slots.len()
    }

    /// The slot with id `id`, if there is one.
    pub fn get_slot(&self, id: u128) -> (r: Option<TimeSlot>)
        ensures
            r == (if self@.contains_key(id) {
                Some(self@[id])
            } else {
                None
            }),
    {
        proof {
            use_type_invariant(self);
        }
        match position_of(&self.slots, id) {
            Some(i) => {
                proof {
                    lemma_map_at(self.slots@, i as int);
                }
                Some(self.slots[i].clone())
            },
            None => None,
        }
    }

    /// The slots whose dates lie within the inclusive bounds `from` and `to` (a missing
    /// bound leaves that side open), in order of date, start time and id.
    pub fn get_slots_in_range(&self, from: Option<Date>, to: Option<Date>) -> (r: Vec<TimeSlot>)
        ensures
            forall|x: TimeSlot| #[trigger]
                r@.contains(x) ==> (from matches Some(f) ==> f.day() <= x.date.day()) && (
                to matches Some(t) ==> x.date.day() <= t.day()),
            sorted_slots(r@),
            forall|x: TimeSlot| #[trigger]
                r@.contains(x) <==> (self@.contains_key(x.id) && self@[x.id] == x
                    && date_in_range(x.date, from, to)),
    {
        proof {
            use_type_invariant(self);
        }
        let ghost s = self.slots@;
        let mut r: Vec<TimeSlot> = Vec::new();
        let ghost mut idx: Seq<int> = Seq::empty();
        let mut i: usize = 0;
        while i < self.slots.len()
            invariant
                s == self.slots@,
                sorted_slots(s),
                unique_ids(s),
                i <= s.len(),
                idx.len() == r@.len(),
                forall|k: int| 0 <= k < idx.len() ==> 0 <= #[trigger] idx[k] < i,
                forall|k: int, l: int| 0 <= k < l < idx.len() ==> #[trigger] idx[k] < #[trigger] idx[l],
                forall|k: int| 0 <= k < idx.len() ==> r@[k] == s[#[trigger] idx[k]],
                forall|j: int|
                    0 <= j < i && date_in_range(#[trigger] s[j].date, from, to) ==> exists|k: int|
                        0 <= k < idx.len() && idx[k] == j,
                forall|k: int| 0 <= k < idx.len() ==> date_in_range(s[#[trigger] idx[k]].date, from, to),
            decreases s.len() - i,
        {
            let d = self.slots[i].date;
            let lower_ok = match &from {
                Some(f) => !d.is_before(f),
                None => true,
            };
            let upper_ok = match &to {
                Some(t) => !t.is_before(&d),
                None => true,
            };
            if lower_ok && upper_ok {
                let c = self.slots[i].clone();
                r.push(c);
                proof {
                    let old_idx = idx;
                    idx = idx.push(i as int);
                    assert forall|j: int|
                        0 <= j < i + 1 && date_in_range(#[trigger] s[j].date, from, to) implies exists|k: int|
                        0 <= k < idx.len() && idx[k] == j by {
                        if j < i {
                            let k = choose|k: int| 0 <= k < old_idx.len() && old_idx[k] == j;
                            assert(idx[k] == j);
                        } else {
                            assert(idx[idx.len() - 1] == j);
                        }
                    }
                }
            }
            i = i + 1;
        }
        proof {
            assert forall|k: int, l: int| 0 <= k < l < r@.len() implies slot_key_lt(
                #[trigger] r@[k],
                #[trigger] r@[l],
            ) by {
                assert(idx[k] < idx[l]);
            }
            assert forall|x: TimeSlot| #[trigger]
                r@.contains(x) <==> (self@.contains_key(x.id) && self@[x.id] == x
                    && date_in_range(x.date, from, to)) by {
                if r@.contains(x) {
                    let k = choose|k: int| 0 <= k < r@.len() && r@[k] == x;
                    lemma_map_at(s, idx[k]);
                }
                if self@.contains_key(x.id) && self@[x.id] == x && date_in_range(x.date, from, to) {
                    let j = choose|j: int| 0 <= j < s.len() && (#[trigger] s[j]).id == x.id;
                    lemma_map_at(s, j);
                    assert(date_in_range(s[j].date, from, to));
                    let k = choose|k: int| 0 <= k < idx.len() && idx[k] == j;
                    assert(r@[k] == x);
                }
            }
        }
        r
    }
    /// Removes the slot with id `id`; false where there is none.
    fn remove_id(&mut self, id: u128) -> (found: bool)
        ensures
            found == old(self)@.contains_key(id),
            final(self)@ == old(self)@.remove(id),
    {
        let mut v = self.take_slots();
        let ghost s0 = v@;
        match position_of(&v, id) {
            Some(i) => {
                proof {
                    lemma_map_remove(v@, i as int);
                    lemma_sorted_remove(v@, i as int);
                }
                v.remove(i);
                self.slots = v;
                true
            },
            None => {
                assert(slot_map(s0).remove(id) =~= slot_map(s0));
                self.slots = v;
                false
            },
        }
    }

    /// Adds a free slot made from `req` under the id `id`. The start must come before the end.
    /// A slot already stored under `id` is replaced, as the id index of the store points to
    /// the newest slot with an id.
    pub fn create_slot_with_id(&mut self, id: u128, req: CreateTimeSlot) -> (r: Result<
        TimeSlot,
        AppError,
    >)
        ensures
            !req.start_time.precedes(req.end_time) ==> r == Err::<TimeSlot, AppError>(
                AppError::InvalidTimeRange,
            ) && final(self)@ == old(self)@,
            req.start_time.precedes(req.end_time) ==> r == Ok::<TimeSlot, AppError>(
                new_slot(id, req),
            ) && final(self)@ == old(self)@.insert(id, new_slot(id, req)),
    {
        if !req.start_time.is_before(&req.end_time) {
            return Err(AppError::InvalidTimeRange);
        }
        let slot = TimeSlot {
            id,
            start_time: req.start_time,
            end_time: req.end_time,
            date: req.date,
            is_available: true,
            booking: None,
            yougile_task_id: None,
            completed: false,
        };
        let result = slot.clone();
        self.upsert(slot);
        Ok(result)
    }

    /// Adds a free slot made from `req` under a freshly drawn random id. The start must
    /// come before the end; every request where it does succeeds.
    pub fn create_slot(&mut self, req: CreateTimeSlot) -> (r: Result<TimeSlot, AppError>)
        ensures
            !req.start_time.precedes(req.end_time) ==> r == Err::<TimeSlot, AppError>(
                AppError::InvalidTimeRange,
            ) && final(self)@ == old(self)@,
            req.start_time.precedes(req.end_time) ==> match r {
                Ok(s) => s == new_slot(s.id, req) && final(self)@ == old(self)@.insert(s.id, s),
                Err(_) => false,
            },
    {
        if !req.start_time.is_before(&req.end_time) {
            return Err(AppError::InvalidTimeRange);
        }
        let id = new_uuid();
        self.create_slot_with_id(id, req)
    }

    /// Books the slot with id `id` for the company of `req`, given today's date `today`
    /// and the current instant `now`. Only a free slot on a date after `today` can be booked.
    pub fn book_slot_at(
        &mut self,
        id: u128,
        req: CreateBooking,
        today: Date,
        now: UtcTimestamp,
    ) -> (r: Result<TimeSlot, AppError>)
        ensures
            match r {
                Ok(x) => x.id == id && !x.is_available && (x.booking matches Some(b)
                    && booking_matches(b, req) && b.created_at == now),
                Err(_) => true,
            },
            !old(self)@.contains_key(id) ==> r == Err::<TimeSlot, AppError>(AppError::SlotNotFound)
                && final(self)@ == old(self)@,
            old(self)@.contains_key(id) && !old(self)@[id].is_available ==> r == Err::<
                TimeSlot,
                AppError,
            >(AppError::SlotAlreadyBooked) && final(self)@ == old(self)@,
            old(self)@.contains_key(id) && old(self)@[id].is_available && old(self)@[id].date.day()
                <= today.day() ==> (r matches Err(AppError::Other(m)) && m@ == past_date_message())
                && final(self)@ == old(self)@,
            old(self)@.contains_key(id) && old(self)@[id].is_available && today.day() < old(self)@[id].date.day() ==> r == Ok::<TimeSlot, AppError>(
                booked_slot(old(self)@[id], req, now),
            ) && final(self)@ == old(self)@.insert(id, booked_slot(old(self)@[id], req, now)),
    {
        let slot = match self.get_slot(id) {
            Some(s) => s,
            None => return Err(AppError::SlotNotFound),
        };
        if !slot.is_available {
            return Err(AppError::SlotAlreadyBooked);
        }
        if !today.is_before(&slot.date) {
            return Err(
                AppError::Other(
                    String::from_str("Нельзя записываться на слоты в текущие и прошедшие даты"),
                ),
            );
        }
        let new = TimeSlot {
            id: slot.id,
            start_time: slot.start_time,
            end_time: slot.end_time,
            date: slot.date,
            is_available: false,
            booking: Some(make_booking(req, now)),
            yougile_task_id: slot.yougile_task_id,
            completed: slot.completed,
        };
        proof {
            self.lemma_keys_match();
        }
        let result = new.clone();
        self.upsert(new);
        Ok(result)
    }

    /// Books the slot with id `id` for the company of `req`, reading today's date in Moscow
    /// and the current instant from the clock. Only a free slot on a date after today can be
    /// booked.
    pub fn book_slot(&mut self, id: u128, req: CreateBooking) -> (r: Result<TimeSlot, AppError>)
        ensures
            match r {
                Ok(x) => x.id == id && !x.is_available && (x.booking matches Some(b)
                    && booking_matches(b, req)),
                Err(_) => true,
            },
            !old(self)@.contains_key(id) ==> r == Err::<TimeSlot, AppError>(AppError::SlotNotFound)
                && final(self)@ == old(self)@,
            old(self)@.contains_key(id) && !old(self)@[id].is_available ==> r == Err::<
                TimeSlot,
                AppError,
            >(AppError::SlotAlreadyBooked) && final(self)@ == old(self)@,
            old(self)@.contains_key(id) && old(self)@[id].is_available ==> match r {
                Ok(s) => (s.booking matches Some(b) && s == booked_slot(
                    old(self)@[id],
                    req,
                    b.created_at,
                )) && final(self)@ == old(self)@.insert(id, s),
                Err(e) => (e matches AppError::Other(m) && m@ == past_date_message()) && final(self)@ == old(self)@,
            },
    {
        let today = moscow_today();
        let now = utc_now();
        self.book_slot_at(id, req, today, now)
    }
    /// Removes the slot with id `id`.
    pub fn delete_slot(&mut self, id: u128) -> (r: Result<bool, AppError>)
        ensures
            !old(self)@.contains_key(id) ==> r == Err::<bool, AppError>(AppError::SlotNotFound)
                && final(self)@ == old(self)@,
            old(self)@.contains_key(id) ==> r == Ok::<bool, AppError>(true) && final(self)@ == old(self)@.remove(id),
    {
        if self.remove_id(id) {
            Ok(true)
        } else {
            Err(AppError::SlotNotFound)
        }
    }

    /// Records the tracker task id of the slot with id `id`.
    pub fn set_yougile_task_id(&mut self, id: u128, task_id: String) -> (r: Result<
        TimeSlot,
        AppError,
    >)
        ensures
            !old(self)@.contains_key(id) ==> r == Err::<TimeSlot, AppError>(AppError::SlotNotFound)
                && final(self)@ == old(self)@,
            old(self)@.contains_key(id) ==> r == Ok::<TimeSlot, AppError>(
                slot_with_task(old(self)@[id], task_id),
            ) && final(self)@ == old(self)@.insert(id, slot_with_task(old(self)@[id], task_id)),
    {
        let slot = match self.get_slot(id) {
            Some(s) => s,
            None => return Err(AppError::SlotNotFound),
        };
        proof {
            self.lemma_keys_match();
        }
        let new = TimeSlot {
            id: slot.id,
            start_time: slot.start_time,
            end_time: slot.end_time,
            date: slot.date,
            is_available: slot.is_available,
            booking: slot.booking,
            yougile_task_id: Some(task_id),
            completed: slot.completed,
        };
        let result = new.clone();
        self.upsert(new);
        Ok(result)
    }

    /// Applies the update `u`, made at instant `now`, to the slot with id `id`. The
    /// resulting start must come before the resulting end.
    pub fn update_slot_at(&mut self, id: u128, u: UpdateTimeSlot, now: UtcTimestamp) -> (r: Result<
        TimeSlot,
        AppError,
    >)
        ensures
            match r {
                Ok(x) => {
                    let s = old(self)@[id];
                    &&& x.id == id
                    &&& x.date == (match u.date {
                        Some(d) => d,
                        None => s.date,
                    })
                    &&& x.start_time == (match u.start_time {
                        Some(t) => t,
                        None => s.start_time,
                    })
                    &&& x.end_time == (match u.end_time {
                        Some(t) => t,
                        None => s.end_time,
                    })
                    &&& x.completed == (match u.completed {
                        Some(c) => c,
                        None => s.completed,
                    })
                    &&& x.yougile_task_id == s.yougile_task_id
                    &&& (u.booking matches Some(nb) ==> !x.is_available && (x.booking matches Some(
                        b,
                    ) && booking_matches(b, nb) && b.created_at == now))
                    &&& (u.booking is None && u.is_available == Some(true) ==> x.is_available
                        && x.booking is None)
                    &&& (u.booking is None && u.is_available == Some(false) ==> !x.is_available
                        && x.booking == s.booking)
                    &&& (u.booking is None && u.is_available is None ==> x.is_available
                        == s.is_available && x.booking == s.booking)
                },
                Err(_) => true,
            },
            !old(self)@.contains_key(id) ==> r == Err::<TimeSlot, AppError>(AppError::SlotNotFound)
                && final(self)@ == old(self)@,
            old(self)@.contains_key(id) && !updated_start(old(self)@[id], u).precedes(
                updated_end(old(self)@[id], u),
            ) ==> r == Err::<TimeSlot, AppError>(AppError::InvalidTimeRange) && final(self)@ == old(self)@,
            old(self)@.contains_key(id) && updated_start(old(self)@[id], u).precedes(
                updated_end(old(self)@[id], u),
            ) ==> r == Ok::<TimeSlot, AppError>(updated_slot(old(self)@[id], u, now)) && final(self)@ == old(self)@.insert(id, updated_slot(old(self)@[id], u, now)),
    {
        let slot = match self.get_slot(id) {
            Some(s) => s,
            None => return Err(AppError::SlotNotFound),
        };
        proof {
            self.lemma_keys_match();
        }
        let new_start = match u.start_time {
            Some(t) => t,
            None => slot.start_time,
        };
        let new_end = match u.end_time {
            Some(t) => t,
            None => slot.end_time,
        };
        if !new_start.is_before(&new_end) {
            return Err(AppError::InvalidTimeRange);
        }
        let date = match u.date {
            Some(d) => d,
            None => slot.date,
        };
        let mut is_available = slot.is_available;
        let mut booking = slot.booking;
        match u.is_available {
            Some(a) => {
                is_available = a;
                if a {
                    booking = None;
                }
            },
            None => {},
        }
        match u.booking {
            Some(b) => {
                booking = Some(make_booking(b, now));
                is_available = false;
            },
            None => {},
        }
        let completed = match u.completed {
            Some(c) => c,
            None => slot.completed,
        };
        let new = TimeSlot {
            id: slot.id,
            start_time: new_start,
            end_time: new_end,
            date,
            is_available,
            booking,
            yougile_task_id: slot.yougile_task_id,
            completed,
        };
        let result = new.clone();
        self.upsert(new);
        Ok(result)
    }

    /// Applies the update `u` to the slot with id `id`, reading the current instant (the
    /// creation time of a booking that the update brings) from the clock. The resulting
    /// start must come before the resulting end.
    pub fn update_slot(&mut self, id: u128, u: UpdateTimeSlot) -> (r: Result<TimeSlot, AppError>)
        ensures
            match r {
                Ok(x) => {
                    let s = old(self)@[id];
                    &&& x.id == id
                    &&& x.date == (match u.date {
                        Some(d) => d,
                        None => s.date,
                    })
                    &&& x.start_time == (match u.start_time {
                        Some(t) => t,
                        None => s.start_time,
                    })
                    &&& x.end_time == (match u.end_time {
                        Some(t) => t,
                        None => s.end_time,
                    })
                    &&& x.completed == (match u.completed {
                        Some(c) => c,
                        None => s.completed,
                    })
                    &&& x.yougile_task_id == s.yougile_task_id
                    &&& (u.booking matches Some(nb) ==> !x.is_available && (x.booking matches Some(
                        b,
                    ) && booking_matches(b, nb)))
                    &&& (u.booking is None && u.is_available == Some(true) ==> x.is_available
                        && x.booking is None)
                    &&& (u.booking is None && u.is_available == Some(false) ==> !x.is_available
                        && x.booking == s.booking)
                    &&& (u.booking is None && u.is_available is None ==> x.is_available
                        == s.is_available && x.booking == s.booking)
                },
                Err(_) => true,
            },
            !old(self)@.contains_key(id) ==> r == Err::<TimeSlot, AppError>(AppError::SlotNotFound)
                && final(self)@ == old(self)@,
            old(self)@.contains_key(id) && !updated_start(old(self)@[id], u).precedes(
                updated_end(old(self)@[id], u),
            ) ==> r == Err::<TimeSlot, AppError>(AppError::InvalidTimeRange) && final(self)@ == old(self)@,
            old(self)@.contains_key(id) && updated_start(old(self)@[id], u).precedes(
                updated_end(old(self)@[id], u),
            ) ==> exists|now: UtcTimestamp|
                r == Ok::<TimeSlot, AppError>(#[trigger] updated_slot(old(self)@[id], u, now))
                    && final(self)@ == old(self)@.insert(id, updated_slot(old(self)@[id], u, now)),
    {
        let now = utc_now();
        self.update_slot_at(id, u, now)
    }
}

impl Clone for Scheduler {
    /// A copy of the store, holding the same slots.
    fn clone(&self) -> (r: Self)
        ensures
            r@ == self@,
    {
        proof {
            use_type_invariant(self);
        }
        let mut slots: Vec<TimeSlot> = Vec::new();
        let mut i: usize = 0;
        while i < self.slots.len()
            invariant
                i <= self.slots.len(),
                slots@ == self.slots@.take(i as int),
            decreases self.slots.len() - i,
        {
            slots.push(self.slots[i].clone());
            assert(slots@ =~= self.slots@.take(i + 1));
            i = i + 1;
        }
        assert(slots@ =~= self.slots@);
        Scheduler { slots }
    }
}

} // verus!
