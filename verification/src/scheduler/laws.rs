use vstd::prelude::*;

use super::models::{CreateBooking, TimeSlot, UpdateTimeSlot};
use super::store::{
    has_id, keys_match, lemma_map_insert, slot_key_lt, slot_map, sorted_slots, unique_ids,
};
use super::{booked_slot, date_in_range, loaded_map, new_slot, updated_slot};
use crate::calendar::Date;
use crate::calendar::UtcTimestamp;
use super::models::CreateTimeSlot;

verus! {

proof fn lemma_loaded_is_slot_map(s: Seq<TimeSlot>)
    requires
        unique_ids(s),
    ensures
        loaded_map(s) == slot_map(s),
    decreases s.len(),
{
    if s.len() == 0 {
        assert(slot_map(s) =~= Map::<u128, TimeSlot>::empty());
    } else {
        let p = s.drop_last();
        let x = s.last();
        assert forall|i: int, j: int|
            0 <= i < p.len() && 0 <= j < p.len() && i != j implies (#[trigger] p[i]).id != (
            #[trigger] p[j]).id by {
            assert(p[i] == s[i] && p[j] == s[j]);
        }
        lemma_loaded_is_slot_map(p);
        assert(!has_id(p, x.id)) by {
            if has_id(p, x.id) {
                let i = choose|i: int| 0 <= i < p.len() && (#[trigger] p[i]).id == x.id;
                assert(p[i] == s[i]);
                assert(s[i].id != s[s.len() - 1].id);
            }
        }
        lemma_map_insert(p, p.len() as int, x);
        assert(p.insert(p.len() as int, x) =~= s);
    }
}

/// Reloading what is saved gives back the same slots: loading, in order, the listing of all
/// slots (what `get_slots_in_range(None, None)` returns and what is written to storage)
/// rebuilds exactly the store it was taken from.
pub proof fn law_reload_restores_slots(m: Map<u128, TimeSlot>, listing: Seq<TimeSlot>)
    requires
        keys_match(m),
        sorted_slots(listing),
        forall|x: TimeSlot| #[trigger]
            listing.contains(x) <==> (m.contains_key(x.id) && m[x.id] == x && date_in_range(
                x.date,
                None,
                None,
            )),
    ensures
        loaded_map(listing) == m,
{
    assert forall|i: int, j: int|
        0 <= i < listing.len() && 0 <= j < listing.len() && i != j implies (
        #[trigger] listing[i]).id != (#[trigger] listing[j]).id by {
        if listing[i].id == listing[j].id {
            assert(listing.contains(listing[i]));
            assert(listing.contains(listing[j]));
            assert(listing[i] == listing[j]);
            if i < j {
                assert(slot_key_lt(listing[i], listing[j]));
            } else {
                assert(slot_key_lt(listing[j], listing[i]));
            }
        }
    }
    lemma_loaded_is_slot_map(listing);
    assert forall|id: u128| #[trigger] slot_map(listing).contains_key(id) <==> m.contains_key(id) by {
        if has_id(listing, id) {
            let i = choose|i: int| 0 <= i < listing.len() && (#[trigger] listing[i]).id == id;
            assert(listing.contains(listing[i]));
        }
        if m.contains_key(id) {
            let x = m[id];
            assert(x.id == id);
            assert(listing.contains(x));
            let i = choose|i: int| 0 <= i < listing.len() && listing[i] == x;
            assert(listing[i].id == id);
        }
    }
    assert forall|id: u128| #[trigger] slot_map(listing).contains_key(id) implies slot_map(
        listing,
    )[id] == m[id] by {
        let i = choose|i: int| 0 <= i < listing.len() && (#[trigger] listing[i]).id == id;
        super::store::lemma_map_at(listing, i);
        assert(listing.contains(listing[i]));
    }
    assert(slot_map(listing) =~= m);
}

/// A slot created under a fresh id is then found under that id, free and unbooked, and
/// the store holds one slot more.
pub proof fn law_create_then_get(m: Map<u128, TimeSlot>, id: u128, req: CreateTimeSlot)
    requires
        m.dom().finite(),
        !m.contains_key(id),
    ensures
        m.insert(id, new_slot(id, req)).contains_key(id),
        m.insert(id, new_slot(id, req))[id] == new_slot(id, req),
        new_slot(id, req).is_available && new_slot(id, req).booking is None,
        m.insert(id, new_slot(id, req)).dom().len() == m.dom().len() + 1,
{
}

/// After a slot is deleted it is no longer found, every other slot is unchanged, and the
/// store holds one slot fewer.
pub proof fn law_delete_then_get(m: Map<u128, TimeSlot>, id: u128, other: u128)
    requires
        m.dom().finite(),
        m.contains_key(id),
        other != id,
    ensures
        !m.remove(id).contains_key(id),
        m.remove(id).contains_key(other) == m.contains_key(other),
        m.contains_key(other) ==> m.remove(id)[other] == m[other],
        m.remove(id).dom().len() == m.dom().len() - 1,
{
}

/// A booked slot is taken: a second booking of it is refused. Booking keeps the slot's
/// date, times and id, so its place in the listing does not change.
pub proof fn law_booked_slot_is_taken(s: TimeSlot, req: CreateBooking, now: UtcTimestamp)
    ensures
        !booked_slot(s, req, now).is_available,
        booked_slot(s, req, now).booking is Some,
        booked_slot(s, req, now).id == s.id,
        booked_slot(s, req, now).date == s.date,
        booked_slot(s, req, now).start_time == s.start_time,
        booked_slot(s, req, now).end_time == s.end_time,
{
}

/// Opening a slot through an update (without a new booking) drops its booking; an update
/// that brings a booking closes the slot.
pub proof fn law_update_availability(s: TimeSlot, u: UpdateTimeSlot, now: UtcTimestamp)
    ensures
        u.is_available == Some(true) && u.booking is None ==> updated_slot(s, u, now).is_available
            && updated_slot(s, u, now).booking is None,
        u.booking is Some ==> !updated_slot(s, u, now).is_available && updated_slot(
            s,
            u,
            now,
        ).booking is Some,
{
}

/// An update keeps the slot's id and tracker task, and the number of slots.
pub proof fn law_update_keeps_identity(
    m: Map<u128, TimeSlot>,
    id: u128,
    u: UpdateTimeSlot,
    now: UtcTimestamp,
)
    requires
        m.dom().finite(),
        m.contains_key(id),
    ensures
        updated_slot(m[id], u, now).id == m[id].id,
        updated_slot(m[id], u, now).yougile_task_id == m[id].yougile_task_id,
        m.insert(id, updated_slot(m[id], u, now)).dom().len() == m.dom().len(),
{
    assert(m.insert(id, updated_slot(m[id], u, now)).dom() =~= m.dom());
}

/// Booking a slot stores the request's company data unchanged, stamped with the booking
/// instant, and closes the slot; date, times and id stay.
pub proof fn law_booking_carries_request(s: TimeSlot, req: CreateBooking, now: UtcTimestamp)
    ensures
        booked_slot(s, req, now).booking matches Some(b) && b.company_name == req.company_name
            && b.admin_email == req.admin_email && b.company_id == req.company_id
            && b.download_email == req.download_email && b.created_at == now,
        !booked_slot(s, req, now).is_available,
        booked_slot(s, req, now).completed == s.completed,
        booked_slot(s, req, now).yougile_task_id == s.yougile_task_id,
{
}

/// An update changes each field it brings and keeps every other one. Availability and
/// booking: a new booking closes the slot and holds the request's company data stamped at
/// `now`; otherwise opening the slot drops its booking, closing it keeps the booking, and an
/// update that touches neither keeps both as they were.
pub proof fn law_update_fields(s: TimeSlot, u: UpdateTimeSlot, now: UtcTimestamp)
    ensures
        ({
            let x = updated_slot(s, u, now);
            &&& x.id == s.id
            &&& x.yougile_task_id == s.yougile_task_id
            &&& (u.date matches Some(d) ==> x.date == d)
            &&& (u.date is None ==> x.date == s.date)
            &&& (u.start_time matches Some(t) ==> x.start_time == t)
            &&& (u.start_time is None ==> x.start_time == s.start_time)
            &&& (u.end_time matches Some(t) ==> x.end_time == t)
            &&& (u.end_time is None ==> x.end_time == s.end_time)
            &&& (u.completed matches Some(c) ==> x.completed == c)
            &&& (u.completed is None ==> x.completed == s.completed)
            &&& (u.booking matches Some(nb) ==> !x.is_available && (x.booking matches Some(b)
                && b.company_name == nb.company_name && b.admin_email == nb.admin_email
                && b.company_id == nb.company_id && b.download_email == nb.download_email
                && b.created_at == now))
            &&& (u.booking is None && u.is_available == Some(true) ==> x.is_available
                && x.booking is None)
            &&& (u.booking is None && u.is_available == Some(false) ==> !x.is_available
                && x.booking == s.booking)
            &&& (u.booking is None && u.is_available is None ==> x.is_available == s.is_available
                && x.booking == s.booking)
        }),
{
}

/// A date is in the listing's range exactly when it is on or after `from` (where given) and
/// on or before `to` (where given); each bound applies whether or not the other is given.
pub proof fn law_range_bounds(d: Date, from: Option<Date>, to: Option<Date>)
    ensures
        date_in_range(d, from, to) <==> ((from matches Some(f) ==> f.day() <= d.day()) && (
        to matches Some(t) ==> d.day() <= t.day())),
        to matches Some(t) && d.day() > t.day() ==> !date_in_range(d, from, to),
        from matches Some(f) && d.day() < f.day() ==> !date_in_range(d, from, to),
{
}

} // verus!
