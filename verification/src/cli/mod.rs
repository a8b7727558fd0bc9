pub mod utils;

use vstd::prelude::*;

use crate::calendar::{date_text, date_to_string, hour_minute_text};
use crate::ids::{lemma_uuid_text_chars, uuid_text, uuid_to_string};
use crate::scheduler::models::TimeSlot;
use crate::text::{chars_of, string_of_range};

verus! {

/// One row of the slot table: the first eight characters of the id, the date, the time
/// range, the status and the booking company.
#[derive(Debug)]
pub struct SlotRow {
    pub id: String,
    pub date: String,
    pub time: String,
    pub status: String,
    pub company: String,
}

/// The slot table, or why there is none.
#[derive(Debug)]
pub enum SlotListing {
    /// The store holds no slots.
    NoSlots,
    /// Only free slots were asked for, and there are none.
    NoneAvailable,
    /// The rows, with the number of listed slots, of free ones and of taken ones.
    Table { rows: Vec<SlotRow>, total: usize, available: usize, booked: usize },
}

/// The first eight characters of a slot id's text.
pub open spec fn short_id(id: u128) -> Seq<char> {
    uuid_text(id as int).take(8)
}

/// A slot's time range written as `HH:MM-HH:MM`.
pub open spec fn compact_range_text(slot: TimeSlot) -> Seq<char> {
    hour_minute_text(slot.start_time.second()) + "-"@ + hour_minute_text(slot.end_time.second())
}

/// The status shown for a slot.
pub open spec fn status_label(slot: TimeSlot) -> Seq<char> {
    if slot.is_available {
        "✅ Доступен"@
    } else if slot.booking is Some {
        "🔒 Занят"@
    } else {
        "❓ Неизвестно"@
    }
}

/// The company shown for a slot: the booking company of a taken slot, else a dash.
pub open spec fn company_label(slot: TimeSlot) -> Seq<char> {
    if slot.is_available {
        "-"@
    } else {
        match slot.booking {
            Some(b) => b.company_name@,
            None => "-"@,
        }
    }
}

/// Whether `row` is the table row of `slot`.
pub open spec fn row_of(row: SlotRow, slot: TimeSlot) -> bool {
    &&& row.id@ == short_id(slot.id)
    &&& row.date@ == date_text(slot.date.day())
    &&& row.time@ == compact_range_text(slot)
    &&& row.status@ == status_label(slot)
    &&& row.company@ == company_label(slot)
}

/// The free slots of `s`, in order.
pub open spec fn free_slots(s: Seq<TimeSlot>) -> Seq<TimeSlot>
    decreases s.len(),
{
    if s.len() == 0 {
        s
    } else if s.last().is_available {
        free_slots(s.drop_last()).push(s.last())
    } else {
        free_slots(s.drop_last())
    }
}

/// The slots that the listing shows: all of them, or only the free ones.
pub open spec fn listed_slots(s: Seq<TimeSlot>, available_only: bool) -> Seq<TimeSlot> {
    if available_only {
        free_slots(s)
    } else {
        s
    }
}

/// The table row of a slot.
pub fn slot_row(slot: &TimeSlot) -> (r: SlotRow)
    ensures
        row_of(r, *slot),
{
    let full = chars_of(uuid_to_string(slot.id).as_str());
    proof {
        lemma_uuid_text_chars(slot.id as int, 0);
    }
    let id = string_of_range(&full, 0, 8);
    assert(full@.subrange(0, 8) =~= short_id(slot.id));
    let mut time = slot.start_time.hour_minute();
    time.append("-");
    let end = slot.end_time.hour_minute();
    time.append(end.as_str());
    let (status, company) = if slot.is_available {
        (String::from_str("✅ Доступен"), String::from_str("-"))
    } else {
        match &slot.booking {
            Some(b) => (String::from_str("🔒 Занят"), b.company_name.clone()),
            None => (String::from_str("❓ Неизвестно"), String::from_str("-")),
        }
    };
    SlotRow { id, date: date_to_string(slot.date), time, status, company }
}

fn clone_slots_listed(slots: &Vec<TimeSlot>, available_only: bool) -> (r: Vec<TimeSlot>)
    ensures
        r@ == listed_slots(slots@, available_only),
{
    let mut r: Vec<TimeSlot> = Vec::new();
    let mut i: usize = 0;
    while i < slots.len()
        invariant
            i <= slots.len(),
            r@ == listed_slots(slots@.take(i as int), available_only),
        decreases slots.len() - i,
    {
        let ghost before = slots@.take(i as int);
        assert(slots@.take(i + 1).drop_last() =~= before);
        assert(slots@.take(i + 1).last() == slots@[i as int]);
        assert(slots@.take(i + 1) =~= before.push(slots@[i as int]));
        if !available_only || slots[i].is_available {
            r.push(slots[i].clone());
        }
        i = i + 1;
    }
    assert(slots@.take(slots.len() as int) =~= slots@);
    r
}

/// The slot table for `slots` (in the store's order): every slot, or the free ones only,
/// with the counts printed under it.
pub fn slot_listing(slots: &Vec<TimeSlot>, available_only: bool) -> (r: SlotListing)
    ensures
        slots@.len() == 0 ==> r is NoSlots,
        slots@.len() > 0 && listed_slots(slots@, available_only).len() == 0 ==> r is NoneAvailable,
        listed_slots(slots@, available_only).len() > 0 ==> match r {
            SlotListing::Table { rows, total, available, booked } => {
                let shown = listed_slots(slots@, available_only);
                &&& rows@.len() == shown.len()
                &&& forall|k: int| 0 <= k < shown.len() ==> row_of(#[trigger] rows@[k], shown[k])
                &&& total == shown.len()
                &&& available == free_slots(shown).len()
                &&& booked == shown.len() - free_slots(shown).len()
            },
            _ => false,
        },
{
    if slots.len() == 0 {
        return SlotListing::NoSlots;
    }
    let shown = clone_slots_listed(slots, available_only);
    if shown.len() == 0 {
        return SlotListing::NoneAvailable;
    }
    let mut rows: Vec<SlotRow> = Vec::new();
    let mut available: usize = 0;
    let mut i: usize = 0;
    while i < shown.len()
        invariant
            i <= shown.len(),
            rows@.len() == i,
            forall|k: int| 0 <= k < i ==> row_of(#[trigger] rows@[k], shown@[k]),
            available == free_slots(shown@.take(i as int)).len(),
            available <= i,
        decreases shown.len() - i,
    {
        let ghost before = shown@.take(i as int);
        assert(shown@.take(i + 1).drop_last() =~= before);
        assert(shown@.take(i + 1).last() == shown@[i as int]);
        rows.push(slot_row(&shown[i]));
        if shown[i].is_available {
            available = available + 1;
        }
        i = i + 1;
    }
    assert(shown@.take(shown.len() as int) =~= shown@);
    let total = shown.len();
    SlotListing::Table { rows, total, available, booked: total - available }
}

} // verus!
