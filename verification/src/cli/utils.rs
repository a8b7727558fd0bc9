use vstd::prelude::*;

use crate::calendar::{
    date_text, date_to_string, parse_hh_mm, parse_hour_minute, utc_text, utc_to_string,
    TimeOfDay,
};
use crate::error::AppError;
use crate::ids::{parse_uuid_str, parse_uuid_text, uuid_text, uuid_to_string};
use crate::scheduler::models::{time_range_text, TimeSlot};

verus! {

/// Reads a time of day written as `HH:MM`.
pub fn parse_time(time_str: &str) -> (r: Result<TimeOfDay, AppError>)
    ensures
        match parse_hour_minute(time_str@) {
            Some(p) => r matches Ok(t) && t.second() == p.0 && t.fraction() == p.1,
            None => r matches Err(AppError::InvalidTimeFormat(m)) && m@ == time_str@,
        },
{
    match parse_hh_mm(time_str) {
        Some(t) => Ok(t),
        None => Err(AppError::InvalidTimeFormat(String::from_str(time_str))),
    }
}

/// Accepts a time range whose start comes before its end.
pub fn validate_time_range(start: TimeOfDay, end: TimeOfDay) -> (r: Result<(), AppError>)
    ensures
        start.precedes(end) ==> r is Ok,
        !start.precedes(end) ==> r == Err::<(), AppError>(AppError::InvalidTimeRange),
{
    if !start.is_before(&end) {
        return Err(AppError::InvalidTimeRange);
    }
    Ok(())
}

/// Reads a slot id written as a UUID, as its big-endian number.
pub fn parse_uuid(id_str: &str) -> (r: Result<u128, AppError>)
    ensures
        match parse_uuid_text(id_str@) {
            Some(v) => r == Ok::<u128, AppError>(v as u128),
            None => r matches Err(AppError::InvalidUuid(m)) && m@ == id_str@,
        },
{
    match parse_uuid_str(id_str) {
        Some(v) => Ok(v),
        None => Err(AppError::InvalidUuid(String::from_str(id_str))),
    }
}

/// The report printed after a slot was created.
pub open spec fn slot_created_text(slot: TimeSlot) -> Seq<char> {
    "Слот успешно создан:\n   Дата: "@ + date_text(slot.date.day()) + "\n   Время: "@
        + time_range_text(slot) + "\n   ID: "@ + uuid_text(slot.id as int) + "\n"@
}

/// The report printed after a slot was booked by `company` with company id `company_id`.
pub open spec fn slot_booked_text(slot: TimeSlot, company: Seq<char>, company_id: Seq<char>) -> Seq<
    char,
> {
    "Слот успешно забронирован:\n   Компания: "@ + company + "\n   ID компании: "@ + company_id
        + "\n   Дата: "@ + date_text(slot.date.day()) + "\n   Время: "@ + time_range_text(slot)
        + "\n"@
}

/// The report printed for a slot: its id, date, time range and status, and the booking's
/// data where it is booked.
pub open spec fn slot_info_text(slot: TimeSlot) -> Seq<char> {
    "Информация о слоте:\n   ID: "@ + uuid_text(slot.id as int) + "\n   Дата: "@ + date_text(
        slot.date.day(),
    ) + "\n   Время: "@ + time_range_text(slot) + "\n   Статус: "@ + (if slot.is_available {
        "Доступен"@
    } else {
        "Занят"@
    }) + "\n"@ + match slot.booking {
        Some(b) => "   Компания: "@ + b.company_name@ + "\n   Email админа: "@ + b.admin_email@
            + "\n   ID компании: "@ + b.company_id@ + "\n   Email для скачивания: "@
            + b.download_email@ + "\n   Создано: "@ + utc_text(
            b.created_at.unix_secs(),
            b.created_at.subsec_nanos(),
        ) + "\n"@,
        None => Seq::empty(),
    }
}

/// The report to print after a slot was created.
pub fn slot_created_message(slot: &TimeSlot) -> (r: String)
    ensures
        r@ == slot_created_text(*slot),
{
    let date = date_to_string(slot.date);
    let range = slot.time_range();
    let id = uuid_to_string(slot.id);
    let mut r = String::from_str("Слот успешно создан:\n   Дата: ");
    r.append(date.as_str());
    r.append("\n   Время: ");
    r.append(range.as_str());
    r.append("\n   ID: ");
    r.append(id.as_str());
    r.append("\n");
    r
}

/// The report to print after a slot was booked by `company` with company id `company_id`.
pub fn slot_booked_message(slot: &TimeSlot, company: &str, company_id: &str) -> (r: String)
    ensures
        r@ == slot_booked_text(*slot, company@, company_id@),
{
    let date = date_to_string(slot.date);
    let range = slot.time_range();
    let mut r = String::from_str("Слот успешно забронирован:\n   Компания: ");
    r.append(company);
    r.append("\n   ID компании: ");
    r.append(company_id);
    r.append("\n   Дата: ");
    r.append(date.as_str());
    r.append("\n   Время: ");
    r.append(range.as_str());
    r.append("\n");
    r
}

/// The report to print for a slot.
pub fn slot_info_message(slot: &TimeSlot) -> (r: String)
    ensures
        r@ == slot_info_text(*slot),
{
    let id = uuid_to_string(slot.id);
    let date = date_to_string(slot.date);
    let range = slot.time_range();
    let mut r = String::from_str("Информация о слоте:\n   ID: ");
    r.append(id.as_str());
    r.append("\n   Дата: ");
    r.append(date.as_str());
    r.append("\n   Время: ");
    r.append(range.as_str());
    r.append("\n   Статус: ");
    if slot.is_available {
        r.append("Доступен");
    } else {
        r.append("Занят");
    }
    r.append("\n");
    match &slot.booking {
        Some(b) => {
            let created = utc_to_string(b.created_at);
            r.append("   Компания: ");
            r.append(b.company_name.as_str());
            r.append("\n   Email админа: ");
            r.append(b.admin_email.as_str());
            r.append("\n   ID компании: ");
            r.append(b.company_id.as_str());
            r.append("\n   Email для скачивания: ");
            r.append(b.download_email.as_str());
            r.append("\n   Создано: ");
            r.append(created.as_str());
            r.append("\n");
        },
        None => {},
    }
    r
}

} // verus!
