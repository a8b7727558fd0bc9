use vstd::prelude::*;

use crate::calendar::{
    date_text, date_to_string, hour_minute_text, moscow_local_to_utc_millis, moscow_millis,
    utc_text, utc_to_string, Date, TimeOfDay, UtcTimestamp,
};

verus! {

/// A booking of a slot by a company.
#[derive(Debug)]
pub struct Booking {
    pub company_name: String,
    pub admin_email: String,
    pub company_id: String,
    pub download_email: String,
    pub created_at: UtcTimestamp,
}

/// A migration slot: a time range on a date, free or booked.
#[derive(Debug)]
pub struct TimeSlot {
    pub id: u128,
    pub start_time: TimeOfDay,
    pub end_time: TimeOfDay,
    pub date: Date,
    pub is_available: bool,
    pub booking: Option<Booking>,
    pub yougile_task_id: Option<String>,
    pub completed: bool,
}

/// A request to create a slot.
#[derive(Debug)]
pub struct CreateTimeSlot {
    pub date: Date,
    pub start_time: TimeOfDay,
    pub end_time: TimeOfDay,
}

/// A partial change to a slot: each field that is present replaces the slot's.
#[derive(Debug)]
pub struct UpdateTimeSlot {
    pub date: Option<Date>,
    pub start_time: Option<TimeOfDay>,
    pub end_time: Option<TimeOfDay>,
    pub is_available: Option<bool>,
    pub booking: Option<CreateBooking>,
    pub completed: Option<bool>,
}

/// The company data of a booking request.
#[derive(Debug)]
pub struct CreateBooking {
    pub company_name: String,
    pub admin_email: String,
    pub company_id: String,
    pub download_email: String,
}

/// The company data of a booking request, under the name the older API used.
pub type BookingRequest = CreateBooking;

impl Clone for Booking {
    fn clone(&self) -> (r: Self)
        ensures
            r == *self,
    {
        Booking {
            company_name: self.company_name.clone(),
            admin_email: self.admin_email.clone(),
            company_id: self.company_id.clone(),
            download_email: self.download_email.clone(),
            created_at: self.created_at,
        }
    }
}

impl Clone for CreateBooking {
    fn clone(&self) -> (r: Self)
        ensures
            r == *self,
    {
        CreateBooking {
            company_name: self.company_name.clone(),
            admin_email: self.admin_email.clone(),
            company_id: self.company_id.clone(),
            download_email: self.download_email.clone(),
        }
    }
}

impl Clone for TimeSlot {
    fn clone(&self) -> (r: Self)
        ensures
            r == *self,
    {
        let booking = match &self.booking {
            Some(b) => Some(b.clone()),
            None => None,
        };
        let yougile_task_id = match &self.yougile_task_id {
            Some(t) => Some(t.clone()),
            None => None,
        };
        TimeSlot {
            id: self.id,
            start_time: self.start_time,
            end_time: self.end_time,
            date: self.date,
            is_available: self.is_available,
            booking,
            yougile_task_id,
            completed: self.completed,
        }
    }
}

impl Default for UpdateTimeSlot {
    fn default() -> (r: Self)
        ensures
            r.date is None,
            r.start_time is None,
            r.end_time is None,
            r.is_available is None,
            r.booking is None,
            r.completed is None,
    {
        UpdateTimeSlot {
            date: None,
            start_time: None,
            end_time: None,
            is_available: None,
            booking: None,
            completed: None,
        }
    }
}

/// The booking made from a request at instant `now`.
pub open spec fn booking_from(req: CreateBooking, now: UtcTimestamp) -> Booking {
    Booking {
        company_name: req.company_name,
        admin_email: req.admin_email,
        company_id: req.company_id,
        download_email: req.download_email,
        created_at: now,
    }
}

pub fn make_booking(req: CreateBooking, now: UtcTimestamp) -> (r: Booking)
    ensures
        r == booking_from(req, now),
{
    Booking {
        company_name: req.company_name,
        admin_email: req.admin_email,
        company_id: req.company_id,
        download_email: req.download_email,
        created_at: now,
    }
}

/// The title of the tracker task for a slot.
pub open spec fn task_title(slot: TimeSlot) -> Seq<char> {
    "Миграция: "@ + match slot.booking {
        Some(b) => b.company_name@,
        None => "Неизвестная компания"@,
    }
}

/// The slot's time range as `HH:MM - HH:MM`.
pub open spec fn time_range_text(slot: TimeSlot) -> Seq<char> {
    hour_minute_text(slot.start_time.second()) + " - "@ + hour_minute_text(
        slot.end_time.second(),
    )
}

/// The description of the tracker task for a slot.
pub open spec fn task_description(slot: TimeSlot) -> Seq<char> {
    match slot.booking {
        Some(b) => "Информация о бронировании:<br/>• Компания: "@ + b.company_name@
            + "<br/>• Email администратора: "@ + b.admin_email@ + "<br/>• ID компании: "@
            + b.company_id@ + "<br/>• Email получателя архива: "@ + b.download_email@
            + "<br/>• Дата: "@ + date_text(slot.date.day()) + "<br/>• Время: "@
            + time_range_text(slot) + "<br/>• Создано: "@ + utc_text(
            b.created_at.unix_secs(),
            b.created_at.subsec_nanos(),
        ) + " UTC"@,
        None => "Информация о слоте:<br/>• Дата: "@ + date_text(slot.date.day())
            + "<br/>• Время: "@ + time_range_text(slot) + "<br/>• Статус: Доступен"@,
    }
}

/// The Unix times in milliseconds of the slot's start and end, read as Moscow wall-clock
/// times, where each names exactly one instant.
pub open spec fn slot_millis(slot: TimeSlot) -> Option<(int, int)> {
    let start = moscow_local_to_utc_millis(
        slot.date.day(),
        slot.start_time.second(),
        slot.start_time.fraction(),
    );
    let end = moscow_local_to_utc_millis(
        slot.date.day(),
        slot.end_time.second(),
        slot.end_time.fraction(),
    );
    if start is Some && end is Some {
        Some((start->0, end->0))
    } else {
        None
    }
}

impl TimeSlot {
    /// The start and end of the slot as Unix times in milliseconds, reading the slot's
    /// date and times as Moscow wall-clock time.
    pub fn to_timestamps_ms(&self) -> (r: (i64, i64))
        requires
            slot_millis(*self) is Some,
        ensures
            slot_millis(*self) == Some((r.0 as int, r.1 as int)),
    {
        let start = moscow_millis(self.date, self.start_time);
        let end = moscow_millis(self.date, self.end_time);
        (start.unwrap(), end.unwrap())
    }

    /// The start and end of the slot as Unix times in milliseconds, or `None` where one of
    /// them does not name exactly one instant in Moscow.
    pub fn checked_timestamps_ms(&self) -> (r: Option<(i64, i64)>)
        ensures
            match r {
                Some(p) => slot_millis(*self) == Some((p.0 as int, p.1 as int)),
                None => slot_millis(*self) is None,
            },
    {
        let start = moscow_millis(self.date, self.start_time);
        let end = moscow_millis(self.date, self.end_time);
        if start.is_some() && end.is_some() {
            Some(self.to_timestamps_ms())
        } else {
            None
        }
    }

    /// The title of the tracker task for this slot.
    pub fn build_task_title(&self) -> (r: String)
        ensures
            r@ == task_title(*self),
    {
        let mut r = String::from_str("Миграция: ");
        match &self.booking {
            Some(b) => r.append(b.company_name.as_str()),
            None => r.append("Неизвестная компания"),
        }
        r
    }

    /// The slot's time range written as `HH:MM - HH:MM`.
    pub fn time_range(&self) -> (r: String)
        ensures
            r@ == time_range_text(*self),
    {
        let mut r = self.start_time.hour_minute();
        r.append(" - ");
        let end = self.end_time.hour_minute();
        r.append(end.as_str());
        r
    }

    /// The description of the tracker task for this slot.
    pub fn build_task_description(&self) -> (r: String)
        ensures
            r@ == task_description(*self),
    {
        let date = date_to_string(self.date);
        let range = self.time_range();
        match &self.booking {
            Some(b) => {
                let created = utc_to_string(b.created_at);
                let mut r = String::from_str("Информация о бронировании:<br/>• Компания: ");
                r.append(b.company_name.as_str());
                r.append("<br/>• Email администратора: ");
                r.append(b.admin_email.as_str());
                r.append("<br/>• ID компании: ");
                r.append(b.company_id.as_str());
                r.append("<br/>• Email получателя архива: ");
                r.append(b.download_email.as_str());
                r.append("<br/>• Дата: ");
                r.append(date.as_str());
                r.append("<br/>• Время: ");
                r.append(range.as_str());
                r.append("<br/>• Создано: ");
                r.append(created.as_str());
                r.append(" UTC");
                r
            },
            None => {
                let mut r = String::from_str("Информация о слоте:<br/>• Дата: ");
                r.append(date.as_str());
                r.append("<br/>• Время: ");
                r.append(range.as_str());
                r.append("<br/>• Статус: Доступен");
                r
            },
        }
    }
}

} // verus!
