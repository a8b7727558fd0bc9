use chrono::{Datelike, NaiveDate};
use migration_scheduler::calendar::{Date, TimeOfDay, UtcTimestamp};
use migration_scheduler::cli::utils::parse_time;
use migration_scheduler::scheduler::{CreateBooking, CreateTimeSlot, Scheduler, UpdateTimeSlot};
use migration_scheduler::AppError;

fn date(y: i32, m: u32, d: u32) -> Date {
    let nd = NaiveDate::from_ymd_opt(y, m, d).unwrap();
    Date::from_days_from_ce(nd.num_days_from_ce()).unwrap()
}

fn parse_date(s: &str) -> Date {
    let nd = NaiveDate::parse_from_str(s, "%Y-%m-%d").unwrap();
    Date::from_days_from_ce(nd.num_days_from_ce()).unwrap()
}

fn hm(h: u32, m: u32) -> TimeOfDay {
    TimeOfDay::from_hm(h, m).unwrap()
}

fn make_create_slot(d: &str, start: &str, end: &str) -> CreateTimeSlot {
    CreateTimeSlot {
        date: parse_date(d),
        start_time: parse_time(start).unwrap(),
        end_time: parse_time(end).unwrap(),
    }
}

fn make_create_booking() -> CreateBooking {
    CreateBooking {
        company_name: "TestCorp".to_string(),
        admin_email: "admin@test.com".to_string(),
        company_id: "comp-123".to_string(),
        download_email: "dl@test.com".to_string(),
    }
}

// The day on which the bookings of these tests are made.
fn booking_day() -> Date {
    date(2026, 1, 1)
}

fn instant() -> UtcTimestamp {
    UtcTimestamp::from_unix(1_767_225_600, 0).unwrap()
}

fn empty_update() -> UpdateTimeSlot {
    UpdateTimeSlot::default()
}

#[test]
fn test_new_starts_empty() {
    let scheduler = Scheduler::new();
    assert_eq!(scheduler.slot_count(), 0);
    assert!(scheduler.get_slots_in_range(None, None).is_empty());
}

#[test]
fn test_create_slot() {
    let mut scheduler = Scheduler::new();
    let ct = make_create_slot("2026-06-15", "10:00", "11:00");
    let slot = scheduler.create_slot(ct).unwrap();

    assert_eq!(scheduler.slot_count(), 1);
    assert_eq!(slot.date, date(2026, 6, 15));
    assert!(slot.is_available);
    assert!(slot.booking.is_none());
    assert!(slot.yougile_task_id.is_none());
    assert!(!slot.completed);
}

#[test]
fn test_create_multiple_slots() {
    let mut scheduler = Scheduler::new();
    for (d, start) in &[("2026-06-15", "09:00"), ("2026-06-15", "10:00"), ("2026-06-16", "09:00")] {
        let ct = make_create_slot(d, start, "11:00");
        scheduler.create_slot(ct).unwrap();
    }
    assert_eq!(scheduler.slot_count(), 3);
}

#[test]
fn test_get_slot_by_id() {
    let mut scheduler = Scheduler::new();
    let created = scheduler.create_slot(make_create_slot("2026-06-15", "10:00", "11:00")).unwrap();
    let fetched = scheduler.get_slot(created.id).unwrap();
    assert_eq!(fetched.id, created.id);
    assert_eq!(fetched.date, created.date);
    assert_eq!(fetched.start_time, created.start_time);
}

#[test]
fn test_get_slot_not_found() {
    let scheduler = Scheduler::new();
    assert!(scheduler.get_slot(uuid::Uuid::new_v4().as_u128()).is_none());
}

#[test]
fn test_get_slots_in_range_all() {
    let mut scheduler = Scheduler::new();
    for d in &["2026-06-10", "2026-06-15", "2026-06-20"] {
        scheduler.create_slot(make_create_slot(d, "10:00", "11:00")).unwrap();
    }
    assert_eq!(scheduler.get_slots_in_range(None, None).len(), 3);
}

#[test]
fn test_get_slots_in_range_filtered() {
    let mut scheduler = Scheduler::new();
    for d in &["2026-06-10", "2026-06-15", "2026-06-20"] {
        scheduler.create_slot(make_create_slot(d, "10:00", "11:00")).unwrap();
    }
    let slots = scheduler.get_slots_in_range(Some(date(2026, 6, 12)), Some(date(2026, 6, 18)));
    assert_eq!(slots.len(), 1);
    assert_eq!(slots[0].date, date(2026, 6, 15));
}

#[test]
fn test_get_slots_in_range_inclusive_bounds() {
    let mut scheduler = Scheduler::new();
    for d in &["2026-06-10", "2026-06-15", "2026-06-20"] {
        scheduler.create_slot(make_create_slot(d, "10:00", "11:00")).unwrap();
    }
    let slots = scheduler.get_slots_in_range(Some(date(2026, 6, 10)), Some(date(2026, 6, 15)));
    assert_eq!(slots.len(), 2);
}

#[test]
fn test_get_slots_sorted() {
    let mut scheduler = Scheduler::new();
    for (d, start, end) in &[
        ("2026-06-15", "14:00", "15:00"),
        ("2026-06-15", "09:00", "11:00"),
        ("2026-06-10", "10:00", "11:00"),
    ] {
        scheduler.create_slot(make_create_slot(d, start, end)).unwrap();
    }
    let slots = scheduler.get_slots_in_range(None, None);
    assert_eq!(slots.len(), 3);
    assert_eq!(slots[0].date, date(2026, 6, 10));
    assert_eq!(slots[1].date, date(2026, 6, 15));
    assert_eq!(slots[1].start_time, hm(9, 0));
    assert_eq!(slots[2].start_time, hm(14, 0));
}

#[test]
fn test_get_slots_in_range_empty_result() {
    let mut scheduler = Scheduler::new();
    scheduler.create_slot(make_create_slot("2026-06-15", "10:00", "11:00")).unwrap();
    let slots = scheduler.get_slots_in_range(Some(date(2027, 1, 1)), None);
    assert!(slots.is_empty());
}

#[test]
fn test_book_slot_success() {
    let mut scheduler = Scheduler::new();
    let slot = scheduler.create_slot(make_create_slot("2026-06-15", "10:00", "11:00")).unwrap();
    let booked = scheduler
        .book_slot_at(slot.id, make_create_booking(), booking_day(), instant())
        .unwrap();

    assert!(!booked.is_available);
    assert!(booked.booking.is_some());
    let b = booked.booking.as_ref().unwrap();
    assert_eq!(b.company_name, "TestCorp");

    let fetched = scheduler.get_slot(slot.id).unwrap();
    assert!(!fetched.is_available);
}

#[test]
fn test_book_slot_already_booked() {
    let mut scheduler = Scheduler::new();
    let slot = scheduler.create_slot(make_create_slot("2026-06-15", "10:00", "11:00")).unwrap();
    let booking = make_create_booking();
    scheduler.book_slot_at(slot.id, booking.clone(), booking_day(), instant()).unwrap();
    let err = scheduler.book_slot_at(slot.id, booking, booking_day(), instant()).unwrap_err();
    assert!(matches!(err, AppError::SlotAlreadyBooked));
}

#[test]
fn test_book_slot_past_date_rejected() {
    let mut scheduler = Scheduler::new();
    let slot = scheduler.create_slot(make_create_slot("2020-01-01", "10:00", "11:00")).unwrap();
    let err = scheduler.book_slot(slot.id, make_create_booking()).unwrap_err();
    assert!(matches!(err, AppError::Other(_)));
}

#[test]
fn test_book_slot_not_found() {
    let mut scheduler = Scheduler::new();
    let err = scheduler
        .book_slot(uuid::Uuid::new_v4().as_u128(), make_create_booking())
        .unwrap_err();
    assert!(matches!(err, AppError::SlotNotFound));
}

#[test]
fn test_delete_slot_success() {
    let mut scheduler = Scheduler::new();
    let slot = scheduler.create_slot(make_create_slot("2026-06-15", "10:00", "11:00")).unwrap();
    assert_eq!(scheduler.slot_count(), 1);
    let deleted = scheduler.delete_slot(slot.id).unwrap();
    assert!(deleted);
    assert_eq!(scheduler.slot_count(), 0);
    assert!(scheduler.get_slot(slot.id).is_none());
}

#[test]
fn test_delete_slot_not_found() {
    let mut scheduler = Scheduler::new();
    let err = scheduler.delete_slot(uuid::Uuid::new_v4().as_u128()).unwrap_err();
    assert!(matches!(err, AppError::SlotNotFound));
}

#[test]
fn test_delete_slot_persists() {
    let mut scheduler = Scheduler::new();
    let slot = scheduler.create_slot(make_create_slot("2026-06-15", "10:00", "11:00")).unwrap();
    scheduler.delete_slot(slot.id).unwrap();
    let scheduler2 = Scheduler::from_slots(scheduler.get_slots_in_range(None, None));
    assert_eq!(scheduler2.slot_count(), 0);
}

#[test]
fn test_update_slot_time() {
    let mut scheduler = Scheduler::new();
    let slot = scheduler.create_slot(make_create_slot("2026-06-15", "10:00", "11:00")).unwrap();
    let update = UpdateTimeSlot {
        start_time: Some(hm(12, 0)),
        end_time: Some(hm(13, 0)),
        ..empty_update()
    };
    let updated = scheduler.update_slot(slot.id, update).unwrap();
    assert_eq!(updated.start_time, hm(12, 0));
    assert_eq!(updated.end_time, hm(13, 0));
}

#[test]
fn test_update_slot_date_reindexes() {
    let mut scheduler = Scheduler::new();
    let slot = scheduler.create_slot(make_create_slot("2026-06-15", "10:00", "11:00")).unwrap();
    let update = UpdateTimeSlot { date: Some(date(2026, 7, 20)), ..empty_update() };
    let updated = scheduler.update_slot(slot.id, update).unwrap();
    assert_eq!(updated.date, date(2026, 7, 20));
    let slots = scheduler.get_slots_in_range(None, None);
    assert_eq!(slots.len(), 1);
    assert_eq!(slots[0].date, date(2026, 7, 20));
}

#[test]
fn test_update_slot_set_completed() {
    let mut scheduler = Scheduler::new();
    let slot = scheduler.create_slot(make_create_slot("2026-06-15", "10:00", "11:00")).unwrap();
    let update = UpdateTimeSlot { completed: Some(true), ..empty_update() };
    let updated = scheduler.update_slot(slot.id, update).unwrap();
    assert!(updated.completed);
}

#[test]
fn test_update_slot_open_clears_booking() {
    let mut scheduler = Scheduler::new();
    let slot = scheduler.create_slot(make_create_slot("2026-06-15", "10:00", "11:00")).unwrap();
    scheduler.book_slot_at(slot.id, make_create_booking(), booking_day(), instant()).unwrap();
    let update = UpdateTimeSlot { is_available: Some(true), ..empty_update() };
    let updated = scheduler.update_slot(slot.id, update).unwrap();
    assert!(updated.is_available);
    assert!(updated.booking.is_none());
}

#[test]
fn test_update_slot_set_booking() {
    let mut scheduler = Scheduler::new();
    let slot = scheduler.create_slot(make_create_slot("2026-06-15", "10:00", "11:00")).unwrap();
    let update = UpdateTimeSlot {
        booking: Some(make_create_booking()),
        is_available: Some(false),
        ..empty_update()
    };
    let updated = scheduler.update_slot(slot.id, update).unwrap();
    assert!(!updated.is_available);
    assert!(updated.booking.is_some());
    assert_eq!(updated.booking.as_ref().unwrap().company_name, "TestCorp");
}

#[test]
fn test_update_slot_not_found() {
    let mut scheduler = Scheduler::new();
    let err = scheduler
        .update_slot(uuid::Uuid::new_v4().as_u128(), empty_update())
        .unwrap_err();
    assert!(matches!(err, AppError::SlotNotFound));
}

#[test]
fn test_set_yougile_task_id() {
    let mut scheduler = Scheduler::new();
    let slot = scheduler.create_slot(make_create_slot("2026-06-15", "10:00", "11:00")).unwrap();
    let result = scheduler.set_yougile_task_id(slot.id, "yg-task-123".to_string()).unwrap();
    assert_eq!(result.yougile_task_id, Some("yg-task-123".to_string()));
    let fetched = scheduler.get_slot(slot.id).unwrap();
    assert_eq!(fetched.yougile_task_id, Some("yg-task-123".to_string()));
}

#[test]
fn test_set_yougile_task_id_not_found() {
    let mut scheduler = Scheduler::new();
    let err = scheduler
        .set_yougile_task_id(uuid::Uuid::new_v4().as_u128(), "task".to_string())
        .unwrap_err();
    assert!(matches!(err, AppError::SlotNotFound));
}

#[test]
fn test_index_consistency_after_operations() {
    let mut scheduler = Scheduler::new();
    let mut ids = Vec::new();
    for i in 0..5u32 {
        let hour = 8 + i / 2;
        let minute = (i % 2) * 30;
        let ct = CreateTimeSlot {
            date: date(2026, 6, 15),
            start_time: hm(hour, minute),
            end_time: hm(hour + 1, minute),
        };
        let slot = scheduler.create_slot(ct).unwrap();
        ids.push(slot.id);
    }
    assert_eq!(scheduler.slot_count(), 5);
    for id in &ids {
        assert!(scheduler.get_slot(*id).is_some());
    }
    scheduler.delete_slot(ids[0]).unwrap();
    scheduler.delete_slot(ids[2]).unwrap();
    assert_eq!(scheduler.slot_count(), 3);
    assert!(scheduler.get_slot(ids[0]).is_none());
    assert!(scheduler.get_slot(ids[2]).is_none());
    assert!(scheduler.get_slot(ids[1]).is_some());
    assert!(scheduler.get_slot(ids[3]).is_some());
    assert!(scheduler.get_slot(ids[4]).is_some());
}

#[test]
fn test_index_consistency_after_update_date() {
    let mut scheduler = Scheduler::new();
    let slot = scheduler.create_slot(make_create_slot("2026-06-15", "10:00", "11:00")).unwrap();
    let update = UpdateTimeSlot {
        date: Some(date(2026, 8, 1)),
        start_time: Some(hm(14, 0)),
        end_time: Some(hm(15, 0)),
        ..empty_update()
    };
    scheduler.update_slot(slot.id, update).unwrap();
    assert_eq!(scheduler.slot_count(), 1);
    let fetched = scheduler.get_slot(slot.id).unwrap();
    assert_eq!(fetched.date, date(2026, 8, 1));
    assert_eq!(fetched.start_time, hm(14, 0));
    assert_eq!(scheduler.get_slots_in_range(None, None).len(), 1);
}

#[test]
fn test_persistence_across_restart() {
    let mut scheduler = Scheduler::new();
    let slot1 = scheduler.create_slot(make_create_slot("2026-06-15", "10:00", "11:00")).unwrap();
    let slot2 = scheduler.create_slot(make_create_slot("2026-06-16", "14:00", "15:00")).unwrap();
    scheduler.book_slot_at(slot1.id, make_create_booking(), booking_day(), instant()).unwrap();

    let scheduler2 = Scheduler::from_slots(scheduler.get_slots_in_range(None, None));
    assert_eq!(scheduler2.slot_count(), 2);
    let s1 = scheduler2.get_slot(slot1.id).unwrap();
    assert!(!s1.is_available);
    assert!(s1.booking.is_some());
    let s2 = scheduler2.get_slot(slot2.id).unwrap();
    assert!(s2.is_available);
}

#[test]
fn test_create_and_update_slot_invalid_time_range() {
    let mut scheduler = Scheduler::new();
    let err_equal = scheduler.create_slot(make_create_slot("2026-06-15", "10:00", "10:00")).unwrap_err();
    assert!(matches!(err_equal, AppError::InvalidTimeRange));
    let err_greater =
        scheduler.create_slot(make_create_slot("2026-06-15", "11:00", "10:00")).unwrap_err();
    assert!(matches!(err_greater, AppError::InvalidTimeRange));
    let slot = scheduler.create_slot(make_create_slot("2026-06-15", "10:00", "11:00")).unwrap();
    let update_equal = UpdateTimeSlot { start_time: Some(hm(11, 0)), ..empty_update() };
    let err_update = scheduler.update_slot(slot.id, update_equal).unwrap_err();
    assert!(matches!(err_update, AppError::InvalidTimeRange));
}
