use chrono::{Datelike, NaiveDate, TimeZone};
use migration_scheduler::api::auth_token::{cookie_token_of, AdminToken};
use migration_scheduler::api::content_type_for;
use migration_scheduler::api::handlers::auth::{
    admin_auth, check_auth_response, logout_session, AdminAuthRequest,
};
use migration_scheduler::api::handlers::slots::{created_task_id, sync_action, SyncAction};
use migration_scheduler::api::handlers::yougile::YougileConfigResponse;
use migration_scheduler::calendar::{
    Date, TimeOfDay, UtcTimestamp, MAX_DAY_NUMBER, MIN_DAY_NUMBER,
};
use migration_scheduler::cli::{slot_listing, slot_row, SlotListing};
use migration_scheduler::cli::utils::{
    parse_time, parse_uuid, slot_booked_message, slot_created_message, slot_info_message,
    validate_time_range,
};
use migration_scheduler::error::IsFatalError;
use migration_scheduler::ids::uuid_to_string;
use migration_scheduler::scheduler::{
    BookingRequest, Booking, CreateBooking, CreateTimeSlot, Scheduler, TimeSlot, UpdateTimeSlot,
};
use migration_scheduler::utils::{calc_backoff_delay, next_retry_step, RetryStep};
use migration_scheduler::yougile::{
    skip_if_disabled, build_new_task, build_task_change, merge_config, task_id_to_update, YougileConfig,
};
use migration_scheduler::AppError;

fn date(y: i32, m: u32, d: u32) -> Date {
    Date::from_days_from_ce(NaiveDate::from_ymd_opt(y, m, d).unwrap().num_days_from_ce()).unwrap()
}

fn hm(h: u32, m: u32) -> TimeOfDay {
    TimeOfDay::from_hm(h, m).unwrap()
}

fn at(secs: i64) -> UtcTimestamp {
    UtcTimestamp::from_unix(secs, 0).unwrap()
}

fn booking() -> CreateBooking {
    CreateBooking {
        company_name: "ООО Ромашка".to_string(),
        admin_email: "admin@romashka.ru".to_string(),
        company_id: "c-42".to_string(),
        download_email: "dl@romashka.ru".to_string(),
    }
}

fn slot(id: u128, booked: bool) -> TimeSlot {
    TimeSlot {
        id,
        start_time: hm(9, 5),
        end_time: hm(10, 30),
        date: date(2026, 12, 3),
        is_available: !booked,
        booking: if booked {
            Some(Booking {
                company_name: "ООО Ромашка".to_string(),
                admin_email: "admin@romashka.ru".to_string(),
                company_id: "c-42".to_string(),
                download_email: "dl@romashka.ru".to_string(),
                created_at: at(1_767_225_600),
            })
        } else {
            None
        },
        yougile_task_id: None,
        completed: false,
    }
}

fn config() -> YougileConfig {
    YougileConfig {
        enabled: true,
        api_url: "https://yougile.com".to_string(),
        api_token: Some("secret".to_string()),
        project_id: Some("p".to_string()),
        board_id: None,
        column_id: Some("".to_string()),
        assignee_id: Some("u-1".to_string()),
    }
}

#[test]
fn calendar_bounds_match_chrono() {
    assert_eq!(NaiveDate::MIN.num_days_from_ce(), MIN_DAY_NUMBER);
    assert_eq!(NaiveDate::MAX.num_days_from_ce(), MAX_DAY_NUMBER);
    assert!(Date::from_days_from_ce(MAX_DAY_NUMBER + 1).is_none());
    assert!(TimeOfDay::from_secs_frac(86_400, 0).is_none());
    assert!(TimeOfDay::from_secs_frac(59, 1_500_000_000).is_some());
    assert!(TimeOfDay::from_secs_frac(58, 1_500_000_000).is_none());
    assert!(UtcTimestamp::from_unix(-1, 0).is_some());
    assert!(UtcTimestamp::from_unix(i64::MAX, 0).is_none());
    assert_eq!(hm(7, 5).hour_minute(), "07:05");
}

#[test]
fn error_texts_and_statuses() {
    assert_eq!(AppError::InvalidTimeRange.message(), "Invalid time range: start must be before end");
    assert_eq!(AppError::Io("disk full".to_string()).message(), "IO error: disk full");
    assert_eq!(AppError::Other("x".to_string()).message(), "x");
    assert_eq!(AppError::Unauthorized.status_code(), 401);
    assert_eq!(AppError::SlotNotFound.status_code(), 404);
    assert_eq!(AppError::SlotAlreadyBooked.status_code(), 409);
    assert_eq!(AppError::InvalidTimeRange.status_code(), 400);
    assert_eq!(AppError::Other("x".to_string()).status_code(), 500);
    assert_eq!(AppError::Other("x".to_string()).public_message(), "Внутренняя ошибка сервера");
    assert_eq!(AppError::SlotNotFound.public_message(), "Slot not found");
}

#[test]
fn fatal_errors() {
    assert!(AppError::Io("e".to_string()).is_fatal());
    assert!(AppError::SlotNotFound.is_fatal());
    assert!(!AppError::Other("boom".to_string()).is_fatal());
    assert!(AppError::Yougile("HTTP status 401".to_string()).is_fatal());
    assert!(AppError::Yougile("Resource NOT FOUND".to_string()).is_fatal());
    assert!(AppError::Yougile("Bad Request".to_string()).is_fatal());
    assert!(!AppError::Yougile("connection reset by peer".to_string()).is_fatal());
    assert!(!AppError::Yougile("status 500".to_string()).is_fatal());
}

#[test]
fn backoff_and_retry_steps() {
    assert_eq!(calc_backoff_delay(0), 1000);
    assert_eq!(calc_backoff_delay(1), 2000);
    assert_eq!(calc_backoff_delay(12), 4_096_000);
    assert_eq!(calc_backoff_delay(13), 7_200_000);
    assert_eq!(calc_backoff_delay(53), 7_200_000);
    assert_eq!(calc_backoff_delay(54), 7_200_000);
    assert_eq!(next_retry_step(1, false), RetryStep::RetryAfterMs(1000));
    assert_eq!(next_retry_step(14, false), RetryStep::RetryAfterMs(7_200_000));
    assert_eq!(next_retry_step(15, false), RetryStep::GiveUp);
    assert_eq!(next_retry_step(3, true), RetryStep::GiveUp);
}

#[test]
fn uuid_text_is_hyphenated_lowercase() {
    let id: u128 = 0x0123_4567_89ab_cdef_fedc_ba98_7654_3210;
    assert_eq!(uuid_to_string(id), "01234567-89ab-cdef-fedc-ba9876543210");
    assert_eq!(parse_uuid("01234567-89AB-cdef-fedc-ba9876543210").unwrap(), id);
    assert!(matches!(parse_uuid("not-a-uuid"), Err(AppError::InvalidUuid(s)) if s == "not-a-uuid"));
}

#[test]
fn time_parsing_and_ranges() {
    assert_eq!(parse_time("09:30").unwrap(), hm(9, 30));
    assert!(matches!(parse_time("25:00"), Err(AppError::InvalidTimeFormat(s)) if s == "25:00"));
    assert!(validate_time_range(hm(9, 0), hm(9, 1)).is_ok());
    assert!(matches!(validate_time_range(hm(9, 0), hm(9, 0)), Err(AppError::InvalidTimeRange)));
}

#[test]
fn static_content_types() {
    assert_eq!(content_type_for("index.html"), "text/html");
    assert_eq!(content_type_for("js/main.js"), "application/javascript");
    assert_eq!(content_type_for("css/site.css"), "text/css");
    assert_eq!(content_type_for("favicon.ico"), "image/x-icon");
    assert_eq!(content_type_for("img/logo.svg"), "image/svg+xml");
    assert_eq!(content_type_for("img/a.png"), "image/png");
    assert_eq!(content_type_for("README"), "application/octet-stream");
    assert_eq!(content_type_for(".bashrc"), "application/octet-stream");
}

#[test]
fn cookie_parsing() {
    assert_eq!(cookie_token_of("a=b; admin_token=xyz ; c=d"), Some("xyz".to_string()));
    assert_eq!(cookie_token_of("admin_token"), None);
    assert_eq!(cookie_token_of("  admin_token=v=w"), Some("v=w".to_string()));
    assert_eq!(cookie_token_of("admin_token=first;admin_token=second"), Some("first".to_string()));
    assert_eq!(cookie_token_of("xadmin_token=1"), None);
    assert_eq!(cookie_token_of(""), None);
    assert_eq!(cookie_token_of("\u{3000}admin_token=t\u{a0}"), Some("t".to_string()));
}

#[test]
fn sessions_expire_after_an_hour() {
    let mut tokens = AdminToken::new();
    let now = at(1_800_000_000);
    let cookie = tokens.create_session_with("tok", now);
    assert_eq!(cookie, "admin_token=tok; HttpOnly; Secure; SameSite=Strict; Max-Age=3600; Path=/");
    assert!(tokens.verify_at("tok", now));
    assert!(tokens.verify_at("tok", at(1_800_003_600)));
    assert!(!tokens.verify_at("tok", at(1_800_003_601)));
    assert!(tokens.check_auth_at(Some(&cookie), at(1_800_000_100)).is_ok());
    assert!(matches!(tokens.check_auth_at(Some(&cookie), at(1_800_003_601)), Err(AppError::Unauthorized)));

    tokens.create_session_with("other", at(1_800_002_000));
    assert_eq!(tokens.remove_expired(at(1_800_003_600)), 1);
    assert!(!tokens.verify_at("tok", at(1_800_003_000)));
    assert!(tokens.verify_at("other", at(1_800_003_000)));
    assert_eq!(tokens.remove_expired(at(1_800_003_600)), 0);
}

#[test]
fn login_and_logout_flow() {
    let mut tokens = AdminToken::new();
    let admin_password = "admin123".to_string();
    let wrong = AdminAuthRequest { password: "wrong".to_string() };
    assert!(matches!(admin_auth(&mut tokens, &wrong, &admin_password), Err(AppError::Unauthorized)));
    let right = AdminAuthRequest { password: "admin123".to_string() };
    let (cookie, body) = admin_auth(&mut tokens, &right, &admin_password).unwrap();
    assert_eq!(body.message, "Авторизация успешна");
    assert!(check_auth_response(&tokens, Some(&cookie)).authenticated);
    assert!(!check_auth_response(&tokens, None).authenticated);
    let clear = logout_session(&mut tokens, Some(&cookie));
    assert_eq!(clear, "admin_token=; HttpOnly; Secure; SameSite=Strict; Max-Age=0; Path=/");
    assert!(!check_auth_response(&tokens, Some(&cookie)).authenticated);
    logout_session(&mut tokens, None);
    let fresh = AdminToken::default();
    assert!(!check_auth_response(&fresh, Some(&cookie)).authenticated);
}

#[test]
fn task_texts() {
    let free = slot(1, false);
    assert_eq!(free.build_task_title(), "Миграция: Неизвестная компания");
    assert_eq!(
        free.build_task_description(),
        "Информация о слоте:<br/>• Дата: 2026-12-03<br/>• Время: 09:05 - 10:30<br/>• Статус: Доступен"
    );
    let booked = slot(2, true);
    assert_eq!(booked.build_task_title(), "Миграция: ООО Ромашка");
    assert_eq!(
        booked.build_task_description(),
        "Информация о бронировании:<br/>• Компания: ООО Ромашка<br/>• Email администратора: admin@romashka.ru<br/>• ID компании: c-42<br/>• Email получателя архива: dl@romashka.ru<br/>• Дата: 2026-12-03<br/>• Время: 09:05 - 10:30<br/>• Создано: 2026-01-01 00:00:00 UTC"
    );
}

#[test]
fn slot_reports() {
    let free = slot(0x0123_4567_89ab_cdef_0011_2233_4455_6677, false);
    assert_eq!(
        slot_created_message(&free),
        "Слот успешно создан:\n   Дата: 2026-12-03\n   Время: 09:05 - 10:30\n   ID: 01234567-89ab-cdef-0011-223344556677\n"
    );
    assert_eq!(
        slot_booked_message(&free, "ООО Ромашка", "c-42"),
        "Слот успешно забронирован:\n   Компания: ООО Ромашка\n   ID компании: c-42\n   Дата: 2026-12-03\n   Время: 09:05 - 10:30\n"
    );
    assert_eq!(
        slot_info_message(&free),
        "Информация о слоте:\n   ID: 01234567-89ab-cdef-0011-223344556677\n   Дата: 2026-12-03\n   Время: 09:05 - 10:30\n   Статус: Доступен\n"
    );
    let booked = slot(0x10, true);
    assert_eq!(
        slot_info_message(&booked),
        "Информация о слоте:\n   ID: 00000000-0000-0000-0000-000000000010\n   Дата: 2026-12-03\n   Время: 09:05 - 10:30\n   Статус: Занят\n   Компания: ООО Ромашка\n   Email админа: admin@romashka.ru\n   ID компании: c-42\n   Email для скачивания: dl@romashka.ru\n   Создано: 2026-01-01 00:00:00\n"
    );
}

#[test]
fn slot_table() {
    let free = slot(0x0123_4567_89ab_cdef_0011_2233_4455_6677, false);
    let row = slot_row(&free);
    assert_eq!(row.id, "01234567");
    assert_eq!(row.date, "2026-12-03");
    assert_eq!(row.time, "09:05-10:30");
    assert_eq!(row.status, "✅ Доступен");
    assert_eq!(row.company, "-");
    let booked = slot(0xfe, true);
    let row = slot_row(&booked);
    assert_eq!(row.id, "00000000");
    assert_eq!(row.status, "🔒 Занят");
    assert_eq!(row.company, "ООО Ромашка");
    let mut odd = slot(0xff, false);
    odd.is_available = false;
    let row = slot_row(&odd);
    assert_eq!(row.status, "❓ Неизвестно");
    assert_eq!(row.company, "-");

    assert!(matches!(slot_listing(&vec![], false), SlotListing::NoSlots));
    assert!(matches!(slot_listing(&vec![slot(1, true)], true), SlotListing::NoneAvailable));
    match slot_listing(&vec![slot(1, true), slot(2, false), slot(3, false)], false) {
        SlotListing::Table { rows, total, available, booked } => {
            assert_eq!(rows.len(), 3);
            assert_eq!(rows[0].status, "🔒 Занят");
            assert_eq!((total, available, booked), (3, 2, 1));
        }
        _ => panic!("expected a table"),
    }
    match slot_listing(&vec![slot(1, true), slot(2, false), slot(3, false)], true) {
        SlotListing::Table { rows, total, available, booked } => {
            assert_eq!(rows.len(), 2);
            assert_eq!(rows[1].id, "00000000");
            assert_eq!((total, available, booked), (2, 2, 0));
        }
        _ => panic!("expected a table"),
    }
}

#[test]
fn task_deadlines_in_moscow_time() {
    let s = slot(3, false);
    let (start, end) = s.to_timestamps_ms();
    let expected_start = chrono_tz::Europe::Moscow
        .with_ymd_and_hms(2026, 12, 3, 9, 5, 0)
        .single()
        .unwrap()
        .timestamp_millis();
    assert_eq!(start, expected_start);
    assert_eq!(end - start, 85 * 60 * 1000);
    assert_eq!(s.checked_timestamps_ms(), Some((start, end)));
    // Moscow is three hours ahead of UTC.
    assert_eq!(expected_start, chrono::Utc.with_ymd_and_hms(2026, 12, 3, 6, 5, 0).unwrap().timestamp_millis());
}

#[test]
fn tracker_requests() {
    let s = slot(0x10, true);
    let task = build_new_task(&config(), &s, 1, 2);
    assert_eq!(task.title, "Миграция: ООО Ромашка");
    assert_eq!(task.column_id, None);
    assert_eq!(task.assigned, Some(vec!["u-1".to_string()]));
    assert_eq!((task.deadline.start_ms, task.deadline.end_ms, task.deadline.with_time), (1, 2, true));
    let change = build_task_change(&config(), &s, 3, 4);
    assert!(!change.completed);
    assert_eq!(change.deadline.end_ms, 4);
    assert!(matches!(
        task_id_to_update(&s),
        Err(AppError::Yougile(m)) if m == "Slot 00000000-0000-0000-0000-000000000010 has no Yougile task ID to update"
    ));
    let mut with_task = s.clone();
    with_task.yougile_task_id = Some("t-9".to_string());
    assert_eq!(task_id_to_update(&with_task).unwrap(), "t-9");
    assert_eq!(sync_action(&with_task), SyncAction::UpdateTask);
    assert_eq!(sync_action(&s), SyncAction::CreateTask);
    assert_eq!(created_task_id(String::new()), None);
    assert_eq!(created_task_id("t".to_string()), Some("t".to_string()));
}

#[test]
fn tracker_calls_skipped_when_disabled() {
    let mut c = config();
    assert!(!skip_if_disabled(&c));
    c.enabled = false;
    assert!(skip_if_disabled(&c));
    assert!(skip_if_disabled(&YougileConfig::default()));
}

#[test]
fn config_updates_keep_the_token() {
    let current = config();
    let mut new = YougileConfig::default();
    assert!(!new.enabled);
    assert_eq!(new.api_url, "https://yougile.com");
    new.project_id = Some("test-project-123".to_string());
    let merged = merge_config(new, &current);
    assert_eq!(merged.api_token, Some("secret".to_string()));
    assert_eq!(merged.project_id, Some("test-project-123".to_string()));
    let mut replaced = YougileConfig::default();
    replaced.api_token = Some("fresh".to_string());
    assert_eq!(merge_config(replaced, &current).api_token, Some("fresh".to_string()));
    let shown = YougileConfigResponse::from(current);
    assert!(shown.enabled);
    assert_eq!(shown.project_id, Some("p".to_string()));
}

#[test]
fn scheduler_edge_cases() {
    let mut scheduler = Scheduler::new();
    let req = || CreateTimeSlot { date: date(2026, 12, 10), start_time: hm(10, 0), end_time: hm(11, 0) };
    let a = scheduler.create_slot_with_id(7, req()).unwrap();
    assert_eq!(a.id, 7);
    let again = CreateTimeSlot { date: date(2026, 12, 10), start_time: hm(12, 0), end_time: hm(13, 0) };
    let b = scheduler.create_slot_with_id(7, again).unwrap();
    assert_eq!((b.id, b.start_time), (7, hm(12, 0)));
    assert_eq!(scheduler.get_slot(7).unwrap().start_time, hm(12, 0));
    assert_eq!(scheduler.slot_count(), 1);

    // Booking on the slot's own date is refused, one day earlier it succeeds.
    let err = scheduler.book_slot_at(7, booking(), date(2026, 12, 10), at(0)).unwrap_err();
    assert!(matches!(err, AppError::Other(m) if m == "Нельзя записываться на слоты в текущие и прошедшие даты"));
    let request: BookingRequest = booking();
    let booked = scheduler.book_slot_at(7, request, date(2026, 12, 9), at(5)).unwrap();
    assert_eq!(booked.booking.as_ref().unwrap().created_at, at(5));

    // A failed update changes nothing.
    let bad = UpdateTimeSlot { end_time: Some(hm(9, 0)), ..UpdateTimeSlot::default() };
    assert!(matches!(scheduler.update_slot_at(7, bad, at(6)), Err(AppError::InvalidTimeRange)));
    assert!(!scheduler.get_slot(7).unwrap().is_available);

    // Loading keeps the later of two slots with the same id.
    let mut first = slot(9, false);
    first.date = date(2026, 12, 1);
    let second = slot(9, true);
    let loaded = Scheduler::from_slots(vec![first, second]);
    assert_eq!(loaded.slot_count(), 1);
    assert!(loaded.get_slot(9).unwrap().booking.is_some());

    // Listing order: date, then start time, then id.
    let mut s = Scheduler::new();
    s.create_slot_with_id(3, req()).unwrap();
    s.create_slot_with_id(1, req()).unwrap();
    s.create_slot_with_id(2, CreateTimeSlot { date: date(2026, 12, 10), start_time: hm(9, 0), end_time: hm(11, 0) }).unwrap();
    let order: Vec<u128> = s.get_slots_in_range(None, None).iter().map(|x| x.id).collect();
    assert_eq!(order, vec![2, 1, 3]);
    assert!(s.get_slots_in_range(Some(date(2026, 12, 11)), None).is_empty());
    assert_eq!(s.get_slots_in_range(None, Some(date(2026, 12, 10))).len(), 3);
}
