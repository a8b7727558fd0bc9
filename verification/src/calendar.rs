use vstd::prelude::*;

use crate::text::push_char;
use chrono::Datelike;
use chrono::Timelike;

verus! {

/// Day number (counted from 0001-01-01 = 1) of the first date chrono can represent,
/// January 1 of the year -262143.
pub const MIN_DAY_NUMBER: i32 = -95746129i32;

/// Day number of the last date chrono can represent, December 31 of the year 262142.
pub const MAX_DAY_NUMBER: i32 = 95745399i32;

/// Day number of 1970-01-01.
pub const UNIX_EPOCH_DAY: i64 = 719163i64;

pub open spec fn valid_day_number(d: int) -> bool {
    MIN_DAY_NUMBER <= d <= MAX_DAY_NUMBER
}

/// A time of day as chrono holds it: whole seconds since midnight and a fraction in
/// nanoseconds, which reaches past one second only during a leap second.
pub open spec fn valid_clock(secs: int, frac: int) -> bool {
    &&& 0 <= secs < 86400
    &&& 0 <= frac < 2_000_000_000
    &&& frac >= 1_000_000_000 ==> secs % 60 == 59
}

/// A UTC instant given as Unix seconds and nanoseconds, within chrono's range.
pub open spec fn valid_unix(secs: int, nanos: int) -> bool {
    &&& valid_day_number(secs / 86400 + UNIX_EPOCH_DAY)
    &&& valid_clock(secs % 86400, nanos)
}

/// A calendar date, held as its day number in the proleptic Gregorian calendar
/// (0001-01-01 is day 1), as chrono's `NaiveDate::num_days_from_ce` gives it.
#[derive(Clone, Copy, Debug, PartialEq, Eq, Structural, Hash)]
pub struct Date {
    days: i32,
}

/// A time of day, as chrono's `NaiveTime` holds it.
#[derive(Clone, Copy, Debug, PartialEq, Eq, Structural, Hash)]
pub struct TimeOfDay {
    secs: u32,
    frac: u32,
}

/// An instant in UTC, as chrono's `DateTime<Utc>` holds it.
#[derive(Clone, Copy, Debug, PartialEq, Eq, Structural, Hash)]
pub struct UtcTimestamp {
    secs: i64,
    nanos: u32,
}

impl Date {
    #[verifier::type_invariant]
    spec fn inv(self) -> bool {
        valid_day_number(self.days as int)
    }

    pub closed spec fn day(self) -> int {
        self.days as int
    }

    /// The date with the given day number, if chrono can represent it.
    pub fn from_days_from_ce(days: i32) -> (r: Option<Date>)
        ensures
            r is Some <==> valid_day_number(days as int),
            r matches Some(d) ==> d.day() == days,
    {
        if MIN_DAY_NUMBER <= days && days <= MAX_DAY_NUMBER {
            Some(Date { days })
        } else {
            None
        }
    }

    pub fn days_from_ce(&self) -> (r: i32)
        ensures
            r == self.day(),
            valid_day_number(r as int),
    {
        proof {
            use_type_invariant(self);
        }
        self.days
    }

    /// Whether `self` comes strictly before `other`.
    pub fn is_before(&self, other: &Date) -> (r: bool)
        ensures
            r == (self.day() < other.day()),
    {
        self.days < other.days
    }
}

impl TimeOfDay {
    #[verifier::type_invariant]
    spec fn inv(self) -> bool {
        valid_clock(self.secs as int, self.frac as int)
    }

    pub closed spec fn second(self) -> int {
        self.secs as int
    }

    pub closed spec fn fraction(self) -> int {
        self.frac as int
    }

    /// The time of day at `secs` seconds after midnight plus `frac` nanoseconds,
    /// if chrono can represent it.
    pub fn from_secs_frac(secs: u32, frac: u32) -> (r: Option<TimeOfDay>)
        ensures
            r is Some <==> valid_clock(secs as int, frac as int),
            r matches Some(t) ==> t.second() == secs && t.fraction() == frac,
    {
        if secs < 86400 && frac < 2_000_000_000 && (frac < 1_000_000_000 || secs % 60 == 59) {
            Some(TimeOfDay { secs, frac })
        } else {
            None
        }
    }

    /// The time of day `hour:minute:00`.
    pub fn from_hm(hour: u32, minute: u32) -> (r: Option<TimeOfDay>)
        ensures
            r is Some <==> (hour < 24 && minute < 60),
            r matches Some(t) ==> t.second() == hour * 3600 + minute * 60 && t.fraction() == 0,
    {
        if hour < 24 && minute < 60 {
            Some(TimeOfDay { secs: hour * 3600 + minute * 60, frac: 0 })
        } else {
            None
        }
    }

    pub fn num_seconds_from_midnight(&self) -> (r: u32)
        ensures
            r == self.second(),
            valid_clock(self.second(), self.fraction()),
    {
        proof {
            use_type_invariant(self);
        }
        self.secs
    }

    pub fn nanosecond(&self) -> (r: u32)
        ensures
            r == self.fraction(),
            valid_clock(self.second(), self.fraction()),
    {
        proof {
            use_type_invariant(self);
        }
        self.frac
    }

    /// Chrono's order on times of day: by second, then by fraction.
    pub open spec fn precedes(self, other: TimeOfDay) -> bool {
        self.second() < other.second() || (self.second() == other.second() && self.fraction()
            < other.fraction())
    }

    /// Whether `self` comes strictly before `other`.
    pub fn is_before(&self, other: &TimeOfDay) -> (r: bool)
        ensures
            r == self.precedes(*other),
    {
        self.secs < other.secs || (self.secs == other.secs && self.frac < other.frac)
    }
}

impl UtcTimestamp {
    #[verifier::type_invariant]
    spec fn inv(self) -> bool {
        valid_unix(self.secs as int, self.nanos as int)
    }

    pub closed spec fn unix_secs(self) -> int {
        self.secs as int
    }

    pub closed spec fn subsec_nanos(self) -> int {
        self.nanos as int
    }

    /// The instant `secs` seconds and `nanos` nanoseconds after the Unix epoch,
    /// if chrono can represent it.
    pub fn from_unix(secs: i64, nanos: u32) -> (r: Option<UtcTimestamp>)
        ensures
            r is Some <==> valid_unix(secs as int, nanos as int),
            r matches Some(t) ==> t.unix_secs() == secs && t.subsec_nanos() == nanos,
    {
        let (day, sec_of_day) = if secs >= 0 {
            (secs / 86400, secs % 86400)
        } else {
            let p: i64 = -(secs + 1);
            (-(p / 86400) - 1, 86399 - p % 86400)
        };
        assert(day == secs / 86400 && sec_of_day == secs % 86400) by (nonlinear_arith)
            requires
                secs >= 0 ==> day == secs / 86400 && sec_of_day == secs % 86400,
                secs < 0 ==> day == -((-(secs + 1)) / 86400) - 1 && sec_of_day == 86399 - (-(
                secs + 1)) % 86400,
        ;
        let d = day + UNIX_EPOCH_DAY;
        if d < MIN_DAY_NUMBER as i64 || d > MAX_DAY_NUMBER as i64 {
            return None;
        }
        let s = sec_of_day as u32;
        if nanos < 2_000_000_000 && (nanos < 1_000_000_000 || s % 60 == 59) {
            Some(UtcTimestamp { secs, nanos })
        } else {
            None
        }
    }

    pub fn timestamp(&self) -> (r: i64)
        ensures
            r == self.unix_secs(),
            valid_unix(self.unix_secs(), self.subsec_nanos()),
    {
        proof {
            use_type_invariant(self);
        }
        self.secs
    }

    pub fn timestamp_subsec_nanos(&self) -> (r: u32)
        ensures
            r == self.subsec_nanos(),
            valid_unix(self.unix_secs(), self.subsec_nanos()),
    {
        proof {
            use_type_invariant(self);
        }
        self.nanos
    }
}

/// The decimal digit `d` as a character.
pub open spec fn digit_char(d: int) -> char {
    (48 + d) as char
}

/// `n` written with two decimal digits.
pub open spec fn two_digits(n: int) -> Seq<char> {
    seq![digit_char(n / 10), digit_char(n % 10)]
}

/// A time of day written as `HH:MM`, as chrono's `%H:%M` writes it.
pub open spec fn hour_minute_text(secs: int) -> Seq<char> {
    two_digits(secs / 3600) + seq![':'] + two_digits((secs / 60) % 60)
}

fn push_two_digits(s: &mut String, n: u32)
    requires
        n < 100,
    ensures
        final(s)@ == old(s)@ + two_digits(n as int),
{
    let hi = (48 + n / 10) as u8 as char;
    let lo = (48 + n % 10) as u8 as char;
    push_char(s, hi);
    push_char(s, lo);
    assert(final(s)@ =~= old(s)@ + two_digits(n as int));
}

impl TimeOfDay {
    /// This time written as `HH:MM`.
    pub fn hour_minute(&self) -> (r: String)
        ensures
            r@ == hour_minute_text(self.second()),
    {
        proof {
            use_type_invariant(self);
        }
        let mut s = String::new();
        push_two_digits(&mut s, self.secs / 3600);
        push_char(&mut s, ':');
        push_two_digits(&mut s, (self.secs / 60) % 60);
        assert(s@ =~= hour_minute_text(self.second()));
        s
    }
}

} // verus!

verus! {

/// What chrono and chrono-tz give as the Unix time in milliseconds of the Moscow wall-clock
/// time `secs` seconds (plus `frac` nanoseconds) after midnight on day number `day`,
/// where that wall-clock time names exactly one instant; `None` where it names none or two.
pub uninterp spec fn moscow_local_to_utc_millis(day: int, secs: int, frac: int) -> Option<int>;

/// What chrono's `Display` of `NaiveDate` writes for the date with day number `day`.
pub uninterp spec fn date_text(day: int) -> Seq<char>;

/// What chrono writes for a UTC instant under the pattern `%Y-%m-%d %H:%M:%S`.
pub uninterp spec fn utc_text(secs: int, nanos: int) -> Seq<char>;

/// What chrono's `NaiveTime::parse_from_str(s, "%H:%M")` gives, as the parsed time's
/// seconds since midnight and nanoseconds; `None` where it fails.
pub uninterp spec fn parse_hour_minute(s: Seq<char>) -> Option<(int, int)>;

/// Calls chrono's `Utc::now`. The instant read from the system clock is not stated:
/// two calls may return any two valid instants.
#[verifier::external_body]
pub(crate) fn utc_now() -> UtcTimestamp {
    let now = chrono::Utc::now();
    UtcTimestamp { secs: now.timestamp(), nanos: now.timestamp_subsec_nanos() }
}

/// Calls chrono's `Utc::now`, converted with chrono-tz to the `Europe/Moscow` zone, and
/// returns the calendar date there. The date depends on the clock and is not stated.
#[verifier::external_body]
pub(crate) fn moscow_today() -> Date {
    let today = chrono::Utc::now().with_timezone(&chrono_tz::Europe::Moscow).date_naive();
    Date { days: today.num_days_from_ce() }
}

/// Calls chrono's `NaiveDateTime::and_local_timezone` with chrono-tz's `Europe/Moscow`,
/// keeps the result only where it is a single instant (`LocalResult::single`), and returns
/// that instant's `timestamp_millis`. The result is named by `moscow_local_to_utc_millis`.
#[verifier::external_body]
pub(crate) fn moscow_millis(date: Date, time: TimeOfDay) -> (r: Option<i64>)
    ensures
        match r {
            Some(m) => moscow_local_to_utc_millis(date.day(), time.second(), time.fraction())
                == Some(m as int),
            None => moscow_local_to_utc_millis(
                date.day(),
                time.second(),
                time.fraction(),
            ) is None,
        },
{
    let d = chrono::NaiveDate::from_num_days_from_ce_opt(date.days).unwrap();
    let t = chrono::NaiveTime::from_num_seconds_from_midnight_opt(time.secs, time.frac).unwrap();
    d.and_time(t).and_local_timezone(chrono_tz::Europe::Moscow).single().map(
        |dt| dt.timestamp_millis(),
    )
}

/// Calls chrono's `Display` of `NaiveDate` (`to_string`). The text is named by `date_text`.
#[verifier::external_body]
pub(crate) fn date_to_string(date: Date) -> (r: String)
    ensures
        r@ == date_text(date.day()),
{
    chrono::NaiveDate::from_num_days_from_ce_opt(date.days).unwrap().to_string()
}

/// Calls chrono's `DateTime<Utc>::format("%Y-%m-%d %H:%M:%S")`. The text is named by
/// `utc_text`.
#[verifier::external_body]
pub(crate) fn utc_to_string(t: UtcTimestamp) -> (r: String)
    ensures
        r@ == utc_text(t.unix_secs(), t.subsec_nanos()),
{
    chrono::DateTime::from_timestamp(t.secs, t.nanos).unwrap().format("%Y-%m-%d %H:%M:%S")
        .to_string()
}

/// Calls chrono's `NaiveTime::parse_from_str(s, "%H:%M")`. The outcome is named by
/// `parse_hour_minute`.
#[verifier::external_body]
pub(crate) fn parse_hh_mm(s: &str) -> (r: Option<TimeOfDay>)
    ensures
        match r {
            Some(t) => parse_hour_minute(s@) == Some((t.second(), t.fraction())),
            None => parse_hour_minute(s@) is None,
        },
{
    chrono::NaiveTime::parse_from_str(s, "%H:%M").ok().map(
        |t| TimeOfDay { secs: t.num_seconds_from_midnight(), frac: t.nanosecond() },
    )
}

} // verus!
