//! Values that pass between the bot's logic and the outside world: menus,
//! calendar dates and times, and the calendar events the bot posts.

use vstd::prelude::*;

use chrono::{Datelike, Offset, TimeZone, Timelike};

use crate::text::{decimal, padded};

verus! {

/// Rows of buttons shown under a message.
pub type Menu = Vec<Vec<String>>;

/// The characters of each button, row by row.
pub open spec fn menu_view(m: Menu) -> Seq<Seq<Seq<char>>> {
    m@.map_values(|row: Vec<String>| row@.map_values(|s: String| s@))
}

/// Earliest year of the calendar dates that can be represented.
pub const MIN_YEAR: i32 = -262143;

/// Latest year of the calendar dates that can be represented.
pub const MAX_YEAR: i32 = 262142;

pub open spec fn is_leap_year(y: int) -> bool {
    (y % 4 == 0 && y % 100 != 0) || y % 400 == 0
}

pub open spec fn days_in_month(y: int, m: int) -> int {
    if m == 2 {
        if is_leap_year(y) { 29 } else { 28 }
    } else if m == 4 || m == 6 || m == 9 || m == 11 {
        30
    } else {
        31
    }
}

/// A day of the proleptic Gregorian calendar in the local time zone.
#[derive(Clone, Copy, Debug, PartialEq, Eq, Structural)]
pub struct LocalDate {
    pub year: i32,
    pub month: u32,
    pub day: u32,
}

impl LocalDate {
    /// The date exists and lies in the representable range.
    pub open spec fn valid(self) -> bool {
        &&& MIN_YEAR <= self.year <= MAX_YEAR
        &&& 1 <= self.month <= 12
        &&& 1 <= self.day <= days_in_month(self.year as int, self.month as int)
    }

    /// The first representable date.
    pub open spec fn is_first(self) -> bool {
        self.year == MIN_YEAR && self.month == 1 && self.day == 1
    }

    /// The last representable date.
    pub open spec fn is_last(self) -> bool {
        self.year == MAX_YEAR && self.month == 12 && self.day == 31
    }

    /// The following day.
    pub open spec fn next(self) -> LocalDate {
        if self.day < days_in_month(self.year as int, self.month as int) {
            LocalDate { year: self.year, month: self.month, day: (self.day + 1) as u32 }
        } else if self.month < 12 {
            LocalDate { year: self.year, month: (self.month + 1) as u32, day: 1 }
        } else {
            LocalDate { year: (self.year + 1) as i32, month: 1, day: 1 }
        }
    }
}

/// A moment given by its local date and time of day, together with the
/// local time zone's offset from UTC at that moment, in seconds.
#[derive(Clone, Copy, Debug, PartialEq, Eq, Structural)]
pub struct LocalDateTime {
    pub date: LocalDate,
    pub hour: u32,
    pub minute: u32,
    pub second: u32,
    /// Nanoseconds within the second; values from 1_000_000_000 mark a
    /// leap second.
    pub nanosecond: u32,
    pub offset_seconds: i32,
}

impl LocalDateTime {
    pub open spec fn valid(self) -> bool {
        &&& self.date.valid()
        &&& self.hour < 24
        &&& self.minute < 60
        &&& self.second < 60
        &&& self.nanosecond < 2_000_000_000
        &&& self.nanosecond >= 1_000_000_000 ==> self.second == 59
        &&& -86_400 < self.offset_seconds < 86_400
    }

    /// The time of day in whole seconds less the offset: the time of day
    /// in UTC, counted from the midnight that starts the local date.
    pub open spec fn utc_seconds_of_day(self) -> int {
        self.hour * 3600 + self.minute * 60 + self.second - self.offset_seconds
    }

    /// The moment is valid and, taken in UTC, still falls on a
    /// representable date.
    pub open spec fn writable(self) -> bool {
        &&& self.valid()
        &&& self.date.is_first() ==> self.utc_seconds_of_day() >= 0
        &&& self.date.is_last() ==> self.utc_seconds_of_day() < 86_400
    }
}

} // verus!

verus! {

/// A calendar day as the calendar service writes it.
pub struct CalendarDate {
    pub date: String,
}

/// An event that lasts whole days, from `start` to `end`.
pub struct WholeDayEvent {
    pub summary: String,
    pub start: CalendarDate,
    pub end: CalendarDate,
}

/// A moment as the calendar service writes it.
pub struct CalendarDateTime {
    pub date_time: String,
}

/// An event from one moment to another.
pub struct PartialDayEvent {
    pub summary: String,
    pub start: CalendarDateTime,
    pub end: CalendarDateTime,
}

/// Summary, start and end of an event, as characters.
pub struct EventTexts {
    pub summary: Seq<char>,
    pub start: Seq<char>,
    pub end: Seq<char>,
}

impl View for WholeDayEvent {
    type V = EventTexts;

    open spec fn view(&self) -> EventTexts {
        EventTexts { summary: self.summary@, start: self.start.date@, end: self.end.date@ }
    }
}

impl View for PartialDayEvent {
    type V = EventTexts;

    open spec fn view(&self) -> EventTexts {
        EventTexts {
            summary: self.summary@,
            start: self.start.date_time@,
            end: self.end.date_time@,
        }
    }
}

/// Where the bot posts calendar events.
pub trait EventsSender {
    fn post_whole_day(&mut self, event: WholeDayEvent);

    fn post_partial_day(&mut self, event: PartialDayEvent);
}

} // verus!

verus! {

/// A year as the `%Y` format writes it: four digits with leading zeros
/// within 0..=9999, otherwise signed.
pub open spec fn year_text(y: int) -> Seq<char> {
    if 0 <= y <= 9999 {
        padded(y as nat, 4)
    } else if y > 9999 {
        seq!['+'] + decimal(y as nat)
    } else {
        seq!['-'] + padded((-y) as nat, 4)
    }
}

/// A date as the `%Y-%m-%d` format writes it.
pub open spec fn ymd_text(d: LocalDate) -> Seq<char> {
    year_text(d.year as int) + seq!['-'] + padded(d.month as nat, 2) + seq!['-'] + padded(
        d.day as nat,
        2,
    )
}

/// A fraction of a second as `to_rfc3339` writes it: nothing for a whole
/// second, otherwise milli-, micro- or nanoseconds, the first that is
/// exact.
pub open spec fn fraction_text(n: nat) -> Seq<char> {
    if n == 0 {
        Seq::empty()
    } else if n % 1_000_000 == 0 {
        seq!['.'] + padded(n / 1_000_000, 3)
    } else if n % 1000 == 0 {
        seq!['.'] + padded(n / 1000, 6)
    } else {
        seq!['.'] + padded(n, 9)
    }
}

/// An offset from UTC in seconds as `to_rfc3339` writes it: a sign, then
/// hours and minutes, rounded to the nearest minute.
pub open spec fn offset_text(off: int) -> Seq<char> {
    let a = if off < 0 {
        -off
    } else {
        off
    };
    let minutes = (a + 30) / 60;
    seq![
        if off < 0 {
            '-'
        } else {
            '+'
        },
    ] + padded((minutes / 60) as nat, 2) + seq![':'] + padded((minutes % 60) as nat, 2)
}

/// A moment as chrono's `to_rfc3339` writes it; a leap second is written
/// as second 60.
pub open spec fn moment_text(t: LocalDateTime) -> Seq<char> {
    let leap = t.nanosecond >= 1_000_000_000;
    let second = if leap {
        t.second + 1
    } else {
        t.second as int
    };
    let nano = if leap {
        t.nanosecond - 1_000_000_000
    } else {
        t.nanosecond as int
    };
    ymd_text(t.date) + seq!['T'] + padded(t.hour as nat, 2) + seq![':'] + padded(
        t.minute as nat,
        2,
    ) + seq![':'] + padded(second as nat, 2) + fraction_text(nano as nat) + offset_text(
        t.offset_seconds as int,
    )
}

/// Calls `chrono::Local::today`: today's date in the local time zone. It
/// depends on the clock and the time zone, so the contract only says that
/// the date is a valid one.
#[verifier::external_body]
pub(crate) fn local_today() -> (d: LocalDate)
    ensures
        d.valid(),
{
    #[allow(deprecated)]
    let today = chrono::Local::today();
    LocalDate { year: today.year(), month: today.month(), day: today.day() }
}

/// Calls `chrono::Local::now`: the current moment in the local time zone.
/// It depends on the clock and the time zone, so the contract only says
/// that the moment is a valid one.
#[verifier::external_body]
pub(crate) fn local_now() -> (t: LocalDateTime)
    ensures
        t.valid(),
{
    let now = chrono::Local::now();
    LocalDateTime {
        date: LocalDate { year: now.year(), month: now.month(), day: now.day() },
        hour: now.hour(),
        minute: now.minute(),
        second: now.second(),
        nanosecond: now.nanosecond(),
        offset_seconds: now.offset().fix().local_minus_utc(),
    }
}

/// Adds a day to a date with chrono (`NaiveDate + Duration::days(1)`),
/// which gives the next calendar day; chrono panics past its last date.
#[verifier::external_body]
pub(crate) fn next_day(d: LocalDate) -> (r: LocalDate)
    requires
        d.valid(),
        !d.is_last(),
    ensures
        r == d.next(),
{
    let date = chrono::NaiveDate::from_ymd_opt(d.year, d.month, d.day).unwrap()
        + chrono::Duration::days(1);
    LocalDate { year: date.year(), month: date.month(), day: date.day() }
}

/// `u` is a valid moment on the same local date as `t`.
pub open spec fn same_local_date(t: LocalDateTime, u: LocalDateTime) -> bool {
    &&& u.valid()
    &&& u.date == t.date
}

/// Calls chrono's `DateTime::<Local>::with_hour` on the moment in the
/// local time zone that has the date and time of `t` (its offset is not
/// read): the same local date and time with the hour replaced, none where
/// that local time does not exist, is ambiguous or has no representable
/// date in UTC. The new offset comes from the local time zone, so the
/// contract leaves it open.
#[verifier::external_body]
pub(crate) fn with_hour(t: LocalDateTime, hour: u32) -> (r: Option<LocalDateTime>)
    requires
        t.valid(),
        hour < 24,
    ensures
        r matches Some(u) ==> same_local_date(t, u) && u.hour == hour && u.minute == t.minute
            && u.second == t.second && u.nanosecond == t.nanosecond,
{
    let naive = chrono::NaiveDate::from_ymd_opt(t.date.year, t.date.month, t.date.day)?
        .and_hms_nano_opt(t.hour, t.minute, t.second, t.nanosecond)?;
    let dt = chrono::Local.from_local_datetime(&naive).earliest()?.with_hour(hour)?;
    Some(LocalDateTime {
        date: LocalDate { year: dt.year(), month: dt.month(), day: dt.day() },
        hour: dt.hour(), minute: dt.minute(), second: dt.second(), nanosecond: dt.nanosecond(),
        offset_seconds: dt.offset().fix().local_minus_utc(),
    })
}

/// Calls chrono's `DateTime::<Local>::with_minute` on the moment, as
/// `with_hour` does for the hour.
#[verifier::external_body]
pub(crate) fn with_minute(t: LocalDateTime, minute: u32) -> (r: Option<LocalDateTime>)
    requires
        t.valid(),
        minute < 60,
    ensures
        r matches Some(u) ==> same_local_date(t, u) && u.hour == t.hour && u.minute == minute
            && u.second == t.second && u.nanosecond == t.nanosecond,
{
    let naive = chrono::NaiveDate::from_ymd_opt(t.date.year, t.date.month, t.date.day)?
        .and_hms_nano_opt(t.hour, t.minute, t.second, t.nanosecond)?;
    let dt = chrono::Local.from_local_datetime(&naive).earliest()?.with_minute(minute)?;
    Some(LocalDateTime {
        date: LocalDate { year: dt.year(), month: dt.month(), day: dt.day() },
        hour: dt.hour(), minute: dt.minute(), second: dt.second(), nanosecond: dt.nanosecond(),
        offset_seconds: dt.offset().fix().local_minus_utc(),
    })
}

/// Calls chrono's `DateTime::<Local>::with_second` on the moment, as
/// `with_hour` does for the hour. chrono keeps the fraction of the second,
/// so the moment must not be a leap second.
#[verifier::external_body]
pub(crate) fn with_second(t: LocalDateTime, second: u32) -> (r: Option<LocalDateTime>)
    requires
        t.valid(),
        t.nanosecond < 1_000_000_000,
        second < 60,
    ensures
        r matches Some(u) ==> same_local_date(t, u) && u.hour == t.hour && u.minute == t.minute
            && u.second == second && u.nanosecond == t.nanosecond,
{
    let naive = chrono::NaiveDate::from_ymd_opt(t.date.year, t.date.month, t.date.day)?
        .and_hms_nano_opt(t.hour, t.minute, t.second, t.nanosecond)?;
    let dt = chrono::Local.from_local_datetime(&naive).earliest()?.with_second(second)?;
    Some(LocalDateTime {
        date: LocalDate { year: dt.year(), month: dt.month(), day: dt.day() },
        hour: dt.hour(), minute: dt.minute(), second: dt.second(), nanosecond: dt.nanosecond(),
        offset_seconds: dt.offset().fix().local_minus_utc(),
    })
}

/// Calls chrono's `DateTime::<Local>::with_nanosecond` on the moment, as
/// `with_hour` does for the hour.
#[verifier::external_body]
pub(crate) fn with_nanosecond(t: LocalDateTime, nanosecond: u32) -> (r: Option<LocalDateTime>)
    requires
        t.valid(),
        nanosecond < 1_000_000_000,
    ensures
        r matches Some(u) ==> same_local_date(t, u) && u.hour == t.hour && u.minute == t.minute
            && u.second == t.second && u.nanosecond == nanosecond,
{
    let naive = chrono::NaiveDate::from_ymd_opt(t.date.year, t.date.month, t.date.day)?
        .and_hms_nano_opt(t.hour, t.minute, t.second, t.nanosecond)?;
    let dt = chrono::Local.from_local_datetime(&naive).earliest()?.with_nanosecond(nanosecond)?;
    Some(LocalDateTime {
        date: LocalDate { year: dt.year(), month: dt.month(), day: dt.day() },
        hour: dt.hour(), minute: dt.minute(), second: dt.second(), nanosecond: dt.nanosecond(),
        offset_seconds: dt.offset().fix().local_minus_utc(),
    })
}

/// Formats a date with chrono's `%Y-%m-%d`.
#[verifier::external_body]
pub(crate) fn format_date(d: LocalDate) -> (s: String)
    requires
        d.valid(),
    ensures
        s@ == ymd_text(d),
{
    chrono::NaiveDate::from_ymd_opt(d.year, d.month, d.day).unwrap().format("%Y-%m-%d").to_string()
}

/// Formats a moment with chrono's `to_rfc3339`, taking the moment as the
/// local date and time at its offset from UTC. chrono builds that moment
/// only where its UTC date is representable.
#[verifier::external_body]
pub(crate) fn format_rfc3339(t: LocalDateTime) -> (s: String)
    requires
        t.writable(),
    ensures
        s@ == moment_text(t),
{
    let naive = chrono::NaiveDate::from_ymd_opt(t.date.year, t.date.month, t.date.day).unwrap()
        .and_hms_nano_opt(t.hour, t.minute, t.second, t.nanosecond).unwrap();
    chrono::FixedOffset::east_opt(t.offset_seconds).unwrap().from_local_datetime(&naive).unwrap()
        .to_rfc3339()
}

impl WholeDayEvent {
    /// An event titled `text` over the given days.
    pub fn new(text: String, start_date: &LocalDate, end_date: &LocalDate) -> (r: Self)
        requires
            start_date.valid(),
            end_date.valid(),
        ensures
            r@ == (EventTexts {
                summary: text@,
                start: ymd_text(*start_date),
                end: ymd_text(*end_date),
            }),
    {
        let start = CalendarDate { date: format_date(*start_date) };
        let end = CalendarDate { date: format_date(*end_date) };
        WholeDayEvent { summary: text, start, end }
    }
}

impl PartialDayEvent {
    /// An event titled `text` between the given moments.
    pub fn new(text: String, start_date: &LocalDateTime, end_date: &LocalDateTime) -> (r: Self)
        requires
            start_date.writable(),
            end_date.writable(),
        ensures
            r@ == (EventTexts {
                summary: text@,
                start: moment_text(*start_date),
                end: moment_text(*end_date),
            }),
    {
        let start = CalendarDateTime { date_time: format_rfc3339(*start_date) };
        let end = CalendarDateTime { date_time: format_rfc3339(*end_date) };
        PartialDayEvent { summary: text, start, end }
    }
}

impl LocalDateTime {
    /// Whether the moment satisfies `writable`.
    pub fn is_writable(&self) -> (r: bool)
        ensures
            r == self.writable(),
    {
        let d = self.date;
        let valid = MIN_YEAR <= d.year && d.year <= MAX_YEAR && 1 <= d.month && d.month <= 12 && 1
            <= d.day && d.day <= days_in_month_exec(d.year, d.month) && self.hour < 24
            && self.minute < 60 && self.second < 60 && self.nanosecond < 2_000_000_000 && (
        self.nanosecond < 1_000_000_000 || self.second == 59) && -86_400 < self.offset_seconds
            && self.offset_seconds < 86_400;
        if !valid {
            return false;
        }
        let utc: i64 = self.hour as i64 * 3600 + self.minute as i64 * 60 + self.second as i64
            - self.offset_seconds as i64;
        let first = d.year == MIN_YEAR && d.month == 1 && d.day == 1;
        (!first || utc >= 0) && (!d.is_last_exec() || utc < 86_400)
    }
}

impl LocalDate {
    /// Whether this is the last representable date.
    pub fn is_last_exec(&self) -> (r: bool)
        ensures
            r == self.is_last(),
    {
        self.year == MAX_YEAR && self.month == 12 && self.day == 31
    }
}

/// The number of days of month `m` of year `y`.
pub fn days_in_month_exec(y: i32, m: u32) -> (r: u32)
    ensures
        r == days_in_month(y as int, m as int),
{
    if m == 2 {
        if (y % 4 == 0 && y % 100 != 0) || y % 400 == 0 {
            29
        } else {
            28
        }
    } else if m == 4 || m == 6 || m == 9 || m == 11 {
        30
    } else {
        31
    }
}

/// The day after a valid date other than the last one is a valid date,
/// and a later one.
pub proof fn lemma_next_day(d: LocalDate)
    requires
        d.valid(),
        !d.is_last(),
    ensures
        d.next().valid(),
        d.next().year > d.year || (d.next().year == d.year && (d.next().month > d.month || (
        d.next().month == d.month && d.next().day > d.day))),
{
}

} // verus!
