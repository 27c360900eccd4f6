use wfh_bot::basic_structures::{LocalDate, LocalDateTime, PartialDayEvent, WholeDayEvent};
use wfh_bot::message_processor::BotStateProcessor;
use wfh_bot::user_data::{BotState, UserInfo};
use wfh_bot::events_sender::WfhSingleDay;
use wfh_bot::message_processor::wfh::{
    make_same_with_hours, make_wfh_before_now, make_wfh_for_day_after, make_wfh_for_today,
    make_wfh_for_tomorrow, make_wfh_from_now, make_wfh_partial_day_event, make_whf_single_day,
};

fn date(year: i32, month: u32, day: u32) -> LocalDate {
    LocalDate { year, month, day }
}

fn moment(d: LocalDate, h: u32, m: u32, s: u32, ns: u32, off: i32) -> LocalDateTime {
    LocalDateTime { date: d, hour: h, minute: m, second: s, nanosecond: ns, offset_seconds: off }
}

#[test]
fn whole_day_event_writes_dates_as_year_month_day() {
    let e = WholeDayEvent::new("WFH: I.Petrov".to_string(), &date(2017, 5, 5), &date(2017, 5, 6));
    assert_eq!(e.summary, "WFH: I.Petrov");
    assert_eq!(e.start.date, "2017-05-05");
    assert_eq!(e.end.date, "2017-05-06");
}

#[test]
fn years_outside_four_digits_are_signed() {
    let e = WholeDayEvent::new("x".to_string(), &date(12, 1, 2), &date(-1, 12, 31));
    assert_eq!(e.start.date, "0012-01-02");
    assert_eq!(e.end.date, "-0001-12-31");
    let e = WholeDayEvent::new("x".to_string(), &date(10000, 2, 29), &date(0, 1, 1));
    assert_eq!(e.start.date, "+10000-02-29");
    assert_eq!(e.end.date, "0000-01-01");
}

#[test]
fn partial_day_event_writes_rfc3339() {
    let e = PartialDayEvent::new(
        "WFH: A.B".to_string(),
        &moment(date(2017, 5, 5), 9, 0, 0, 0, 3 * 3600),
        &moment(date(2017, 5, 5), 13, 7, 42, 500_000_000, -5 * 3600),
    );
    assert_eq!(e.summary, "WFH: A.B");
    assert_eq!(e.start.date_time, "2017-05-05T09:00:00+03:00");
    assert_eq!(e.end.date_time, "2017-05-05T13:07:42.500-05:00");
}

#[test]
fn single_day_event_of_the_command_conversation() {
    let e = WfhSingleDay::new("I.Petrov", &date(2017, 5, 5));
    assert_eq!(e.summary, "WFH I.Petrov");
    assert_eq!(e.start.date, "2017-05-05");
    assert_eq!(e.end.date, "2017-05-05");
}

#[test]
fn dialog_day_event_has_colon_title() {
    let e = make_whf_single_day("J.Doe", &date(2024, 2, 29));
    assert_eq!(e.summary, "WFH: J.Doe");
    assert_eq!(e.start.date, "2024-02-29");
    assert_eq!(e.end.date, "2024-02-29");
}

#[test]
fn day_after_crosses_months_years_and_leap_days() {
    let next = |d: LocalDate| make_wfh_for_day_after("n", d).unwrap().start.date;
    assert_eq!(next(date(2020, 2, 28)), "2020-02-29");
    assert_eq!(next(date(2019, 2, 28)), "2019-03-01");
    assert_eq!(next(date(1900, 2, 28)), "1900-03-01");
    assert_eq!(next(date(2000, 2, 28)), "2000-02-29");
    assert_eq!(next(date(2017, 12, 31)), "2018-01-01");
    assert_eq!(next(date(2017, 4, 30)), "2017-05-01");
    assert!(make_wfh_for_day_after("n", date(262142, 12, 31)).is_none());
}

#[test]
fn partial_day_event_between_moments() {
    let e = make_wfh_partial_day_event(
        "J.Doe",
        &moment(date(2017, 5, 5), 9, 0, 0, 0, 0),
        &moment(date(2017, 5, 5), 20, 0, 0, 0, 0),
    );
    assert_eq!(e.summary, "WFH: J.Doe");
    assert_eq!(e.start.date_time, "2017-05-05T09:00:00+00:00");
    assert_eq!(e.end.date_time, "2017-05-05T20:00:00+00:00");
}

#[test]
fn clock_gives_a_valid_day() {
    let p = BotStateProcessor::new();
    let mut u = UserInfo::new(1, BotState::WfhConfirmation, "A".to_string(), "B".to_string());
    let (_, today) = p.process(&mut u, "yes").wfh.unwrap();
    assert!((1..=12).contains(&today.month));
    assert!((1..=31).contains(&today.day));
}

#[test]
fn same_day_at_an_hour() {
    let t0 = moment(date(2021, 6, 15), 14, 33, 12, 7, 7200);
    if let Some(t) = make_same_with_hours(&t0, 9) {
        assert_eq!(t.date, t0.date);
        assert_eq!((t.hour, t.minute, t.second, t.nanosecond), (9, 0, 0, 0));
    }
    let far = moment(date(262142, 6, 15), 14, 33, 12, 7, 0);
    if let Some(t) = make_same_with_hours(&far, 9) {
        assert_eq!((t.date, t.hour, t.minute, t.second, t.nanosecond), (far.date, 9, 0, 0, 0));
    }
}

#[test]
fn events_from_the_clock() {
    let today = make_wfh_for_today("A.B");
    assert_eq!(today.summary, "WFH: A.B");
    assert_eq!(today.start.date, today.end.date);
    assert_eq!(today.start.date.len(), 10);
    let tomorrow = make_wfh_for_tomorrow("A.B").unwrap();
    assert_ne!(tomorrow.start.date, today.start.date);
    if let Some(e) = make_wfh_before_now("A.B") {
        assert!(e.start.date_time.contains("T09:00:00"));
        assert_eq!(e.summary, "WFH: A.B");
    }
    if let Some(e) = make_wfh_from_now("A.B") {
        assert!(e.end.date_time.contains("T20:00:00"));
    }
}

#[test]
fn rfc3339_fractions_offsets_and_leap_seconds() {
    let text = |t: LocalDateTime| PartialDayEvent::new(String::new(), &t, &t).start.date_time;
    let d = date(2017, 5, 5);
    assert_eq!(text(moment(d, 23, 59, 59, 1_500_000_000, 0)), "2017-05-05T23:59:60.500+00:00");
    assert_eq!(text(moment(d, 0, 0, 0, 1_000, 19_800)), "2017-05-05T00:00:00.000001+05:30");
    assert_eq!(text(moment(d, 0, 0, 0, 1, -1_800)), "2017-05-05T00:00:00.000000001-00:30");
    assert_eq!(text(moment(d, 1, 2, 3, 120_000_000, 3_599)), "2017-05-05T01:02:03.120+01:00");
    assert_eq!(text(moment(date(10000, 1, 1), 0, 0, 0, 0, 0)), "+10000-01-01T00:00:00+00:00");
    assert_eq!(text(moment(date(-5, 1, 1), 0, 0, 0, 0, 0)), "-0005-01-01T00:00:00+00:00");
}

#[test]
fn moments_at_the_ends_of_the_calendar_are_written() {
    let last = moment(date(262142, 12, 31), 10, 0, 0, 0, 0);
    assert!(last.is_writable());
    let e = PartialDayEvent::new("x".to_string(), &last, &last);
    assert_eq!(e.start.date_time, "+262142-12-31T10:00:00+00:00");
    let first = moment(date(-262143, 1, 1), 5, 30, 0, 0, 3600);
    assert!(first.is_writable());
    let e = PartialDayEvent::new("x".to_string(), &first, &first);
    assert_eq!(e.start.date_time, "-262143-01-01T05:30:00+01:00");
}

#[test]
fn moments_whose_utc_date_falls_outside_the_calendar_are_not_writable() {
    assert!(!moment(date(262142, 12, 31), 23, 30, 0, 0, -3600).is_writable());
    assert!(!moment(date(-262143, 1, 1), 0, 30, 0, 0, 3600).is_writable());
    assert!(moment(date(-262143, 1, 1), 1, 0, 0, 0, 3600).is_writable());
    assert!(!moment(date(2020, 2, 30), 1, 0, 0, 0, 0).is_writable());
    assert!(moment(date(2016, 12, 31), 23, 59, 59, 1_500_000_000, 0).is_writable());
}

#[test]
fn leap_second_moved_to_nine_sharp() {
    let leap = moment(date(2016, 12, 31), 23, 59, 59, 1_500_000_000, 0);
    if let Some(t) = make_same_with_hours(&leap, 9) {
        assert_eq!((t.date, t.hour, t.minute, t.second, t.nanosecond), (leap.date, 9, 0, 0, 0));
    }
}
