use wfh_bot::message_processor::dialog_processing::{
    AnyDialog, ChannelMessage, Dialog, DialogAction, DialogInitializationResult, DialogKind,
    DialogRegistry, DynamicNameGetter, register_dialog, Event, ReplyMessage, StaticNameGetter, kind_name_of,
};
use wfh_bot::message_processor::simple_dialogs::{
    HelpDialog, SetMyNameDialog, SimpleDialog, WhoAmIDialog, parse_name,
};
use wfh_bot::message_processor::wfh::{
    ChooseModeStateState, ConfirmationState, InitialState, WfhDialog, WfhState,
};
use wfh_bot::user_data::{BotState, UserInfo};

fn user(first: &str, last: &str) -> UserInfo {
    UserInfo::new(3, BotState::Initial, first.to_string(), last.to_string())
}

fn reply_text(r: &Option<ReplyMessage>) -> String {
    r.as_ref().unwrap().text.clone()
}

#[test]
fn help_dialog_answers_only_help() {
    let mut u = user("Ivan", "Petrov");
    let (reply, event) = HelpDialog::process_message("/help", &mut u).unwrap();
    assert_eq!(reply_text(&reply), "https://www.youtube.com/watch?v=yWP6Qki8mWc");
    assert!(reply.unwrap().menu.is_none());
    assert!(event.is_none());
    assert!(HelpDialog::process_message("help", &mut u).is_none());
    match HelpDialog::make("/help", &mut u) {
        DialogInitializationResult::Finished(r, None) => assert!(r.is_some()),
        _ => panic!("expected finished"),
    }
    assert!(matches!(HelpDialog::make("/wfh", &mut u), DialogInitializationResult::NotProcessed));
}

#[test]
fn whoami_dialog_shows_names() {
    let mut u = user("Ivan", "Petrov");
    let (reply, _) = WhoAmIDialog::process_message("/whoami", &mut u).unwrap();
    assert_eq!(reply_text(&reply), "Ivan Petrov\nIn calendar will be \"I.Petrov\"");
    let mut v = user("", "Petrov");
    let (reply, _) = WhoAmIDialog::process_message("/whoami now", &mut v).unwrap();
    assert_eq!(reply_text(&reply), " Petrov\nIn calendar will be \"<not specified>\"");
    assert!(WhoAmIDialog::process_message("/who", &mut v).is_none());
}

#[test]
fn setmyname_parses_and_sets_the_name() {
    assert_eq!(parse_name("/setmyname  J.Doe  "), Some("J.Doe"));
    assert_eq!(parse_name("/setmyname"), None);
    assert_eq!(parse_name("/setmyname \t "), None);
    assert_eq!(parse_name("/setmynameX"), Some("X"));
    let mut u = user("Ivan", "Petrov");
    let (reply, event) = SetMyNameDialog::process_message("/setmyname J.Doe", &mut u).unwrap();
    assert_eq!(reply_text(&reply), "Your calendar name will be \"J.Doe\"");
    assert!(event.is_none());
    assert_eq!(u.get_calendar_name(), Some(&"J.Doe".to_string()));
}

#[test]
fn setmyname_without_a_name_explains_the_format() {
    let mut u = user("Ivan", "Petrov");
    let (reply, _) = SetMyNameDialog::process_message("/setmyname   ", &mut u).unwrap();
    assert_eq!(
        reply_text(&reply),
        "No valid name is specified. Please specify name in format \"/setmyname J.Doe\""
    );
    assert_eq!(u.get_calendar_name(), Some(&"I.Petrov".to_string()));
    assert!(SetMyNameDialog::process_message("/help", &mut u).is_none());
}

#[test]
fn wfh_without_calendar_name_asks_to_set_one() {
    let mut u = user("Ivan", "");
    match WfhDialog::make("/wfh", &mut u) {
        DialogInitializationResult::Finished(r, None) => {
            assert_eq!(reply_text(&r), "Please specify your calendar name using /setmyname")
        }
        _ => panic!("expected finished"),
    }
    assert!(matches!(WfhDialog::make("/help", &mut u), DialogInitializationResult::NotProcessed));
}

fn start(u: &mut UserInfo) -> AnyDialog {
    match WfhDialog::make("/wfh", u) {
        DialogInitializationResult::StartedProcessing(r, None, d) => {
            let r = r.unwrap();
            assert_eq!(r.text, "When?");
            assert_eq!(
                r.menu.unwrap(),
                vec![
                    vec!["today".to_string(), "tomorrow".to_string()],
                    vec!["untill now".to_string(), "from now".to_string()],
                    vec!["other".to_string()],
                ]
            );
            *d
        }
        _ => panic!("expected started"),
    }
}

#[test]
fn wfh_today_confirmed_posts_whole_day_event() {
    let mut u = user("Ivan", "Petrov");
    let mut d = start(&mut u);
    match d.try_process("today", &mut u) {
        DialogAction::ProcessAndContinue(r, None) => {
            let r = r.unwrap();
            assert_eq!(r.text, "Confirm event wfh for today?");
            assert_eq!(r.menu.unwrap(), vec![vec!["yes".to_string(), "no".to_string()]]);
        }
        _ => panic!("expected continue"),
    }
    match d.try_process("yes", &mut u) {
        DialogAction::ProcessAndStop(r, Some(Event::WholeDay(e)), Some(c)) => {
            assert_eq!(reply_text(&r), "Applied!");
            assert_eq!(e.summary, "WFH: I.Petrov");
            assert_eq!(e.start.date, e.end.date);
            assert_eq!(c.text, "wfh today");
        }
        _ => panic!("expected stop with event"),
    }
    assert!(matches!(d, AnyDialog::Wfh(WfhDialog { state: WfhState::Initial(_) })));
}

#[test]
fn wfh_tomorrow_and_before_now_choices() {
    let mut u = user("Ivan", "Petrov");
    let mut d = start(&mut u);
    d.try_process("tomorrow", &mut u);
    match d.try_process("yes", &mut u) {
        DialogAction::ProcessAndStop(_, Some(Event::WholeDay(e)), Some(c)) => {
            assert_eq!(c.text, "wfh tommorow");
            assert_eq!(e.summary, "WFH: I.Petrov");
        }
        _ => panic!("expected tomorrow event"),
    }
    let mut d = start(&mut u);
    match d.try_process("untill now", &mut u) {
        DialogAction::ProcessAndContinue(r, None) => {
            assert_eq!(reply_text(&r), "Confirm event wfh for today before now?")
        }
        _ => panic!("expected continue"),
    }
    match d.try_process("yes", &mut u) {
        DialogAction::ProcessAndStop(_, e, Some(c)) => {
            assert_eq!(c.text, "wfh today untill now");
            if let Some(Event::PartialDay(p)) = e {
                assert!(p.start.date_time.contains("T09:00:00"));
            }
        }
        _ => panic!("expected stop"),
    }
}

#[test]
fn wfh_other_choices_stop_and_no_cancels() {
    let mut u = user("Ivan", "Petrov");
    let mut d = start(&mut u);
    assert!(matches!(d.try_process("from now", &mut u), DialogAction::Stop));
    let mut d = start(&mut u);
    assert!(matches!(d.try_process("other", &mut u), DialogAction::Stop));
    let mut d = start(&mut u);
    d.try_process("today", &mut u);
    match d.try_process("no", &mut u) {
        DialogAction::ProcessAndStop(r, None, None) => assert_eq!(reply_text(&r), "Canceled!"),
        _ => panic!("expected cancel"),
    }
}

#[test]
fn wfh_from_now_confirmation_state() {
    let mut u = user("Ivan", "Petrov");
    let mut s = ConfirmationState::TodayFromNow;
    let (next, action) = s.try_process("yes", &mut u);
    assert_eq!(next, WfhState::Initial(InitialState::new()));
    match action {
        DialogAction::ProcessAndStop(r, e, Some(c)) => {
            assert_eq!(reply_text(&r), "Applied!");
            assert_eq!(c.text, "wfh today from now");
            if let Some(Event::PartialDay(p)) = e {
                assert!(p.end.date_time.contains("T20:00:00"));
            }
        }
        _ => panic!("expected stop"),
    }
    let mut m = ChooseModeStateState::new();
    let (next, _) = m.try_process("today", &mut u);
    assert_eq!(next, WfhState::Confirmation(ConfirmationState::Today));
}

#[test]
fn dialog_names_read_back_from_the_registry() {
    assert_eq!(HelpDialog::get_name(), "help-dialog");
    assert_eq!(WhoAmIDialog::get_name(), "whoami-dialog");
    assert_eq!(SetMyNameDialog::get_name(), "setmyname-dialog");
    assert_eq!(WfhDialog::get_name(), "wfh-dialog");
    assert_eq!(AnyDialog::Help(HelpDialog {}).get_name_inst(), "help-dialog");
    assert_eq!((WfhDialog { state: WfhState::Initial(InitialState {}) }).get_name_inst(), "wfh-dialog");
    let mut registry = DialogRegistry::new();
    assert_eq!(registry.lookup("wfh-dialog"), None);
    for kind in [DialogKind::Help, DialogKind::WhoAmI, DialogKind::SetMyName, DialogKind::Wfh] {
        register_dialog(&mut registry, kind);
    }
    for kind in [DialogKind::Help, DialogKind::WhoAmI, DialogKind::SetMyName, DialogKind::Wfh] {
        assert_eq!(registry.lookup(kind_name_of(kind)), Some(kind));
    }
    assert_eq!(registry.lookup("other-dialog"), None);
}

#[test]
fn channel_message_and_reply() {
    assert_eq!(ChannelMessage::new("wfh today").text, "wfh today");
    let r = ReplyMessage::new("hi".to_string(), None);
    assert_eq!(r.text, "hi");
    assert!(r.menu.is_none());
}

#[test]
fn wfh_choice_without_calendar_name_still_asks() {
    let mut u = user("Ivan", "");
    let mut d = WfhDialog { state: WfhState::ChooseMode(ChooseModeStateState {}) };
    match d.try_process("tomorrow", &mut u) {
        DialogAction::ProcessAndContinue(r, None) => {
            assert_eq!(reply_text(&r), "Confirm event wfh for tomorrow?")
        }
        _ => panic!("expected continue"),
    }
    assert_eq!(d.state, WfhState::Confirmation(ConfirmationState::Tomorrow));
    match d.try_process("no", &mut u) {
        DialogAction::ProcessAndStop(r, None, None) => assert_eq!(reply_text(&r), "Canceled!"),
        _ => panic!("expected cancel"),
    }
}

#[test]
fn setmyname_name_starts_after_ten_bytes() {
    assert_eq!(parse_name("ééééé Bob "), Some("Bob"));
    assert_eq!(parse_name("/setmyname\u{3000}J.Doe\u{2029}"), Some("J.Doe"));
    assert_eq!(wfh_bot::text::char_count_before_byte("ééééé Bob", 10), 5);
    assert_eq!(wfh_bot::text::char_count_before_byte("/setmyname", 10), 10);
}

fn day(year: i32, month: u32, day: u32) -> wfh_bot::basic_structures::LocalDate {
    wfh_bot::basic_structures::LocalDate { year, month, day }
}

fn at(
    d: wfh_bot::basic_structures::LocalDate,
    hour: u32,
    minute: u32,
) -> wfh_bot::basic_structures::LocalDateTime {
    wfh_bot::basic_structures::LocalDateTime {
        date: d,
        hour,
        minute,
        second: 0,
        nanosecond: 0,
        offset_seconds: 10800,
    }
}

#[test]
fn confirmation_posts_the_event_for_the_clock_reading() {
    let mut u = user("Ivan", "Petrov");
    let today = day(2017, 12, 31);
    let now = at(today, 14, 5);
    let nine = at(today, 9, 0);
    let twenty = at(today, 20, 0);

    let (next, action) =
        ConfirmationState::Today.try_process_on("yes", &mut u, today, now, None, None);
    assert_eq!(next, WfhState::Initial(InitialState::new()));
    match action {
        DialogAction::ProcessAndStop(r, Some(Event::WholeDay(e)), Some(c)) => {
            assert_eq!(reply_text(&r), "Applied!");
            assert_eq!(e.summary, "WFH: I.Petrov");
            assert_eq!((e.start.date.as_str(), e.end.date.as_str()), ("2017-12-31", "2017-12-31"));
            assert_eq!(c.text, "wfh today");
        }
        _ => panic!("expected today's event"),
    }

    let (_, action) =
        ConfirmationState::Tomorrow.try_process_on("yes", &mut u, today, now, None, None);
    match action {
        DialogAction::ProcessAndStop(_, Some(Event::WholeDay(e)), Some(c)) => {
            assert_eq!((e.start.date.as_str(), e.end.date.as_str()), ("2018-01-01", "2018-01-01"));
            assert_eq!(c.text, "wfh tommorow");
        }
        _ => panic!("expected tomorrow's event"),
    }

    let (_, action) = ConfirmationState::TodayBeforeNow.try_process_on(
        "yes", &mut u, today, now, Some(nine), None,
    );
    match action {
        DialogAction::ProcessAndStop(_, Some(Event::PartialDay(e)), Some(c)) => {
            assert_eq!(e.start.date_time, "2017-12-31T09:00:00+03:00");
            assert_eq!(e.end.date_time, "2017-12-31T14:05:00+03:00");
            assert_eq!(c.text, "wfh today untill now");
        }
        _ => panic!("expected the morning"),
    }

    let (_, action) = ConfirmationState::TodayFromNow.try_process_on(
        "yes", &mut u, today, now, None, Some(twenty),
    );
    match action {
        DialogAction::ProcessAndStop(_, Some(Event::PartialDay(e)), Some(c)) => {
            assert_eq!(e.start.date_time, "2017-12-31T14:05:00+03:00");
            assert_eq!(e.end.date_time, "2017-12-31T20:00:00+03:00");
            assert_eq!(c.text, "wfh today from now");
        }
        _ => panic!("expected the evening"),
    }

    let (_, action) = ConfirmationState::TodayFromNow.try_process_on(
        "yes", &mut u, today, now, None, None,
    );
    assert!(matches!(action, DialogAction::ProcessAndStop(_, None, Some(_))));

    let (next, action) =
        ConfirmationState::Today.try_process_on("no", &mut u, today, now, None, None);
    assert_eq!(next, WfhState::Initial(InitialState::new()));
    match action {
        DialogAction::ProcessAndStop(r, None, None) => assert_eq!(reply_text(&r), "Canceled!"),
        _ => panic!("expected cancel"),
    }
    assert_eq!(u.get_calendar_name(), Some(&"I.Petrov".to_string()));
}
