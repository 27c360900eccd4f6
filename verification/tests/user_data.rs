use wfh_bot::text::{int_to_string, starts_with, str_eq, trim};
use wfh_bot::user_data::{BotState, UserInfo, UserName};

#[test]
fn calendar_name_from_first_letter_and_last_name() {
    let name = UserName::new("Ivan".to_string(), "Petrov".to_string());
    assert_eq!(name.calendar_name, Some("I.Petrov".to_string()));
    assert_eq!(name.first_name, "Ivan");
    assert_eq!(name.last_name, "Petrov");
}

#[test]
fn calendar_name_missing_when_a_name_is_empty() {
    assert_eq!(UserName::calculate_calendar_name(&"".to_string(), &"Petrov".to_string()), None);
    assert_eq!(UserName::calculate_calendar_name(&"Ivan".to_string(), &"".to_string()), None);
    assert_eq!(UserName::calculate_calendar_name(&"".to_string(), &"".to_string()), None);
}

#[test]
fn calendar_name_of_non_ascii_first_name_when_last_name_is_empty() {
    // no cut of the first name happens when the last name is empty
    let name = UserName::new("Иван".to_string(), "".to_string());
    assert_eq!(name.calendar_name, None);
}

#[test]
fn user_info_getters_and_setter() {
    let mut user = UserInfo::new(42, BotState::Initial, "John".to_string(), "Doe".to_string());
    assert_eq!(user.chat_id, 42);
    assert_eq!(user.state, BotState::Initial);
    assert_eq!(user.get_first_name(), "John");
    assert_eq!(user.get_last_name(), "Doe");
    assert_eq!(user.get_calendar_name(), Some(&"J.Doe".to_string()));
    user.set_calendar_name("Johnny".to_string());
    assert_eq!(user.get_calendar_name(), Some(&"Johnny".to_string()));
    assert_eq!(user.get_first_name(), "John");
    assert_eq!(user.chat_id, 42);
}

#[test]
fn user_info_clone_is_equal_field_by_field() {
    let user = UserInfo::new(1, BotState::SetName, "A".to_string(), "B".to_string());
    let copy = user.clone();
    assert_eq!(copy.chat_id, 1);
    assert_eq!(copy.state, BotState::SetName);
    assert_eq!(copy.name.calendar_name, Some("A.B".to_string()));
}

#[test]
fn prefixes_and_equality() {
    assert!(starts_with("/help me", "/help"));
    assert!(starts_with("/help", "/help"));
    assert!(!starts_with("/hel", "/help"));
    assert!(!starts_with("help", "/help"));
    assert!(starts_with("anything", ""));
    assert!(str_eq("yes", "yes"));
    assert!(!str_eq("yes", "yes "));
    assert!(!str_eq("Yes", "yes"));
}

#[test]
fn trim_removes_unicode_white_space_at_both_ends() {
    assert_eq!(trim("  J.Doe \t\n"), "J.Doe");
    assert_eq!(trim("\u{3000}Иван Петров\u{2003}"), "Иван Петров");
    assert_eq!(trim("   "), "");
    assert_eq!(trim(""), "");
    assert_eq!(trim("a b"), "a b");
}

#[test]
fn integers_as_display_writes_them() {
    assert_eq!(int_to_string(0), "0");
    assert_eq!(int_to_string(2017), "2017");
    assert_eq!(int_to_string(-45), "-45");
    assert_eq!(int_to_string(i32::MIN), i32::MIN.to_string());
    assert_eq!(int_to_string(i32::MAX), i32::MAX.to_string());
}

#[test]
fn trimming_twice_changes_nothing() {
    for s in ["  a b  ", "\t\n", "x", " \u{2003}y\u{3000} "] {
        let once = trim(s);
        assert_eq!(trim(once), once);
        assert!(!once.starts_with(char::is_whitespace));
        assert!(!once.ends_with(char::is_whitespace));
    }
}

#[test]
fn white_space_is_what_char_is_whitespace_says() {
    for u in 0..=0x10FFFFu32 {
        if let Some(c) = char::from_u32(u) {
            assert_eq!(wfh_bot::text::is_whitespace(c), c.is_whitespace(), "{:x}", u);
        }
    }
}
