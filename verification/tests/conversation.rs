use wfh_bot::basic_structures::LocalDate;
use wfh_bot::message_processor::{
    BotReaction, BotStateProcessor, OutgoingMessage, Update, UserCollection,
};
use wfh_bot::save_load_state::{UserCollectionSerializationData, UserSerializationInfo};
use wfh_bot::user_data::{BotState, UserInfo};

fn day() -> LocalDate {
    LocalDate { year: 2017, month: 5, day: 5 }
}

fn text_of(r: &BotReaction) -> Option<(i64, String)> {
    match &r.message {
        Some(OutgoingMessage::Text { chat_id, text }) => Some((*chat_id, text.clone())),
        _ => None,
    }
}

fn user(first: &str, last: &str) -> UserInfo {
    UserInfo::new(10, BotState::Initial, first.to_string(), last.to_string())
}

#[test]
fn help_sends_the_link() {
    let p = BotStateProcessor::new();
    let mut u = user("Ivan", "Petrov");
    let r = p.process_on(&mut u, "/help", day());
    assert_eq!(
        text_of(&r),
        Some((10, "https://www.youtube.com/watch?v=yWP6Qki8mWc".to_string()))
    );
    assert!(r.wfh.is_none());
    assert_eq!(u.state, BotState::Initial);
}

#[test]
fn whoami_shows_names_and_calendar_name() {
    let p = BotStateProcessor::new();
    let mut u = user("Ivan", "Petrov");
    let r = p.process_on(&mut u, "/whoami", day());
    assert_eq!(
        text_of(&r).unwrap().1,
        "Ivan Petrov\nIn calendar will be \"I.Petrov\""
    );
    let mut v = user("Ivan", "");
    let r = p.process_on(&mut v, "/whoami", day());
    assert_eq!(text_of(&r).unwrap().1, "Ivan \nIn calendar will be \"<not specified>\"");
}

#[test]
fn setmyname_then_name_sets_the_calendar_name() {
    let p = BotStateProcessor::new();
    let mut u = user("Ivan", "Petrov");
    let r = p.process_on(&mut u, "/setmyname", day());
    assert_eq!(text_of(&r).unwrap().1, "Enter the name to be used in calendar");
    assert_eq!(u.state, BotState::SetName);
    let r = p.process_on(&mut u, "I. Petrov", day());
    assert_eq!(text_of(&r).unwrap().1, "Your name will be \"I. Petrov\"");
    assert_eq!(u.state, BotState::Initial);
    assert_eq!(u.get_calendar_name(), Some(&"I. Petrov".to_string()));
}

#[test]
fn wfh_asks_with_yes_no_menu_and_yes_posts_today() {
    let p = BotStateProcessor::new();
    let mut u = user("Ivan", "Petrov");
    let r = p.process_on(&mut u, "/wfh", day());
    match &r.message {
        Some(OutgoingMessage::Menu { chat_id, text, menu }) => {
            assert_eq!(*chat_id, 10);
            assert_eq!(text, "Send work from home for today?");
            assert_eq!(menu, &vec![vec!["yes".to_string(), "no".to_string()]]);
        }
        _ => panic!("expected a menu"),
    }
    assert_eq!(u.state, BotState::WfhConfirmation);
    let r = p.process_on(&mut u, "maybe", day());
    assert!(r.message.is_none());
    assert_eq!(u.state, BotState::WfhConfirmation);
    let r = p.process_on(&mut u, "yes", day());
    assert_eq!(text_of(&r).unwrap().1, "Applied!");
    assert_eq!(r.wfh, Some(("I.Petrov".to_string(), day())));
    assert_eq!(u.state, BotState::Initial);
}

#[test]
fn wfh_no_cancels_without_event() {
    let p = BotStateProcessor::new();
    let mut u = user("Ivan", "Petrov");
    p.process_on(&mut u, "/wfh", day());
    let r = p.process_on(&mut u, "no", day());
    assert_eq!(text_of(&r).unwrap().1, "Canceled!");
    assert!(r.wfh.is_none());
    assert_eq!(u.state, BotState::Initial);
}

#[test]
fn wfh_without_calendar_name_does_nothing() {
    let p = BotStateProcessor::new();
    let mut u = user("Ivan", "");
    let r = p.process_on(&mut u, "/wfh", day());
    assert!(r.message.is_none());
    assert!(r.wfh.is_none());
    assert_eq!(u.state, BotState::Initial);
}

#[test]
fn unknown_text_does_nothing() {
    let p = BotStateProcessor::new();
    let mut u = user("Ivan", "Petrov");
    let r = p.process_on(&mut u, "hello", day());
    assert!(r.message.is_none());
    assert_eq!(u.state, BotState::Initial);
}

#[test]
fn process_with_the_clock_posts_a_valid_day() {
    let p = BotStateProcessor::new();
    let mut u = user("Ivan", "Petrov");
    p.process(&mut u, "/wfh");
    let r = p.process(&mut u, "yes");
    let (name, date) = r.wfh.unwrap();
    assert_eq!(name, "I.Petrov");
    assert!((1..=12).contains(&date.month));
    assert!((1..=31).contains(&date.day));
}

#[test]
fn an_update_is_new_only_once() {
    let mut c = UserCollection::new(None);
    assert!(c.is_new_message(5));
    assert!(!c.is_new_message(5));
    assert!(!c.is_new_message(4));
    assert!(c.is_new_message(6));
}

#[test]
fn updates_are_accepted_in_rising_order_only() {
    let mut c = UserCollection::new(None);
    let results: Vec<bool> = [5, 5, 3, 6, 6, 2, 9].iter().map(|&id| c.is_new_message(id)).collect();
    assert_eq!(results, vec![true, false, false, true, false, false, true]);
    assert_eq!(c.get_last_message_id(), Some(9));
}

#[test]
fn first_message_files_a_new_user_and_saves() {
    let mut c = UserCollection::new(None);
    assert!(c.is_new_message(1));
    assert!(!c.contains_user(10));
    let (r, data) = c.process_message_on(10, "Ivan", Some("Petrov"), "/whoami", day());
    assert_eq!(text_of(&r).unwrap().1, "Ivan Petrov\nIn calendar will be \"I.Petrov\"");
    assert!(c.contains_user(10));
    assert_eq!(data.last_id, 1);
    assert_eq!(data.users.len(), 1);
    assert_eq!(data.users[0].chat_id, 10);
    assert_eq!(data.users[0].info.name.calendar_name, Some("I.Petrov".to_string()));
}

#[test]
fn user_without_last_name_gets_no_calendar_name() {
    let mut c = UserCollection::new(None);
    c.is_new_message(1);
    let (r, _) = c.process_message_on(3, "Ivan", None, "/whoami", day());
    assert_eq!(text_of(&r).unwrap().1, "Ivan \nIn calendar will be \"<not specified>\"");
}

#[test]
fn save_then_load_gives_back_the_users() {
    let mut c = UserCollection::new(None);
    c.is_new_message(7);
    c.process_message_on(1, "Ann", Some("Lee"), "/setmyname", day());
    c.process_message_on(2, "Bob", Some("Ray"), "/help", day());
    let (_, data) = c.process_message_on(1, "Ann", Some("Lee"), "A.Lee", day());
    let mut loaded = UserCollection::new(Some(data));
    assert!(loaded.contains_user(1));
    assert!(loaded.contains_user(2));
    assert!(!loaded.is_new_message(7));
    let again = loaded.save();
    assert_eq!(again.last_id, 7);
    let mut ids: Vec<i64> = again.users.iter().map(|u| u.chat_id).collect();
    ids.sort();
    assert_eq!(ids, vec![1, 2]);
    let ann = again.users.iter().find(|u| u.chat_id == 1).unwrap();
    assert_eq!(ann.info.name.calendar_name, Some("A.Lee".to_string()));
    assert_eq!(ann.info.state, BotState::Initial);
}

#[test]
fn loading_files_later_entries_over_earlier_ones() {
    let first = UserSerializationInfo::new(
        5,
        UserInfo::new(5, BotState::Initial, "A".to_string(), "B".to_string()),
    );
    let second = UserSerializationInfo::new(
        5,
        UserInfo::new(5, BotState::SetName, "C".to_string(), "D".to_string()),
    );
    let data = UserCollectionSerializationData::new(3, vec![first, second]);
    let c = UserCollection::new(Some(data));
    let saved = c.save();
    assert_eq!(saved.users.len(), 1);
    assert_eq!(saved.users[0].info.state, BotState::SetName);
    assert_eq!(saved.users[0].info.name.first_name, "C");
}

#[test]
fn text_updates_are_handled_once_and_buttons_always() {
    let mut c = UserCollection::new(None);
    let update = Update::Text {
        update_id: 20,
        chat_id: 8,
        first_name: "Ivan".to_string(),
        last_name: Some("Petrov".to_string()),
        text: "/help".to_string(),
    };
    assert!(c.handle_update(&update).is_some());
    assert!(c.handle_update(&update).is_none());
    let press = Update::CallbackQuery {
        chat_id: 8,
        first_name: "Ivan".to_string(),
        last_name: Some("Petrov".to_string()),
        data: "yes".to_string(),
    };
    let (r, _) = c.handle_update(&press).unwrap();
    assert!(r.message.is_none());
    assert!(c.handle_update(&Update::Other).is_none());
}
