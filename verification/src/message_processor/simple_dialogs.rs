//! Dialogs that answer a single command and are then over.

use vstd::prelude::*;
use vstd::string::*;

use crate::message_processor::dialog_processing::{
    Dialog,
    DialogAction,
    EventView,
    InitView,
    DialogInitializationResult,
    Event,
    ReplyMessage,
    ReplyView,
    StaticNameGetter,
    opt_event_view,
    opt_reply_view,
    plain_reply,
};
use crate::message_processor::{help_link, whoami_text};
use crate::text::{
    all_white_space,
    lemma_trimmed,
    lemma_trimmed_is_inner_stretch,
    unicode_white_space,
    chars_before_byte,
    char_count_before_byte,
    is_char_boundary,
    lemma_ascii_utf8_len,
    lemma_chars_before_byte,
    owned,
    starts_with,
    trim,
    trimmed,
};
use crate::user_data::{UserInfo, UserView};

verus! {

/// What a single-command dialog answers: its reply and event, or nothing
/// when the message is not its command.
pub type SimpleOutcome = Option<(Option<ReplyMessage>, Option<Event>)>;

pub struct OutcomeView {
    pub reply: Option<ReplyView>,
    pub event: Option<EventView>,
}

pub open spec fn outcome_view(o: SimpleOutcome) -> Option<OutcomeView> {
    match o {
        Some((r, e)) => Some(OutcomeView { reply: opt_reply_view(r), event: opt_event_view(e) }),
        None => None,
    }
}

/// A reply without buttons and no event.
pub open spec fn replied(text: Seq<char>) -> Option<OutcomeView> {
    Some(OutcomeView { reply: plain_reply(text), event: None })
}

/// A dialog that handles one message.
pub trait SimpleDialog {
    fn process_message(message: &str, user_info: &mut UserInfo) -> SimpleOutcome;
}

fn reply(text: String) -> (r: SimpleOutcome)
    ensures
        outcome_view(r) == replied(text@),
{
    Some((Some(ReplyMessage::new(text, None)), None))
}

/// How a single-command dialog starts: over at once when the message is
/// its command, not started otherwise.
pub open spec fn simple_init(o: Option<OutcomeView>) -> InitView {
    match o {
        Some(v) => InitView::Finished(v.reply, v.event),
        None => InitView::NotProcessed,
    }
}

fn finish(outcome: SimpleOutcome) -> (r: DialogInitializationResult)
    ensures
        r@ == simple_init(outcome_view(outcome)),
{
    match outcome {
        Some((reply, event)) => DialogInitializationResult::Finished(reply, event),
        None => DialogInitializationResult::NotProcessed,
    }
}

/// Answers `/help` with a link.
#[derive(Clone, Copy, Debug)]
pub struct HelpDialog {}

pub open spec fn help_outcome(message: Seq<char>) -> Option<OutcomeView> {
    if "/help"@.is_prefix_of(message) {
        replied(help_link())
    } else {
        None
    }
}

impl SimpleDialog for HelpDialog {
    fn process_message(message: &str, user_info: &mut UserInfo) -> (r: SimpleOutcome)
        ensures
            outcome_view(r) == help_outcome(message@),
            *final(user_info) == *old(user_info),
    {
        if starts_with(message, "/help") {
            reply(owned("https://www.youtube.com/watch?v=yWP6Qki8mWc"))
        } else {
            None
        }
    }
}

impl StaticNameGetter for HelpDialog {
    open spec fn dialog_name() -> Seq<char> {
        "help-dialog"@
    }

    fn get_name() -> (r: &'static str) {
        "help-dialog"
    }
}

impl Dialog for HelpDialog {
    /// The dialog is over after its first message and takes no other.
    open spec fn accepts(&self, text: Seq<char>, user: UserView) -> bool {
        false
    }

    fn try_process(&mut self, text: &str, user_info: &mut UserInfo) -> (r: DialogAction) {
        DialogAction::Stop
    }

    fn make(initial_message: &str, user_info: &mut UserInfo) -> (r: DialogInitializationResult)
        ensures
            r@ == simple_init(help_outcome(initial_message@)),
            *final(user_info) == *old(user_info),
    {
        finish(HelpDialog::process_message(initial_message, user_info))
    }
}

/// Answers `/whoami` with the user's names and calendar name.
#[derive(Clone, Copy, Debug)]
pub struct WhoAmIDialog {}

pub open spec fn whoami_outcome(message: Seq<char>, user: UserView) -> Option<OutcomeView> {
    if "/whoami"@.is_prefix_of(message) {
        replied(whoami_text(user.first_name, user.last_name, user.calendar_name))
    } else {
        None
    }
}

impl SimpleDialog for WhoAmIDialog {
    fn process_message(message: &str, user_info: &mut UserInfo) -> (r: SimpleOutcome)
        ensures
            outcome_view(r) == whoami_outcome(message@, old(user_info)@),
            *final(user_info) == *old(user_info),
    {
        if starts_with(message, "/whoami") {
            let mut text = user_info.get_first_name().clone();
            text.append(" ");
            text.append(user_info.get_last_name().as_str());
            text.append("\nIn calendar will be \"");
            match user_info.get_calendar_name() {
                Some(name) => text.append(name.as_str()),
                None => text.append("<not specified>"),
            }
            text.append("\"");
            reply(text)
        } else {
            None
        }
    }
}

impl StaticNameGetter for WhoAmIDialog {
    open spec fn dialog_name() -> Seq<char> {
        "whoami-dialog"@
    }

    fn get_name() -> (r: &'static str) {
        "whoami-dialog"
    }
}

impl Dialog for WhoAmIDialog {
    /// The dialog is over after its first message and takes no other.
    open spec fn accepts(&self, text: Seq<char>, user: UserView) -> bool {
        false
    }

    fn try_process(&mut self, text: &str, user_info: &mut UserInfo) -> (r: DialogAction) {
        DialogAction::Stop
    }

    fn make(initial_message: &str, user_info: &mut UserInfo) -> (r: DialogInitializationResult)
        ensures
            r@ == simple_init(whoami_outcome(initial_message@, old(user_info)@)),
            *final(user_info) == *old(user_info),
    {
        finish(WhoAmIDialog::process_message(initial_message, user_info))
    }
}

/// Sets the calendar name given after `/setmyname`.
#[derive(Clone, Copy, Debug)]
pub struct SetMyNameDialog {}

/// The command that sets the calendar name.
pub open spec fn set_my_name_prefix() -> Seq<char> {
    "/setmyname"@
}

/// The name given after the command: what follows the ten bytes that the
/// command takes, without surrounding white space; none when that is
/// empty.
pub open spec fn parsed_name(message: Seq<char>) -> Option<Seq<char>> {
    let name = trimmed(message.skip(chars_before_byte(message, 10)));
    if name.len() > 0 {
        Some(name)
    } else {
        None
    }
}

/// The name after the first ten bytes of `message`, where the command
/// `/setmyname` stands; those bytes must end at a character boundary.
pub fn parse_name(message: &str) -> (r: Option<&str>)
    requires
        is_char_boundary(message@, 10),
    ensures
        match r {
            Some(n) => parsed_name(message@) == Some(n@),
            None => parsed_name(message@) is None,
        },
{
    let k = char_count_before_byte(message, 10);
    let rest = message.substring_char(k, message.unicode_len());
    assert(rest@ =~= message@.skip(k as int));
    let name = trim(rest);
    if name.unicode_len() > 0 {
        Some(name)
    } else {
        None
    }
}

/// What `/setmyname` answers and the calendar name it leaves.
pub open spec fn set_my_name_outcome(message: Seq<char>, user: UserView) -> (
    Option<OutcomeView>,
    UserView,
) {
    if set_my_name_prefix().is_prefix_of(message) {
        match parsed_name(message) {
            Some(name) => (
                replied("Your calendar name will be \""@ + name + "\""@),
                UserView { calendar_name: Some(name), ..user },
            ),
            None => (
                replied(
                    "No valid name is specified. Please specify name in format \"/setmyname J.Doe\""@,
                ),
                user,
            ),
        }
    } else {
        (None, user)
    }
}

impl SimpleDialog for SetMyNameDialog {
    fn process_message(message: &str, user_info: &mut UserInfo) -> (r: SimpleOutcome)
        ensures
            outcome_view(r) == set_my_name_outcome(message@, old(user_info)@).0,
            final(user_info)@ == set_my_name_outcome(message@, old(user_info)@).1,
    {
        if starts_with(message, "/setmyname") {
            proof {
                reveal_strlit("/setmyname");
                let command = set_my_name_prefix();
                assert(message@.take(10) =~= command);
                lemma_ascii_utf8_len(command);
                lemma_chars_before_byte(message@, 10, 10);
            }
            let text = match parse_name(message) {
                Some(name) => {
                    user_info.set_calendar_name(owned(name));
                    let mut text = owned("Your calendar name will be \"");
                    text.append(name);
                    text.append("\"");
                    text
                },
                None => owned(
                    "No valid name is specified. Please specify name in format \"/setmyname J.Doe\"",
                ),
            };
            reply(text)
        } else {
            None
        }
    }
}

impl StaticNameGetter for SetMyNameDialog {
    open spec fn dialog_name() -> Seq<char> {
        "setmyname-dialog"@
    }

    fn get_name() -> (r: &'static str) {
        "setmyname-dialog"
    }
}

impl Dialog for SetMyNameDialog {
    /// The dialog is over after its first message and takes no other.
    open spec fn accepts(&self, text: Seq<char>, user: UserView) -> bool {
        false
    }

    fn try_process(&mut self, text: &str, user_info: &mut UserInfo) -> (r: DialogAction) {
        DialogAction::Stop
    }

    fn make(initial_message: &str, user_info: &mut UserInfo) -> (r: DialogInitializationResult)
        ensures
            r@ == simple_init(set_my_name_outcome(initial_message@, old(user_info)@).0),
            final(user_info)@ == set_my_name_outcome(initial_message@, old(user_info)@).1,
    {
        finish(SetMyNameDialog::process_message(initial_message, user_info))
    }
}

/// The name given to `/setmyname` is what follows the command with the
/// white space at its two ends removed, and nothing else removed: a
/// stretch of the rest with only white space before and after it, which
/// neither starts nor ends with white space; there is none only when the
/// rest is all white space. After the command itself the rest starts at
/// its tenth character.
pub proof fn lemma_parsed_name_is_trimmed_rest(message: Seq<char>)
    ensures
        set_my_name_prefix().is_prefix_of(message) ==> chars_before_byte(message, 10) == 10,
        ({
            let rest = message.skip(chars_before_byte(message, 10));
            match parsed_name(message) {
                Some(n) => {
                    &&& n.len() > 0
                    &&& !unicode_white_space(n[0])
                    &&& !unicode_white_space(n.last())
                    &&& exists|i: int, j: int|
                        0 <= i <= j <= rest.len() && n == rest.subrange(i, j) && all_white_space(
                            rest.take(i),
                        ) && all_white_space(rest.skip(j))
                },
                None => all_white_space(rest),
            }
        }),
{
    if set_my_name_prefix().is_prefix_of(message) {
        reveal_strlit("/setmyname");
        let command = set_my_name_prefix();
        assert(message.take(10) =~= command);
        lemma_ascii_utf8_len(command);
        lemma_chars_before_byte(message, 10, 10);
    }
    let rest = message.skip(chars_before_byte(message, 10));
    lemma_trimmed(rest);
    lemma_trimmed_is_inner_stretch(rest);
    let (i, j) = choose|i: int, j: int|
        0 <= i <= j <= rest.len() && trimmed(rest) == rest.subrange(i, j) && all_white_space(
            rest.take(i),
        ) && all_white_space(rest.skip(j));
    if trimmed(rest).len() == 0 {
        assert forall|k: int| 0 <= k < rest.len() implies unicode_white_space(#[trigger] rest[k]) by {
            if k < i {
                assert(rest[k] == rest.take(i)[k]);
            } else {
                assert(rest[k] == rest.skip(j)[k - j]);
            }
        }
    }
}

} // verus!
