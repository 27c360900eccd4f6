//! What the bot knows about a user: the chat it talks in, where the user
//! stands in the command conversation, and the names it uses.

use vstd::prelude::*;
use vstd::string::*;

verus! {

/// Identifier of a Telegram chat.
pub type ChatID = i64;

/// Where a user stands in the bot's command conversation.
#[derive(Clone, Copy, Debug, PartialEq, Eq, Structural)]
pub enum BotState {
    /// Waiting for a command.
    Initial,
    /// The user was asked to confirm a work-from-home day for today.
    WfhConfirmation,
    /// The user was asked for the name to use in the calendar.
    SetName,
}

/// The calendar name derived from a first and a last name: the first
/// letter of the first name, a dot and the last name; none when either
/// name is empty.
pub open spec fn derived_calendar_name(first: Seq<char>, last: Seq<char>) -> Option<Seq<char>> {
    if first.len() == 0 || last.len() == 0 {
        None
    } else {
        Some(seq![first[0], '.'] + last)
    }
}

/// Deriving a calendar name cuts the first name after its first byte,
/// which is only possible when that byte is a whole character, that is
/// when the first character is ASCII.
pub open spec fn calendar_name_derivable(first: Seq<char>, last: Seq<char>) -> bool {
    first.len() == 0 || last.len() == 0 || (first[0] as u32) < 128
}

/// Whether a calendar name can be derived from these names.
pub fn can_derive_calendar_name(first: &str, last: &str) -> (r: bool)
    ensures
        r == calendar_name_derivable(first@, last@),
{
    if first.unicode_len() == 0 || last.unicode_len() == 0 {
        true
    } else {
        (first.get_char(0) as u32) < 128
    }
}

/// The names of a user.
pub struct UserName {
    pub first_name: String,
    pub last_name: String,
    pub calendar_name: Option<String>,
}

/// View of an optional string as an optional sequence of characters.
pub open spec fn opt_view(s: Option<String>) -> Option<Seq<char>> {
    match s {
        Some(t) => Some(t@),
        None => None,
    }
}

impl Clone for UserName {
    fn clone(&self) -> (r: Self)
        ensures
            r == *self,
    {
        UserName {
            first_name: self.first_name.clone(),
            last_name: self.last_name.clone(),
            calendar_name: match &self.calendar_name {
                Some(c) => Some(c.clone()),
                None => None,
            },
        }
    }
}

impl UserName {
    /// Records the names and derives the calendar name from them.
    pub fn new(first_name: String, last_name: String) -> (r: Self)
        requires
            calendar_name_derivable(first_name@, last_name@),
        ensures
            r.first_name@ == first_name@,
            r.last_name@ == last_name@,
            opt_view(r.calendar_name) == derived_calendar_name(first_name@, last_name@),
    {
        let calendar_name = UserName::calculate_calendar_name(&first_name, &last_name);
        UserName { first_name, last_name, calendar_name }
    }

    /// The first letter of the first name, a dot and the last name, or
    /// none when either name is empty.
    pub fn calculate_calendar_name(first_name: &String, last_name: &String) -> (r: Option<String>)
        requires
            calendar_name_derivable(first_name@, last_name@),
        ensures
            opt_view(r) == derived_calendar_name(first_name@, last_name@),
    {
        if first_name.as_str().unicode_len() == 0 || last_name.as_str().unicode_len() == 0 {
            None
        } else {
            let initial = first_name.as_str().substring_char(0, 1);
            let mut name = String::from_str(initial);
            name.append(".");
            name.append(last_name.as_str());
            proof {
                reveal_strlit(".");
                assert(name@ =~= seq![first_name@[0], '.'] + last_name@);
            }
            Some(name)
        }
    }
}

/// A user as plain values: chat, conversation state and names.
pub struct UserView {
    pub chat_id: ChatID,
    pub state: BotState,
    pub first_name: Seq<char>,
    pub last_name: Seq<char>,
    pub calendar_name: Option<Seq<char>>,
}

/// A user of the bot.
pub struct UserInfo {
    pub chat_id: ChatID,
    pub state: BotState,
    pub name: UserName,
}

impl View for UserInfo {
    type V = UserView;

    open spec fn view(&self) -> UserView {
        UserView {
            chat_id: self.chat_id,
            state: self.state,
            first_name: self.name.first_name@,
            last_name: self.name.last_name@,
            calendar_name: opt_view(self.name.calendar_name),
        }
    }
}

impl Clone for UserInfo {
    fn clone(&self) -> (r: Self)
        ensures
            r == *self,
    {
        UserInfo { chat_id: self.chat_id, state: self.state, name: self.name.clone() }
    }
}

impl UserInfo {
    /// A user in the given state whose calendar name is derived from the
    /// given names.
    pub fn new(chat_id: ChatID, state: BotState, first_name: String, last_name: String) -> (r:
        UserInfo)
        requires
            calendar_name_derivable(first_name@, last_name@),
        ensures
            r.chat_id == chat_id,
            r.state == state,
            r.name.first_name@ == first_name@,
            r.name.last_name@ == last_name@,
            opt_view(r.name.calendar_name) == derived_calendar_name(first_name@, last_name@),
    {
        UserInfo { chat_id, state, name: UserName::new(first_name, last_name) }
    }

    /// The name under which the user's events appear in the calendar.
    pub fn get_calendar_name(&self) -> (r: Option<&String>)
        ensures
            r.is_some() == self.name.calendar_name.is_some(),
            r matches Some(s) ==> *s == self.name.calendar_name.unwrap(),
    {
        self.name.calendar_name.as_ref()
    }

    pub fn get_first_name(&self) -> (r: &String)
        ensures
            *r == self.name.first_name,
    {
        &self.name.first_name
    }

    pub fn get_last_name(&self) -> (r: &String)
        ensures
            *r == self.name.last_name,
    {
        &self.name.last_name
    }

    /// Replaces the calendar name; everything else stays.
    pub fn set_calendar_name(&mut self, calendar_name: String)
        ensures
            final(self).chat_id == old(self).chat_id,
            final(self).state == old(self).state,
            final(self).name.first_name == old(self).name.first_name,
            final(self).name.last_name == old(self).name.last_name,
            final(self).name.calendar_name == Some(calendar_name),
    {
        self.name.calendar_name = Some(calendar_name)
    }
}

} // verus!
