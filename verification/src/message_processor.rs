//! The command conversation the bot holds with each user, and the
//! collection of all users with the bookkeeping of processed updates.

pub mod dialog_processing;
pub mod simple_dialogs;
pub mod wfh;

use vstd::prelude::*;
use vstd::string::*;

use crate::basic_structures::{LocalDate, Menu, local_today, menu_view};
use crate::text::{owned, starts_with, str_eq};
use crate::save_load_state::{
    UserCollectionSerializationData,
    UserSerializationInfo,
    distinct_chats,
    entries_map,
    lemma_entries_map,
};
use crate::user_data::{
    BotState,
    ChatID,
    UserInfo,
    UserView,
    calendar_name_derivable,
    derived_calendar_name,
};
use std::collections::HashMap;
use vstd::std_specs::iter::IteratorSpec;

verus! {

/// A message for a chat, with or without buttons.
pub enum OutgoingMessage {
    Text { chat_id: ChatID, text: String },
    Menu { chat_id: ChatID, text: String, menu: Menu },
}

pub enum MessageView {
    Text(ChatID, Seq<char>),
    Menu(ChatID, Seq<char>, Seq<Seq<Seq<char>>>),
}

impl View for OutgoingMessage {
    type V = MessageView;

    open spec fn view(&self) -> MessageView {
        match self {
            OutgoingMessage::Text { chat_id, text } => MessageView::Text(*chat_id, text@),
            OutgoingMessage::Menu { chat_id, text, menu } => MessageView::Menu(
                *chat_id,
                text@,
                menu_view(*menu),
            ),
        }
    }
}

/// What one answer makes the bot do, in this order: send a message, then
/// post a work-from-home day for a calendar name on a date.
pub struct BotReaction {
    pub message: Option<OutgoingMessage>,
    pub wfh: Option<(String, LocalDate)>,
}

pub open spec fn opt_message_view(m: Option<OutgoingMessage>) -> Option<MessageView> {
    match m {
        Some(x) => Some(x@),
        None => None,
    }
}

pub open spec fn opt_wfh_view(w: Option<(String, LocalDate)>) -> Option<(Seq<char>, LocalDate)> {
    match w {
        Some((n, d)) => Some((n@, d)),
        None => None,
    }
}

/// The outcome of one answer: the user afterwards, the message sent and
/// the work-from-home day posted.
pub struct BotStep {
    pub user: UserView,
    pub message: Option<MessageView>,
    pub wfh: Option<(Seq<char>, LocalDate)>,
}

pub open spec fn help_link() -> Seq<char> {
    "https://www.youtube.com/watch?v=yWP6Qki8mWc"@
}

/// The answer to `/whoami`.
pub open spec fn whoami_text(first: Seq<char>, last: Seq<char>, calendar: Option<Seq<char>>) -> Seq<
    char,
> {
    let shown = match calendar {
        Some(c) => c,
        None => "<not specified>"@,
    };
    first + " "@ + last + "\nIn calendar will be \""@ + shown + "\""@
}

pub open spec fn yes_no_menu() -> Seq<Seq<Seq<char>>> {
    seq![seq!["yes"@, "no"@]]
}

/// `u` with another conversation state.
pub open spec fn in_state(u: UserView, state: BotState) -> UserView {
    UserView { state, ..u }
}

/// How the command conversation answers `answer` from the user `u`, with
/// `today` as the day a confirmed work-from-home request is for.
pub open spec fn bot_step(u: UserView, answer: Seq<char>, today: LocalDate) -> BotStep {
    let unchanged = BotStep { user: u, message: None, wfh: None };
    let chat_id = u.chat_id;
    match u.state {
        BotState::Initial => {
            if "/help"@.is_prefix_of(answer) {
                BotStep {
                    user: u,
                    message: Some(MessageView::Text(chat_id, help_link())),
                    wfh: None,
                }
            } else if "/whoami"@.is_prefix_of(answer) {
                BotStep {
                    user: u,
                    message: Some(
                        MessageView::Text(
                            chat_id,
                            whoami_text(u.first_name, u.last_name, u.calendar_name),
                        ),
                    ),
                    wfh: None,
                }
            } else if "/setmyname"@.is_prefix_of(answer) {
                BotStep {
                    user: in_state(u, BotState::SetName),
                    message: Some(
                        MessageView::Text(chat_id, "Enter the name to be used in calendar"@),
                    ),
                    wfh: None,
                }
            } else if "/wfh"@.is_prefix_of(answer) && u.calendar_name.is_some() {
                BotStep {
                    user: in_state(u, BotState::WfhConfirmation),
                    message: Some(
                        MessageView::Menu(
                            chat_id,
                            "Send work from home for today?"@,
                            yes_no_menu(),
                        ),
                    ),
                    wfh: None,
                }
            } else {
                unchanged
            }
        },
        BotState::WfhConfirmation => {
            if answer == "yes"@ {
                BotStep {
                    user: in_state(u, BotState::Initial),
                    message: Some(MessageView::Text(chat_id, "Applied!"@)),
                    wfh: match u.calendar_name {
                        Some(n) => Some((n, today)),
                        None => None,
                    },
                }
            } else if answer == "no"@ {
                BotStep {
                    user: in_state(u, BotState::Initial),
                    message: Some(MessageView::Text(chat_id, "Canceled!"@)),
                    wfh: None,
                }
            } else {
                unchanged
            }
        },
        BotState::SetName => BotStep {
            user: UserView { state: BotState::Initial, calendar_name: Some(answer), ..u },
            message: Some(
                MessageView::Text(chat_id, "Your name will be \""@ + answer + "\""@),
            ),
            wfh: None,
        },
    }
}

/// Runs the command conversation of one user.
pub struct BotStateProcessor {}

fn text_message(chat_id: ChatID, text: &str) -> (r: OutgoingMessage)
    ensures
        r@ == MessageView::Text(chat_id, text@),
{
    OutgoingMessage::Text { chat_id, text: owned(text) }
}

/// The buttons "yes" and "no" in one row.
pub(crate) fn yes_no() -> (r: Menu)
    ensures
        menu_view(r) == yes_no_menu(),
{
    let r = vec![vec![owned("yes"), owned("no")]];
    assert(menu_view(r) =~= yes_no_menu()) by {
        assert(r@[0]@.map_values(|s: String| s@) =~= seq!["yes"@, "no"@]);
    }
    r
}

impl BotStateProcessor {
    pub fn new() -> Self {
        BotStateProcessor {}
    }

    /// Handles `answer` from the user, with `today` as the day a
    /// confirmed work-from-home request is for.
    pub fn process_on(&self, user_info: &mut UserInfo, answer: &str, today: LocalDate) -> (r:
        BotReaction)
        ensures
            ({
                let step = bot_step(old(user_info)@, answer@, today);
                &&& final(user_info)@ == step.user
                &&& opt_message_view(r.message) == step.message
                &&& opt_wfh_view(r.wfh) == step.wfh
            }),
    {
        let chat_id = user_info.chat_id;
        match user_info.state {
            BotState::Initial => {
                if starts_with(answer, "/help") {
                    user_info.state = BotState::Initial;
                    BotReaction {
                        message: Some(
                            text_message(chat_id, "https://www.youtube.com/watch?v=yWP6Qki8mWc"),
                        ),
                        wfh: None,
                    }
                } else if starts_with(answer, "/whoami") {
                    let mut text = user_info.get_first_name().clone();
                    text.append(" ");
                    text.append(user_info.get_last_name().as_str());
                    text.append("\nIn calendar will be \"");
                    match user_info.get_calendar_name() {
                        Some(name) => text.append(name.as_str()),
                        None => text.append("<not specified>"),
                    }
                    text.append("\"");
                    user_info.state = BotState::Initial;
                    BotReaction { message: Some(OutgoingMessage::Text { chat_id, text }), wfh: None }
                } else if starts_with(answer, "/setmyname") {
                    user_info.state = BotState::SetName;
                    BotReaction {
                        message: Some(text_message(chat_id, "Enter the name to be used in calendar")),
                        wfh: None,
                    }
                } else if starts_with(answer, "/wfh") {
                    if user_info.get_calendar_name().is_some() {
                        user_info.state = BotState::WfhConfirmation;
                        BotReaction {
                            message: Some(
                                OutgoingMessage::Menu {
                                    chat_id,
                                    text: owned("Send work from home for today?"),
                                    menu: yes_no(),
                                },
                            ),
                            wfh: None,
                        }
                    } else {
                        BotReaction { message: None, wfh: None }
                    }
                } else {
                    BotReaction { message: None, wfh: None }
                }
            },
            BotState::WfhConfirmation => {
                if str_eq(answer, "yes") {
                    user_info.state = BotState::Initial;
                    let wfh = match user_info.get_calendar_name() {
                        Some(name) => Some((name.clone(), today)),
                        None => None,
                    };
                    BotReaction { message: Some(text_message(chat_id, "Applied!")), wfh }
                } else if str_eq(answer, "no") {
                    user_info.state = BotState::Initial;
                    BotReaction { message: Some(text_message(chat_id, "Canceled!")), wfh: None }
                } else {
                    BotReaction { message: None, wfh: None }
                }
            },
            BotState::SetName => {
                user_info.set_calendar_name(owned(answer));
                let mut text = owned("Your name will be \"");
                text.append(answer);
                text.append("\"");
                user_info.state = BotState::Initial;
                BotReaction { message: Some(OutgoingMessage::Text { chat_id, text }), wfh: None }
            },
        }
    }

    /// Handles `answer` from the user; a confirmed work-from-home request
    /// is for the day the clock gives as today.
    pub fn process(&self, user_info: &mut UserInfo, answer: &str) -> (r: BotReaction)
        ensures
            exists|today: LocalDate|
                {
                    let step = #[trigger] bot_step(old(user_info)@, answer@, today);
                    &&& today.valid()
                    &&& final(user_info)@ == step.user
                    &&& opt_message_view(r.message) == step.message
                    &&& opt_wfh_view(r.wfh) == step.wfh
                },
    {
        let today = local_today();
        self.process_on(user_info, answer, today)
    }
}

/// The last name a message comes with, empty when it has none.
pub open spec fn last_or_empty(last_name: Option<&str>) -> Seq<char> {
    match last_name {
        Some(n) => n@,
        None => Seq::empty(),
    }
}

/// The record of a user seen for the first time.
pub open spec fn fresh_user(chat_id: ChatID, first: Seq<char>, last: Seq<char>) -> UserView {
    UserView {
        chat_id,
        state: BotState::Initial,
        first_name: first,
        last_name: last,
        calendar_name: derived_calendar_name(first, last),
    }
}

/// The user a message from `chat_id` is handled for: the one filed under
/// the chat, or a fresh one with the names the message comes with.
pub open spec fn prior_user(
    users: Map<ChatID, UserInfo>,
    chat_id: ChatID,
    first: Seq<char>,
    last: Seq<char>,
) -> UserView {
    if users.contains_key(chat_id) {
        users[chat_id]@
    } else {
        fresh_user(chat_id, first, last)
    }
}

/// The update `id` is newer than the newest one seen, if any.
pub open spec fn is_newer(last: Option<i64>, id: i64) -> bool {
    match last {
        Some(l) => id > l,
        None => true,
    }
}

/// The newest update seen once `id` has been checked.
pub open spec fn after_update(last: Option<i64>, id: i64) -> Option<i64> {
    if is_newer(last, id) {
        Some(id)
    } else {
        last
    }
}

/// An update received from Telegram, as far as the bot looks at it.
pub enum Update {
    /// A text message with the update's number.
    Text { update_id: i64, chat_id: ChatID, first_name: String, last_name: Option<String>, text: String },
    /// A button pressed under one of the bot's messages.
    CallbackQuery { chat_id: ChatID, first_name: String, last_name: Option<String>, data: String },
    /// Anything else.
    Other,
}

/// The chat an update comes from, if any.
pub open spec fn update_chat(u: Update) -> Option<ChatID> {
    match u {
        Update::Text { chat_id, .. } => Some(chat_id),
        Update::CallbackQuery { chat_id, .. } => Some(chat_id),
        Update::Other => None,
    }
}

pub open spec fn last_name_text(s: Option<String>) -> Seq<char> {
    match s {
        Some(t) => t@,
        None => Seq::empty(),
    }
}

/// `reaction` and `new_user` are how the conversation answers `message`
/// from the user of `chat` on `today`.
pub open spec fn answered_on(
    users: Map<ChatID, UserInfo>,
    chat: ChatID,
    first: Seq<char>,
    last: Seq<char>,
    message: Seq<char>,
    today: LocalDate,
    new_user: UserView,
    reaction: BotReaction,
) -> bool {
    let step = bot_step(prior_user(users, chat, first, last), message, today);
    &&& today.valid()
    &&& new_user == step.user
    &&& opt_message_view(reaction.message) == step.message
    &&& opt_wfh_view(reaction.wfh) == step.wfh
}

/// `answered_on` for some day the clock may give as today.
pub open spec fn answered(
    users: Map<ChatID, UserInfo>,
    chat: ChatID,
    first: Seq<char>,
    last: Seq<char>,
    message: Seq<char>,
    new_user: UserView,
    reaction: BotReaction,
) -> bool {
    exists|today: LocalDate|
        #[trigger] answered_on(users, chat, first, last, message, today, new_user, reaction)
}

/// All users of the bot, filed by chat, and the newest update processed.
pub struct UserCollection {
    users: HashMap<ChatID, UserInfo>,
    last_message_id: Option<i64>,
    processor: BotStateProcessor,
}

impl UserCollectionSerializationData {
    /// `self` holds exactly the users and the newest update of `c`.
    pub open spec fn is_snapshot_of(&self, c: &UserCollection) -> bool {
        &&& c.last_message_id() == Some(self.last_id)
        &&& distinct_chats(self.users@)
        &&& entries_map(self.users@) == c.users()
    }
}

impl UserCollection {
    pub closed spec fn users(&self) -> Map<ChatID, UserInfo> {
        self.users@
    }

    pub closed spec fn last_message_id(&self) -> Option<i64> {
        self.last_message_id
    }

    /// `self` holds what loading `d` yields.
    pub open spec fn is_loaded_from(&self, d: &UserCollectionSerializationData) -> bool {
        &&& self.users() == entries_map(d.users@)
        &&& self.last_message_id() == Some(d.last_id)
    }

    /// A collection holding the saved state, or an empty one when none
    /// could be loaded.
    pub fn new(saved: Option<UserCollectionSerializationData>) -> (r: Self)
        ensures
            match saved {
                Some(d) => r.is_loaded_from(&d),
                None => r.users() == Map::<ChatID, UserInfo>::empty() && r.last_message_id()
                    is None,
            },
    {
        let mut result = UserCollection {
            users: HashMap::new(),
            last_message_id: None,
            processor: BotStateProcessor::new(),
        };
        match saved {
            Some(data) => result.load(data),
            None => {},
        }
        result
    }

    fn load(&mut self, user_data: UserCollectionSerializationData)
        requires
            old(self).users() == Map::<ChatID, UserInfo>::empty(),
        ensures
            final(self).is_loaded_from(&user_data),
    {
        broadcast use vstd::std_specs::hash::group_hash_axioms;

        self.last_message_id = Some(user_data.last_id);
        let n = user_data.users.len();
        let mut i: usize = 0;
        while i < n
            invariant
                n == user_data.users@.len(),
                i <= n,
                self.users@ == entries_map(user_data.users@.take(i as int)),
                self.last_message_id == Some(user_data.last_id),
            decreases n - i,
        {
            let entry = &user_data.users[i];
            self.users.insert(entry.chat_id, entry.info.clone());
            assert(user_data.users@.take(i + 1).drop_last() =~= user_data.users@.take(i as int));
            i = i + 1;
        }
        assert(user_data.users@.take(n as int) =~= user_data.users@);
    }

    /// The state to save: the newest update and every user.
    pub fn save(&self) -> (d: UserCollectionSerializationData)
        requires
            self.last_message_id() is Some,
        ensures
            d.is_snapshot_of(self),
    {
        broadcast use vstd::std_specs::hash::group_hash_axioms;

        let mut users: Vec<UserSerializationInfo> = Vec::new();
        let ghost seq = self.users.iter().remaining();
        for p in it: self.users.iter()
            invariant
                it.seq() == seq,
                users@.len() == it.index(),
                forall|j: int|
                    0 <= j < it.index() ==> (#[trigger] users@[j]).chat_id == *it.seq()[j].0
                        && users@[j].info == *it.seq()[j].1,
        {
            let (id, info) = p;
            users.push(UserSerializationInfo::new(*id, info.clone()));
        }
        assert(distinct_chats(users@)) by {
            assert forall|i: int, j: int|
                0 <= i < users@.len() && 0 <= j < users@.len() && i != j implies #[trigger] users@[
                i].chat_id != #[trigger] users@[j].chat_id by {
                if users@[i].chat_id == users@[j].chat_id {
                    assert(self.users@.contains_key(*seq[i].0));
                    assert(seq[i] == seq[j]);
                }
            }
        }
        proof {
            lemma_entries_map(users@);
            assert(entries_map(users@) =~= self.users@) by {
                assert forall|k: ChatID| #[trigger] self.users@.contains_key(k) implies entries_map(
                    users@,
                ).contains_key(k) by {
                    assert(seq.contains((&k, &self.users@[k])));
                    let j = choose|j: int| 0 <= j < seq.len() && seq[j] == (&k, &self.users@[k]);
                    assert(users@[j].chat_id == k);
                }
                assert forall|k: ChatID| #[trigger] entries_map(users@).contains_key(k) implies
                    self.users@.contains_key(k) && entries_map(users@)[k] == self.users@[k] by {
                    let j = choose|j: int| 0 <= j < users@.len() && users@[j].chat_id == k;
                    assert(self.users@.contains_key(*seq[j].0));
                }
            }
        }
        UserCollectionSerializationData::new(self.last_message_id.unwrap(), users)
    }

    /// Whether the update `message_id` is newer than every update seen so
    /// far; it then becomes the newest.
    pub fn is_new_message(&mut self, message_id: i64) -> (r: bool)
        ensures
            r == is_newer(old(self).last_message_id(), message_id),
            final(self).last_message_id() == after_update(old(self).last_message_id(), message_id),
            final(self).users() == old(self).users(),
    {
        match self.last_message_id {
            Some(id) => {
                if message_id <= id {
                    false
                } else {
                    self.last_message_id = Some(message_id);
                    true
                }
            },
            None => {
                self.last_message_id = Some(message_id);
                true
            },
        }
    }

    /// Handles `message` from the user of `chat_id`, filing a user seen
    /// for the first time under the names the message comes with; `today`
    /// is the day a confirmed work-from-home request is for. Returns what
    /// the bot does and the state to save afterwards.
    pub fn process_message_on(
        &mut self,
        chat_id: ChatID,
        first_name: &str,
        last_name: Option<&str>,
        message: &str,
        today: LocalDate,
    ) -> (r: (BotReaction, UserCollectionSerializationData))
        requires
            old(self).last_message_id() is Some,
            !old(self).users().contains_key(chat_id) ==> calendar_name_derivable(
                first_name@,
                last_or_empty(last_name),
            ),
        ensures
            ({
                let step = bot_step(
                    prior_user(old(self).users(), chat_id, first_name@, last_or_empty(last_name)),
                    message@,
                    today,
                );
                &&& final(self).users().dom() == old(self).users().dom().insert(chat_id)
                &&& final(self).users()[chat_id]@ == step.user
                &&& opt_message_view(r.0.message) == step.message
                &&& opt_wfh_view(r.0.wfh) == step.wfh
            }),
            forall|k: ChatID|
                k != chat_id && #[trigger] old(self).users().contains_key(k)
                    ==> final(self).users()[k] == old(self).users()[k],
            final(self).last_message_id() == old(self).last_message_id(),
            r.1.is_snapshot_of(final(self)),
    {
        broadcast use vstd::std_specs::hash::group_hash_axioms;

        let mut user = match self.users.remove(&chat_id) {
            Some(u) => u,
            None => {
                let last = match last_name {
                    Some(n) => owned(n),
                    None => String::new(),
                };
                UserInfo::new(chat_id, BotState::Initial, owned(first_name), last)
            },
        };
        let reaction = self.processor.process_on(&mut user, message, today);
        self.users.insert(chat_id, user);
        let data = self.save();
        (reaction, data)
    }

    /// The newest update processed, if any.
    pub fn get_last_message_id(&self) -> (r: Option<i64>)
        ensures
            r == self.last_message_id(),
    {
        self.last_message_id
    }

    /// Whether a user is filed under `chat_id`.
    pub fn contains_user(&self, chat_id: ChatID) -> (r: bool)
        ensures
            r == self.users().contains_key(chat_id),
    {
        broadcast use vstd::std_specs::hash::group_hash_axioms;

        self.users.contains_key(&chat_id)
    }

    /// What an update asks of the bot: a text message is handled when it
    /// is newer than every update seen so far, a pressed button always,
    /// anything else never. Returns what the bot does and the state to
    /// save, when it handled the update.
    pub fn handle_update(&mut self, update: &Update) -> (r: Option<
        (BotReaction, UserCollectionSerializationData),
    >)
        requires
            update matches Update::CallbackQuery { .. } ==> old(self).last_message_id() is Some,
            match update {
                Update::Text { chat_id, first_name, last_name, .. } => !old(
                    self,
                ).users().contains_key(*chat_id) ==> calendar_name_derivable(
                    first_name@,
                    last_name_text(*last_name),
                ),
                Update::CallbackQuery { chat_id, first_name, last_name, .. } => !old(
                    self,
                ).users().contains_key(*chat_id) ==> calendar_name_derivable(
                    first_name@,
                    last_name_text(*last_name),
                ),
                Update::Other => true,
            },
        ensures
            match update {
                Update::Text { update_id, chat_id, .. } => {
                    &&& final(self).last_message_id() == after_update(
                        old(self).last_message_id(),
                        *update_id,
                    )
                    &&& (r is Some <==> is_newer(old(self).last_message_id(), *update_id))
                    &&& r is None ==> final(self).users() == old(self).users()
                    &&& r is Some ==> final(self).users().dom() == old(self).users().dom().insert(
                        *chat_id,
                    )
                },
                Update::CallbackQuery { chat_id, .. } => {
                    &&& r is Some
                    &&& final(self).last_message_id() == old(self).last_message_id()
                    &&& final(self).users().dom() == old(self).users().dom().insert(*chat_id)
                },
                Update::Other => r is None && final(self).users() == old(self).users()
                    && final(self).last_message_id() == old(self).last_message_id(),
            },
            r matches Some((_, d)) ==> d.is_snapshot_of(final(self)),
            forall|k: ChatID|
                #[trigger] old(self).users().contains_key(k) && Some(k) != update_chat(*update)
                    ==> final(self).users()[k] == old(self).users()[k],
            r matches Some((reaction, _)) ==> match update {
                Update::Text { chat_id, first_name, last_name, text, .. } => answered(
                    old(self).users(),
                    *chat_id,
                    first_name@,
                    last_name_text(*last_name),
                    text@,
                    final(self).users()[*chat_id]@,
                    reaction,
                ),
                Update::CallbackQuery { chat_id, first_name, last_name, data } => answered(
                    old(self).users(),
                    *chat_id,
                    first_name@,
                    last_name_text(*last_name),
                    data@,
                    final(self).users()[*chat_id]@,
                    reaction,
                ),
                Update::Other => false,
            },
    {
        match update {
            Update::Text { update_id, chat_id, first_name, last_name, text } => {
                if self.is_new_message(*update_id) {
                    let last = match last_name {
                        Some(n) => Some(n.as_str()),
                        None => None,
                    };
                    Some(self.process_message(*chat_id, first_name.as_str(), last, text.as_str()))
                } else {
                    None
                }
            },
            Update::CallbackQuery { chat_id, first_name, last_name, data } => {
                let last = match last_name {
                    Some(n) => Some(n.as_str()),
                    None => None,
                };
                Some(self.process_message(*chat_id, first_name.as_str(), last, data.as_str()))
            },
            Update::Other => None,
        }
    }

    /// Handles `message` from the user of `chat_id` as `process_message_on`
    /// does, with the day the clock gives as today.
    pub fn process_message(
        &mut self,
        chat_id: ChatID,
        first_name: &str,
        last_name: Option<&str>,
        message: &str,
    ) -> (r: (BotReaction, UserCollectionSerializationData))
        requires
            old(self).last_message_id() is Some,
            !old(self).users().contains_key(chat_id) ==> calendar_name_derivable(
                first_name@,
                last_or_empty(last_name),
            ),
        ensures
            answered(
                old(self).users(),
                chat_id,
                first_name@,
                last_or_empty(last_name),
                message@,
                final(self).users()[chat_id]@,
                r.0,
            ),
            final(self).users().dom() == old(self).users().dom().insert(chat_id),
            forall|k: ChatID|
                k != chat_id && #[trigger] old(self).users().contains_key(k)
                    ==> final(self).users()[k] == old(self).users()[k],
            final(self).last_message_id() == old(self).last_message_id(),
            r.1.is_snapshot_of(final(self)),
    {
        let today = local_today();
        let r = self.process_message_on(chat_id, first_name, last_name, message, today);
        assert(answered_on(
            old(self).users(),
            chat_id,
            first_name@,
            last_or_empty(last_name),
            message@,
            today,
            self.users()[chat_id]@,
            r.0,
        ));
        r
    }
}

/// Saving a collection and loading what was saved gives back its users
/// and its newest update.
pub proof fn lemma_save_then_load(
    c: &UserCollection,
    d: &UserCollectionSerializationData,
    loaded: &UserCollection,
)
    requires
        d.is_snapshot_of(c),
        loaded.is_loaded_from(d),
    ensures
        loaded.users() == c.users(),
        loaded.last_message_id() == c.last_message_id(),
{
}

/// An update is processed at most once: once checked, the same update is
/// never new again, and the newest update seen never goes back.
pub proof fn lemma_update_seen_once(last: Option<i64>, id: i64)
    ensures
        !is_newer(after_update(last, id), id),
        after_update(last, id) is Some,
        last matches Some(l) ==> after_update(last, id).unwrap() >= l,
{
}

/// The newest update seen after checking the updates `ids` in turn,
/// starting from `last`.
pub open spec fn after_updates(last: Option<i64>, ids: Seq<i64>) -> Option<i64>
    decreases ids.len(),
{
    if ids.len() == 0 {
        last
    } else {
        after_update(after_updates(last, ids.drop_last()), ids.last())
    }
}

proof fn lemma_after_updates_grow(last: Option<i64>, ids: Seq<i64>, k: int, m: int)
    requires
        0 <= k <= m <= ids.len(),
    ensures
        after_updates(last, ids.take(k)) matches Some(a) ==> after_updates(last, ids.take(m))
            matches Some(b) && b >= a,
    decreases m - k,
{
    if k < m {
        lemma_after_updates_grow(last, ids, k, m - 1);
        assert(ids.take(m).drop_last() =~= ids.take(m - 1));
        lemma_update_seen_once(after_updates(last, ids.take(m - 1)), ids[m - 1]);
    }
}

/// Over any run of checks, the newest update seen never goes back, and
/// an update checked after `ids[i]` is new only if it is above `ids[i]`:
/// each update is accepted at most once.
pub proof fn lemma_updates_accepted_once(last: Option<i64>, ids: Seq<i64>, i: int, j: int)
    requires
        0 <= i < j < ids.len(),
    ensures
        after_updates(last, ids.take(j)) matches Some(b) && b >= ids[i],
        is_newer(after_updates(last, ids.take(j)), ids[j]) ==> ids[j] > ids[i],
        last matches Some(l) ==> after_updates(last, ids.take(j)).unwrap() >= l,
{
    assert(ids.take(i + 1).drop_last() =~= ids.take(i));
    lemma_update_seen_once(after_updates(last, ids.take(i)), ids[i]);
    lemma_after_updates_grow(last, ids, i + 1, j);
    assert(ids.take(0) =~= Seq::<i64>::empty());
    lemma_after_updates_grow(last, ids, 0, j);
}

/// An answer never changes the chat or the names of a user.
pub proof fn lemma_bot_step_keeps_identity(u: UserView, answer: Seq<char>, today: LocalDate)
    ensures
        bot_step(u, answer, today).user.chat_id == u.chat_id,
        bot_step(u, answer, today).user.first_name == u.first_name,
        bot_step(u, answer, today).user.last_name == u.last_name,
{
}

/// The conversation asks to confirm a work-from-home day only of users
/// with a calendar name, and a confirmation posts the day for that name.
pub proof fn lemma_confirmation_has_name(u: UserView, answer: Seq<char>, today: LocalDate)
    requires
        u.state == BotState::WfhConfirmation ==> u.calendar_name is Some,
    ensures
        bot_step(u, answer, today).user.state == BotState::WfhConfirmation
            ==> bot_step(u, answer, today).user.calendar_name is Some,
        u.state == BotState::WfhConfirmation && answer == "yes"@ ==> bot_step(
            u,
            answer,
            today,
        ).wfh == Some((u.calendar_name.unwrap(), today)),
        bot_step(u, answer, today).wfh is Some ==> u.state == BotState::WfhConfirmation
            && answer == "yes"@,
{
}

/// After `/setmyname`, the next answer becomes the calendar name and the
/// conversation is back at its start.
pub proof fn lemma_set_name_then_answer(
    u: UserView,
    command: Seq<char>,
    name: Seq<char>,
    today: LocalDate,
)
    requires
        u.state == BotState::Initial,
        "/setmyname"@.is_prefix_of(command),
    ensures
        bot_step(u, command, today).user.state == BotState::SetName,
        bot_step(bot_step(u, command, today).user, name, today).user.calendar_name == Some(name),
        bot_step(bot_step(u, command, today).user, name, today).user.state == BotState::Initial,
{
    reveal_strlit("/setmyname");
    reveal_strlit("/help");
    reveal_strlit("/whoami");
    assert(command.subrange(0, 10) == "/setmyname"@);
    assert(command[1] == command.subrange(0, 10)[1]);
    if "/help"@.is_prefix_of(command) {
        assert(command[1] == command.subrange(0, 5)[1]);
    }
    if "/whoami"@.is_prefix_of(command) {
        assert(command[1] == command.subrange(0, 7)[1]);
    }
}

/// At the start of the conversation only the commands move the user:
/// `/help` and `/whoami` answer and leave the user's record as it was,
/// only `/setmyname` asks for a name, only `/wfh` from a user with a
/// calendar name asks for a confirmation, and nothing else of the record
/// than its state ever changes there; no day is posted.
pub proof fn lemma_start_commands(u: UserView, answer: Seq<char>, today: LocalDate)
    requires
        u.state == BotState::Initial,
    ensures
        "/help"@.is_prefix_of(answer) || "/whoami"@.is_prefix_of(answer) ==> bot_step(
            u,
            answer,
            today,
        ).user == u,
        bot_step(u, answer, today).user.state == BotState::SetName ==> "/setmyname"@.is_prefix_of(
            answer,
        ),
        bot_step(u, answer, today).user.state == BotState::WfhConfirmation ==> "/wfh"@.is_prefix_of(
            answer,
        ) && u.calendar_name is Some,
        in_state(bot_step(u, answer, today).user, BotState::Initial) == u,
        bot_step(u, answer, today).wfh is None,
{
}

} // verus!
