//! The parts every dialog shares: replies, events, what a dialog does
//! with a message, and the names under which dialogs are saved.

use vstd::prelude::*;

use crate::basic_structures::{EventTexts, Menu, PartialDayEvent, WholeDayEvent, menu_view};
use crate::message_processor::simple_dialogs::{HelpDialog, SetMyNameDialog, WhoAmIDialog};
use crate::message_processor::wfh::{WfhDialog, wfh_step_fits};
use crate::text::{owned, str_eq};
use crate::user_data::{UserInfo, UserView};

verus! {

/// A line the bot writes to the status channel.
pub struct ChannelMessage {
    pub text: String,
}

impl ChannelMessage {
    pub fn new(text: &str) -> (r: Self)
        ensures
            r.text@ == text@,
    {
        ChannelMessage { text: owned(text) }
    }
}

/// A calendar event a dialog asks to post.
pub enum Event {
    WholeDay(WholeDayEvent),
    PartialDay(PartialDayEvent),
}

pub enum EventView {
    WholeDay(EventTexts),
    PartialDay(EventTexts),
}

impl View for Event {
    type V = EventView;

    open spec fn view(&self) -> EventView {
        match self {
            Event::WholeDay(e) => EventView::WholeDay(e@),
            Event::PartialDay(e) => EventView::PartialDay(e@),
        }
    }
}

/// A reply to the user, with or without buttons.
pub struct ReplyMessage {
    pub text: String,
    pub menu: Option<Menu>,
}

pub struct ReplyView {
    pub text: Seq<char>,
    pub menu: Option<Seq<Seq<Seq<char>>>>,
}

impl View for ReplyMessage {
    type V = ReplyView;

    open spec fn view(&self) -> ReplyView {
        ReplyView {
            text: self.text@,
            menu: match self.menu {
                Some(m) => Some(menu_view(m)),
                None => None,
            },
        }
    }
}

impl ReplyMessage {
    pub fn new(text: String, menu: Option<Menu>) -> (r: Self)
        ensures
            r.text == text,
            r.menu == menu,
    {
        ReplyMessage { text, menu }
    }
}

/// A reply without buttons.
pub open spec fn plain_reply(text: Seq<char>) -> Option<ReplyView> {
    Some(ReplyView { text, menu: None })
}

pub open spec fn opt_reply_view(r: Option<ReplyMessage>) -> Option<ReplyView> {
    match r {
        Some(m) => Some(m@),
        None => None,
    }
}

pub open spec fn opt_event_view(e: Option<Event>) -> Option<EventView> {
    match e {
        Some(x) => Some(x@),
        None => None,
    }
}

pub open spec fn opt_channel_view(c: Option<ChannelMessage>) -> Option<Seq<char>> {
    match c {
        Some(m) => Some(m.text@),
        None => None,
    }
}

/// What a running dialog does with a message.
pub enum DialogAction {
    /// Handles the message and waits for the next one.
    ProcessAndContinue(Option<ReplyMessage>, Option<Event>),
    /// Handles the message and ends, possibly writing to the status
    /// channel.
    ProcessAndStop(Option<ReplyMessage>, Option<Event>, Option<ChannelMessage>),
    /// Leaves the message to others and ends.
    Stop,
}

pub enum ActionView {
    ProcessAndContinue(Option<ReplyView>, Option<EventView>),
    ProcessAndStop(Option<ReplyView>, Option<EventView>, Option<Seq<char>>),
    Stop,
}

impl View for DialogAction {
    type V = ActionView;

    open spec fn view(&self) -> ActionView {
        match self {
            DialogAction::ProcessAndContinue(r, e) => ActionView::ProcessAndContinue(
                opt_reply_view(*r),
                opt_event_view(*e),
            ),
            DialogAction::ProcessAndStop(r, e, c) => ActionView::ProcessAndStop(
                opt_reply_view(*r),
                opt_event_view(*e),
                opt_channel_view(*c),
            ),
            DialogAction::Stop => ActionView::Stop,
        }
    }
}

/// What a dialog does with the message that may start it.
pub enum DialogInitializationResult {
    /// The message does not start this dialog.
    NotProcessed,
    /// The dialog handled the message and is over.
    Finished(Option<ReplyMessage>, Option<Event>),
    /// The dialog handled the message and waits for more.
    StartedProcessing(Option<ReplyMessage>, Option<Event>, Box<AnyDialog>),
}

pub enum InitView {
    NotProcessed,
    Finished(Option<ReplyView>, Option<EventView>),
    StartedProcessing(Option<ReplyView>, Option<EventView>, AnyDialog),
}

impl View for DialogInitializationResult {
    type V = InitView;

    open spec fn view(&self) -> InitView {
        match self {
            DialogInitializationResult::NotProcessed => InitView::NotProcessed,
            DialogInitializationResult::Finished(r, e) => InitView::Finished(
                opt_reply_view(*r),
                opt_event_view(*e),
            ),
            DialogInitializationResult::StartedProcessing(r, e, d) => InitView::StartedProcessing(
                opt_reply_view(*r),
                opt_event_view(*e),
                **d,
            ),
        }
    }
}

/// A conversation with a user that may span several messages.
pub trait Dialog: Sized {
    /// The dialog can take `text` from `user` in its current state.
    spec fn accepts(&self, text: Seq<char>, user: UserView) -> bool;

    /// Handles the next message of the dialog.
    fn try_process(&mut self, text: &str, user_info: &mut UserInfo) -> DialogAction
        requires
            old(self).accepts(text@, old(user_info)@),
    ;

    /// Handles a message that may start the dialog.
    fn make(initial_message: &str, user_info: &mut UserInfo) -> DialogInitializationResult;
}

/// The name under which a kind of dialog is saved.
pub trait StaticNameGetter {
    spec fn dialog_name() -> Seq<char>;

    fn get_name() -> (r: &'static str)
        ensures
            r@ == Self::dialog_name(),
    ;
}

/// The name under which a dialog is saved, asked of the dialog itself.
pub trait DynamicNameGetter {
    spec fn dialog_name_of(&self) -> Seq<char>;

    fn get_name_inst(&self) -> (r: &'static str)
        ensures
            r@ == self.dialog_name_of(),
    ;
}

impl<T: StaticNameGetter> DynamicNameGetter for T {
    open spec fn dialog_name_of(&self) -> Seq<char> {
        T::dialog_name()
    }

    fn get_name_inst(&self) -> (r: &'static str) {
        T::get_name()
    }
}

/// Any of the bot's dialogs.
#[derive(Clone, Copy, Debug)]
pub enum AnyDialog {
    Help(HelpDialog),
    WhoAmI(WhoAmIDialog),
    SetMyName(SetMyNameDialog),
    Wfh(WfhDialog),
}

/// The kinds of dialog.
#[derive(Clone, Copy, Debug, PartialEq, Eq, Structural)]
pub enum DialogKind {
    Help,
    WhoAmI,
    SetMyName,
    Wfh,
}

/// The name under which dialogs of each kind are saved.
pub open spec fn kind_name(k: DialogKind) -> Seq<char> {
    match k {
        DialogKind::Help => HelpDialog::dialog_name(),
        DialogKind::WhoAmI => WhoAmIDialog::dialog_name(),
        DialogKind::SetMyName => SetMyNameDialog::dialog_name(),
        DialogKind::Wfh => WfhDialog::dialog_name(),
    }
}

impl AnyDialog {
    pub open spec fn kind(&self) -> DialogKind {
        match self {
            AnyDialog::Help(_) => DialogKind::Help,
            AnyDialog::WhoAmI(_) => DialogKind::WhoAmI,
            AnyDialog::SetMyName(_) => DialogKind::SetMyName,
            AnyDialog::Wfh(_) => DialogKind::Wfh,
        }
    }
}

impl AnyDialog {
    /// Only a dialog that goes on after its first message takes further
    /// messages.
    pub open spec fn accepts(&self, text: Seq<char>, user: UserView) -> bool {
        match self {
            AnyDialog::Wfh(d) => d.accepts(text, user),
            _ => false,
        }
    }

    /// Passes the next message to the dialog.
    pub fn try_process(&mut self, text: &str, user_info: &mut UserInfo) -> (r: DialogAction)
        requires
            old(self).accepts(text@, old(user_info)@),
        ensures
            match (*old(self), *final(self)) {
                (AnyDialog::Wfh(before), AnyDialog::Wfh(after)) => {
                    &&& wfh_step_fits(before.state, text@, old(user_info)@, after.state, r@)
                    &&& before.consistent_with(old(user_info)@) ==> after.consistent_with(
                        final(user_info)@,
                    )
                },
                _ => false,
            },
            *final(user_info) == *old(user_info),
    {
        match self {
            AnyDialog::Wfh(d) => d.try_process(text, user_info),
            AnyDialog::Help(d) => d.try_process(text, user_info),
            AnyDialog::WhoAmI(d) => d.try_process(text, user_info),
            AnyDialog::SetMyName(d) => d.try_process(text, user_info),
        }
    }
}

impl DynamicNameGetter for AnyDialog {
    open spec fn dialog_name_of(&self) -> Seq<char> {
        kind_name(self.kind())
    }

    fn get_name_inst(&self) -> (r: &'static str) {
        match self {
            AnyDialog::Help(d) => d.get_name_inst(),
            AnyDialog::WhoAmI(d) => d.get_name_inst(),
            AnyDialog::SetMyName(d) => d.get_name_inst(),
            AnyDialog::Wfh(d) => d.get_name_inst(),
        }
    }
}

/// The name of each kind of dialog.
pub fn kind_name_of(kind: DialogKind) -> (r: &'static str)
    ensures
        r@ == kind_name(kind),
{
    match kind {
        DialogKind::Help => HelpDialog::get_name(),
        DialogKind::WhoAmI => WhoAmIDialog::get_name(),
        DialogKind::SetMyName => SetMyNameDialog::get_name(),
        DialogKind::Wfh => WfhDialog::get_name(),
    }
}

/// The kinds of dialog that can be read back, filed by name.
pub struct DialogRegistry {
    kinds: Vec<DialogKind>,
}

/// The kinds in `ks` filed by name, a later kind replacing an earlier
/// one of the same name.
pub open spec fn registered(ks: Seq<DialogKind>) -> Map<Seq<char>, DialogKind>
    decreases ks.len(),
{
    if ks.len() == 0 {
        Map::empty()
    } else {
        registered(ks.drop_last()).insert(kind_name(ks.last()), ks.last())
    }
}

impl DialogRegistry {
    pub closed spec fn kinds(&self) -> Map<Seq<char>, DialogKind> {
        registered(self.kinds@)
    }

    pub fn new() -> (r: Self)
        ensures
            r.kinds() == Map::<Seq<char>, DialogKind>::empty(),
    {
        DialogRegistry { kinds: Vec::new() }
    }

    /// Makes dialogs of `kind` readable under their name.
    pub fn add(&mut self, kind: DialogKind)
        ensures
            final(self).kinds() == old(self).kinds().insert(kind_name(kind), kind),
    {
        self.kinds.push(kind);
        assert(self.kinds@.drop_last() =~= old(self).kinds@);
    }

    /// The kind of dialog saved under `name`, if one is registered.
    pub fn lookup(&self, name: &str) -> (r: Option<DialogKind>)
        ensures
            r == (if self.kinds().contains_key(name@) {
                Some(self.kinds()[name@])
            } else {
                None
            }),
    {
        let n = self.kinds.len();
        let mut i: usize = n;
        while i > 0
            invariant
                n == self.kinds@.len(),
                i <= n,
                forall|j: int| i <= j < n ==> kind_name(#[trigger] self.kinds@[j]) != name@,
            decreases i,
        {
            let k = self.kinds[i - 1];
            if str_eq(kind_name_of(k), name) {
                proof {
                    lemma_registered_last(self.kinds@, (i - 1) as int);
                }
                return Some(k);
            }
            i = i - 1;
        }
        proof {
            lemma_registered_absent(self.kinds@, name@);
        }
        None
    }
}

/// Makes dialogs of `kind` readable from `registry` under their name.
pub fn register_dialog(registry: &mut DialogRegistry, kind: DialogKind)
    ensures
        final(registry).kinds() == old(registry).kinds().insert(kind_name(kind), kind),
{
    registry.add(kind);
}

/// The entry filed under the name of `ks[i]` is `ks[i]` when no later
/// kind has that name.
proof fn lemma_registered_last(ks: Seq<DialogKind>, i: int)
    requires
        0 <= i < ks.len(),
        forall|j: int| i < j < ks.len() ==> kind_name(#[trigger] ks[j]) != kind_name(ks[i]),
    ensures
        registered(ks).contains_key(kind_name(ks[i])),
        registered(ks)[kind_name(ks[i])] == ks[i],
    decreases ks.len(),
{
    if i < ks.len() - 1 {
        let t = ks.drop_last();
        assert forall|j: int| i < j < t.len() implies kind_name(#[trigger] t[j]) != kind_name(
            t[i],
        ) by {
            assert(t[j] == ks[j]);
        }
        lemma_registered_last(t, i);
        assert(kind_name(ks[ks.len() - 1]) != kind_name(ks[i]));
    }
}

/// A name that no kind in `ks` has is not filed.
proof fn lemma_registered_absent(ks: Seq<DialogKind>, name: Seq<char>)
    requires
        forall|j: int| 0 <= j < ks.len() ==> kind_name(#[trigger] ks[j]) != name,
    ensures
        !registered(ks).contains_key(name),
    decreases ks.len(),
{
    if ks.len() > 0 {
        let t = ks.drop_last();
        assert forall|j: int| 0 <= j < t.len() implies kind_name(#[trigger] t[j]) != name by {
            assert(t[j] == ks[j]);
        }
        lemma_registered_absent(t, name);
        assert(kind_name(ks[ks.len() - 1]) != name);
    }
}

/// Every kind of dialog is saved under a name of its own.
pub proof fn lemma_kind_names_distinct(a: DialogKind, b: DialogKind)
    ensures
        kind_name(a) == kind_name(b) ==> a == b,
{
    reveal_strlit("help-dialog");
    reveal_strlit("whoami-dialog");
    reveal_strlit("setmyname-dialog");
    reveal_strlit("wfh-dialog");
    if kind_name(a) == kind_name(b) && a != b {
        assert(kind_name(a).len() != kind_name(b).len() || kind_name(a)[0] != kind_name(b)[0]);
    }
}

/// Once a kind is registered, its name reads back as that kind, whatever
/// other kinds were registered before or after.
pub proof fn lemma_registered_reads_back(ks: Seq<DialogKind>, k: DialogKind)
    requires
        ks.contains(k),
    ensures
        registered(ks).contains_key(kind_name(k)),
        registered(ks)[kind_name(k)] == k,
    decreases ks.len(),
{
    if ks.last() == k {
    } else {
        let t = ks.drop_last();
        let i = choose|i: int| 0 <= i < ks.len() && ks[i] == k;
        assert(t[i] == k);
        lemma_registered_reads_back(t, k);
        lemma_kind_names_distinct(ks.last(), k);
    }
}

} // verus!
