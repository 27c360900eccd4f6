//! The dialog that books a work-from-home day: `/wfh`, then when, then a
//! confirmation.

use vstd::prelude::*;
use vstd::string::*;

use crate::basic_structures::{
    EventTexts,
    LocalDate,
    LocalDateTime,
    Menu,
    PartialDayEvent,
    WholeDayEvent,
    with_hour,
    with_minute,
    with_nanosecond,
    with_second,
    local_now,
    local_today,
    menu_view,
    moment_text,
    next_day,
    ymd_text,
};
use crate::message_processor::dialog_processing::{
    ActionView,
    opt_event_view,
    AnyDialog,
    ChannelMessage,
    Dialog,
    DialogAction,
    DialogInitializationResult,
    Event,
    EventView,
    InitView,
    ReplyMessage,
    ReplyView,
    StaticNameGetter,
    plain_reply,
};
use crate::message_processor::{yes_no, yes_no_menu};
use crate::text::{owned, starts_with, str_eq};
use crate::user_data::{UserInfo, UserView};

verus! {

/// Waiting for `/wfh`.
#[derive(Clone, Copy, Debug, PartialEq, Eq, Structural)]
pub struct InitialState {}

/// Asked when the user works from home.
#[derive(Clone, Copy, Debug, PartialEq, Eq, Structural)]
pub struct ChooseModeStateState {}

/// Asked to confirm a work-from-home request of this kind.
#[derive(Clone, Copy, Debug, PartialEq, Eq, Structural)]
pub enum ConfirmationState {
    Today,
    Tomorrow,
    TodayBeforeNow,
    TodayFromNow,
}

/// Where the dialog stands.
#[derive(Clone, Copy, Debug, PartialEq, Eq, Structural)]
pub enum WfhState {
    Initial(InitialState),
    ChooseMode(ChooseModeStateState),
    Confirmation(ConfirmationState),
}

/// Books a work-from-home day.
#[derive(Clone, Copy, Debug, PartialEq, Eq, Structural)]
pub struct WfhDialog {
    pub state: WfhState,
}

/// The buttons offered for "When?".
pub open spec fn when_menu() -> Seq<Seq<Seq<char>>> {
    seq![seq!["today"@, "tomorrow"@], seq!["untill now"@, "from now"@], seq!["other"@]]
}

/// The title of the bot's work-from-home events.
pub open spec fn wfh_summary(name: Seq<char>) -> Seq<char> {
    "WFH: "@ + name
}

/// What a step of the dialog does, apart from the event it posts: go on
/// with a reply and buttons, finish with a reply, the kind of event to
/// post and a line for the status channel, or stop.
pub enum WfhOutcome {
    Continue(Seq<char>, Seq<Seq<Seq<char>>>),
    Finish(Seq<char>, Option<ConfirmationState>, Option<Seq<char>>),
    Stop,
}

pub open spec fn initial_state() -> WfhState {
    WfhState::Initial(InitialState {})
}

/// The next state and the outcome of `text` in `state` for `user`.
pub open spec fn wfh_transition(state: WfhState, text: Seq<char>, user: UserView) -> (
    WfhState,
    WfhOutcome,
) {
    match state {
        WfhState::Initial(_) => {
            if "/wfh"@.is_prefix_of(text) {
                if user.calendar_name is Some {
                    (
                        WfhState::ChooseMode(ChooseModeStateState {}),
                        WfhOutcome::Continue("When?"@, when_menu()),
                    )
                } else {
                    (
                        initial_state(),
                        WfhOutcome::Finish(
                            "Please specify your calendar name using /setmyname"@,
                            None,
                            None,
                        ),
                    )
                }
            } else {
                (initial_state(), WfhOutcome::Stop)
            }
        },
        WfhState::ChooseMode(_) => {
            if text == "today"@ {
                (
                    WfhState::Confirmation(ConfirmationState::Today),
                    WfhOutcome::Continue("Confirm event wfh for today?"@, yes_no_menu()),
                )
            } else if text == "tomorrow"@ {
                (
                    WfhState::Confirmation(ConfirmationState::Tomorrow),
                    WfhOutcome::Continue("Confirm event wfh for tomorrow?"@, yes_no_menu()),
                )
            } else if text == "untill now"@ {
                (
                    WfhState::Confirmation(ConfirmationState::TodayBeforeNow),
                    WfhOutcome::Continue("Confirm event wfh for today before now?"@, yes_no_menu()),
                )
            } else {
                (initial_state(), WfhOutcome::Stop)
            }
        },
        WfhState::Confirmation(c) => {
            if text == "yes"@ {
                (initial_state(), WfhOutcome::Finish("Applied!"@, Some(c), Some(channel_text(c))))
            } else {
                (initial_state(), WfhOutcome::Finish("Canceled!"@, None, None))
            }
        },
    }
}

/// The status-channel line for a confirmed request.
pub open spec fn channel_text(c: ConfirmationState) -> Seq<char> {
    match c {
        ConfirmationState::Today => "wfh today"@,
        ConfirmationState::Tomorrow => "wfh tommorow"@,
        ConfirmationState::TodayBeforeNow => "wfh today untill now"@,
        ConfirmationState::TodayFromNow => "wfh today from now"@,
    }
}

/// The whole-day event of `name` on `day`.
pub open spec fn day_event(name: Seq<char>, day: LocalDate) -> EventView {
    EventView::WholeDay(
        EventTexts { summary: wfh_summary(name), start: ymd_text(day), end: ymd_text(day) },
    )
}

/// The event of `name` from one moment to another.
pub open spec fn span_event(name: Seq<char>, from: LocalDateTime, to: LocalDateTime) -> EventView {
    EventView::PartialDay(
        EventTexts { summary: wfh_summary(name), start: moment_text(from), end: moment_text(to) },
    )
}

/// `u` is the local date of `t` at `hour` sharp.
pub open spec fn sharp(t: LocalDateTime, hour: u32, u: LocalDateTime) -> bool {
    &&& u.valid()
    &&& u.date == t.date
    &&& u.hour == hour
    &&& u.minute == 0
    &&& u.second == 0
    &&& u.nanosecond == 0
}

/// The event of a request of kind `c` for `name`, given the clock:
/// `today` is the date and `now` the moment it read; `start9` and
/// `end20` are `now` moved to 9 and 20 o'clock where the local time
/// allows it.
pub open spec fn requested_event(
    c: ConfirmationState,
    name: Seq<char>,
    today: LocalDate,
    now: LocalDateTime,
    start9: Option<LocalDateTime>,
    end20: Option<LocalDateTime>,
) -> Option<EventView> {
    match c {
        ConfirmationState::Today => Some(day_event(name, today)),
        ConfirmationState::Tomorrow => if today.is_last() {
            None
        } else {
            Some(day_event(name, today.next()))
        },
        ConfirmationState::TodayBeforeNow => match start9 {
            Some(s) => if s.writable() && now.writable() {
                Some(span_event(name, s, now))
            } else {
                None
            },
            None => None,
        },
        ConfirmationState::TodayFromNow => match end20 {
            Some(e) => if e.writable() && now.writable() {
                Some(span_event(name, now, e))
            } else {
                None
            },
            None => None,
        },
    }
}

/// `e` is the event of a request of kind `c` for `name` for some reading
/// of the clock.
pub open spec fn fits_some_clock(c: ConfirmationState, name: Seq<char>, e: Option<EventView>) -> bool {
    exists|today: LocalDate, now: LocalDateTime, start9: Option<LocalDateTime>, end20: Option<LocalDateTime>|
        {
            &&& today.valid()
            &&& now.valid()
            &&& (start9 matches Some(s) ==> sharp(now, 9, s))
            &&& (end20 matches Some(s) ==> sharp(now, 20, s))
            &&& e == requested_event(c, name, today, now, start9, end20)
        }
}

/// `a` carries out `o` for a user whose calendar name is `name`, with the
/// event of a confirmed request built from some reading of the clock.
pub open spec fn action_fits(a: ActionView, o: WfhOutcome, name: Seq<char>) -> bool {
    match o {
        WfhOutcome::Continue(t, m) => a == ActionView::ProcessAndContinue(
            Some(ReplyView { text: t, menu: Some(m) }),
            None,
        ),
        WfhOutcome::Finish(t, which, ch) => match a {
            ActionView::ProcessAndStop(r, e, c) => {
                &&& r == plain_reply(t)
                &&& c == ch
                &&& match which {
                    Some(k) => fits_some_clock(k, name, e),
                    None => e is None,
                }
            },
            _ => false,
        },
        WfhOutcome::Stop => a == ActionView::Stop,
    }
}

fn when() -> (r: Menu)
    ensures
        menu_view(r) == when_menu(),
{
    let r = vec![
        vec![owned("today"), owned("tomorrow")],
        vec![owned("untill now"), owned("from now")],
        vec![owned("other")],
    ];
    assert(menu_view(r) =~= when_menu()) by {
        assert(r@[0]@.map_values(|s: String| s@) =~= seq!["today"@, "tomorrow"@]);
        assert(r@[1]@.map_values(|s: String| s@) =~= seq!["untill now"@, "from now"@]);
        assert(r@[2]@.map_values(|s: String| s@) =~= seq!["other"@]);
    }
    r
}

fn ask(text: &str, menu: Menu) -> (r: DialogAction)
    ensures
        r@ == ActionView::ProcessAndContinue(
            Some(ReplyView { text: text@, menu: Some(menu_view(menu)) }),
            None,
        ),
{
    DialogAction::ProcessAndContinue(Some(ReplyMessage::new(owned(text), Some(menu))), None)
}

fn answer(text: &str, event: Option<Event>, channel: Option<ChannelMessage>) -> (r: DialogAction)
    ensures
        r matches DialogAction::ProcessAndStop(rep, ev, ch) && rep matches Some(m) && m@
            == (ReplyView { text: text@, menu: None }) && ev == event && ch == channel,
{
    DialogAction::ProcessAndStop(Some(ReplyMessage::new(owned(text), None)), event, channel)
}

/// The whole-day event of `name` from `start_date` to `end_date`.
pub fn make_wfh_whole_day_event(name: &str, start_date: &LocalDate, end_date: &LocalDate) -> (r:
    WholeDayEvent)
    requires
        start_date.valid(),
        end_date.valid(),
    ensures
        r@ == (EventTexts {
            summary: wfh_summary(name@),
            start: ymd_text(*start_date),
            end: ymd_text(*end_date),
        }),
{
    let mut text = owned("WFH: ");
    text.append(name);
    WholeDayEvent::new(text, start_date, end_date)
}

/// The whole-day event of `name` on `date`.
pub fn make_whf_single_day(name: &str, date: &LocalDate) -> (r: WholeDayEvent)
    requires
        date.valid(),
    ensures
        EventView::WholeDay(r@) == day_event(name@, *date),
{
    make_wfh_whole_day_event(name, date, date)
}

/// Some valid moment on `d`.
proof fn moment_on(d: LocalDate) -> (t: LocalDateTime)
    requires
        d.valid(),
    ensures
        t.valid(),
        t.date == d,
{
    LocalDateTime { date: d, hour: 0, minute: 0, second: 0, nanosecond: 0, offset_seconds: 0 }
}

pub open spec fn opt_whole_view(e: Option<WholeDayEvent>) -> Option<EventView> {
    match e {
        Some(x) => Some(EventView::WholeDay(x@)),
        None => None,
    }
}

pub open spec fn opt_partial_view(e: Option<PartialDayEvent>) -> Option<EventView> {
    match e {
        Some(x) => Some(EventView::PartialDay(x@)),
        None => None,
    }
}

/// The work-from-home event of `name` for today.
pub fn make_wfh_for_today(name: &str) -> (r: WholeDayEvent)
    ensures
        fits_some_clock(ConfirmationState::Today, name@, Some(EventView::WholeDay(r@))),
{
    let today = local_today();
    let r = make_whf_single_day(name, &today);
    proof {
        let now = moment_on(today);
        let none: Option<LocalDateTime> = None;
        assert(Some(EventView::WholeDay(r@)) == requested_event(
            ConfirmationState::Today,
            name@,
            today,
            now,
            none,
            none,
        ));
    }
    r
}

/// The work-from-home event of `name` for the day after `today`; none on
/// the last representable day.
pub fn make_wfh_for_day_after(name: &str, today: LocalDate) -> (r: Option<WholeDayEvent>)
    requires
        today.valid(),
    ensures
        match r {
            Some(e) => !today.is_last() && EventView::WholeDay(e@) == day_event(name@, today.next()),
            None => today.is_last(),
        },
{
    if today.is_last_exec() {
        None
    } else {
        let tomorrow = next_day(today);
        Some(make_whf_single_day(name, &tomorrow))
    }
}

/// The work-from-home event of `name` for tomorrow; none on the last
/// representable day.
pub fn make_wfh_for_tomorrow(name: &str) -> (r: Option<WholeDayEvent>)
    ensures
        fits_some_clock(ConfirmationState::Tomorrow, name@, opt_whole_view(r)),
{
    let today = local_today();
    let r = make_wfh_for_day_after(name, today);
    proof {
        let now = moment_on(today);
        let none: Option<LocalDateTime> = None;
        assert(opt_whole_view(r) == requested_event(
            ConfirmationState::Tomorrow,
            name@,
            today,
            now,
            none,
            none,
        ));
    }
    r
}

/// The event of `name` from `start_time` to `end_time`.
pub fn make_wfh_partial_day_event(
    name: &str,
    start_time: &LocalDateTime,
    end_time: &LocalDateTime,
) -> (r: PartialDayEvent)
    requires
        start_time.writable(),
        end_time.writable(),
    ensures
        EventView::PartialDay(r@) == span_event(name@, *start_time, *end_time),
{
    let mut text = owned("WFH: ");
    text.append(name);
    PartialDayEvent::new(text, start_time, end_time)
}

/// `time` at `hours` sharp on the same local date, where the local time
/// allows it.
pub fn make_same_with_hours(time: &LocalDateTime, hours: u32) -> (r: Option<LocalDateTime>)
    requires
        time.valid(),
        hours < 24,
    ensures
        r matches Some(u) ==> sharp(*time, hours, u),
{
    let t = with_hour(*time, hours)?;
    let t = with_minute(t, 0)?;
    let t = with_nanosecond(t, 0)?;
    with_second(t, 0)
}

/// The event of `name` from `from` to `to` when both can be written.
pub fn make_span(name: &str, from: Option<LocalDateTime>, to: Option<LocalDateTime>) -> (r: Option<
    PartialDayEvent,
>)
    ensures
        match (from, to) {
            (Some(f), Some(t)) => if f.writable() && t.writable() {
                r matches Some(e) && EventView::PartialDay(e@) == span_event(name@, f, t)
            } else {
                r is None
            },
            _ => r is None,
        },
{
    match (from, to) {
        (Some(f), Some(t)) => {
            if f.is_writable() && t.is_writable() {
                Some(make_wfh_partial_day_event(name, &f, &t))
            } else {
                None
            }
        },
        _ => None,
    }
}

/// The work-from-home event of `name` from 9 o'clock today until now;
/// none where the local time at 9 o'clock does not exist or cannot be
/// written.
pub fn make_wfh_before_now(name: &str) -> (r: Option<PartialDayEvent>)
    ensures
        fits_some_clock(ConfirmationState::TodayBeforeNow, name@, opt_partial_view(r)),
{
    let now = local_now();
    let day_start = make_same_with_hours(&now, 9);
    let r = make_span(name, day_start, Some(now));
    proof {
        let none: Option<LocalDateTime> = None;
        assert(opt_partial_view(r) == requested_event(
            ConfirmationState::TodayBeforeNow,
            name@,
            now.date,
            now,
            day_start,
            none,
        ));
    }
    r
}

/// The work-from-home event of `name` from now until 20 o'clock today;
/// none where the local time at 20 o'clock does not exist or cannot be
/// written.
pub fn make_wfh_from_now(name: &str) -> (r: Option<PartialDayEvent>)
    ensures
        fits_some_clock(ConfirmationState::TodayFromNow, name@, opt_partial_view(r)),
{
    let now = local_now();
    let day_end = make_same_with_hours(&now, 20);
    let r = make_span(name, Some(now), day_end);
    proof {
        let none: Option<LocalDateTime> = None;
        assert(opt_partial_view(r) == requested_event(
            ConfirmationState::TodayFromNow,
            name@,
            now.date,
            now,
            none,
            day_end,
        ));
    }
    r
}

/// The calendar name of a user, as far as it is known.
pub open spec fn name_of(user: UserView) -> Seq<char> {
    match user.calendar_name {
        Some(n) => n,
        None => Seq::empty(),
    }
}

/// `(next, a)` is what the dialog in `state` does with `text` from `user`.
pub open spec fn wfh_step_fits(
    state: WfhState,
    text: Seq<char>,
    user: UserView,
    next: WfhState,
    a: ActionView,
) -> bool {
    let (n, o) = wfh_transition(state, text, user);
    &&& next == n
    &&& action_fits(a, o, name_of(user))
}

impl InitialState {
    pub fn new() -> (r: Self) {
        InitialState {}
    }

    /// Starts on `/wfh`: asks when if the user has a calendar name, asks
    /// to set one otherwise.
    pub fn try_process(&mut self, text: &str, user_info: &mut UserInfo) -> (r: (WfhState, DialogAction))
        ensures
            wfh_step_fits(WfhState::Initial(*old(self)), text@, old(user_info)@, r.0, r.1@),
            *final(user_info) == *old(user_info),
    {
        if starts_with(text, "/wfh") {
            match user_info.get_calendar_name() {
                Some(_) => (WfhState::ChooseMode(ChooseModeStateState::new()), ask("When?", when())),
                None => (
                    WfhState::Initial(InitialState::new()),
                    answer("Please specify your calendar name using /setmyname", None, None),
                ),
            }
        } else {
            (WfhState::Initial(InitialState::new()), DialogAction::Stop)
        }
    }
}

impl ChooseModeStateState {
    pub fn new() -> (r: Self) {
        ChooseModeStateState {}
    }

    /// Takes the answer to "When?" and asks for a confirmation.
    pub fn try_process(&mut self, text: &str, user_info: &mut UserInfo) -> (r: (WfhState, DialogAction))
        ensures
            wfh_step_fits(WfhState::ChooseMode(*old(self)), text@, old(user_info)@, r.0, r.1@),
            *final(user_info) == *old(user_info),
    {
        if str_eq(text, "today") {
            (
                WfhState::Confirmation(ConfirmationState::Today),
                ask("Confirm event wfh for today?", yes_no()),
            )
        } else if str_eq(text, "tomorrow") {
            (
                WfhState::Confirmation(ConfirmationState::Tomorrow),
                ask("Confirm event wfh for tomorrow?", yes_no()),
            )
        } else if str_eq(text, "untill now") {
            (
                WfhState::Confirmation(ConfirmationState::TodayBeforeNow),
                ask("Confirm event wfh for today before now?", yes_no()),
            )
        } else {
            (WfhState::Initial(InitialState::new()), DialogAction::Stop)
        }
    }
}

impl ConfirmationState {
    /// The event of this request for `name` under the given reading of
    /// the clock, as an event to post.
    fn event_on(
        &self,
        name: &str,
        today: LocalDate,
        now: LocalDateTime,
        start9: Option<LocalDateTime>,
        end20: Option<LocalDateTime>,
    ) -> (r: Option<Event>)
        requires
            today.valid(),
        ensures
            opt_event_view(r) == requested_event(*self, name@, today, now, start9, end20),
    {
        match *self {
            ConfirmationState::Today => Some(Event::WholeDay(make_whf_single_day(name, &today))),
            ConfirmationState::Tomorrow => match make_wfh_for_day_after(name, today) {
                Some(x) => Some(Event::WholeDay(x)),
                None => None,
            },
            ConfirmationState::TodayBeforeNow => match make_span(name, start9, Some(now)) {
                Some(x) => Some(Event::PartialDay(x)),
                None => None,
            },
            ConfirmationState::TodayFromNow => match make_span(name, Some(now), end20) {
                Some(x) => Some(Event::PartialDay(x)),
                None => None,
            },
        }
    }

    /// The status-channel line for this request.
    fn channel_line(&self) -> (r: &'static str)
        ensures
            r@ == channel_text(*self),
    {
        match *self {
            ConfirmationState::Today => "wfh today",
            ConfirmationState::Tomorrow => "wfh tommorow",
            ConfirmationState::TodayBeforeNow => "wfh today untill now",
            ConfirmationState::TodayFromNow => "wfh today from now",
        }
    }

    /// On "yes" posts the event of this request under the user's calendar
    /// name for the given reading of the clock (`today` the date, `now`
    /// the moment, `start9` and `end20` the moment moved to 9 and 20
    /// o'clock where the local time allows it) and tells the status
    /// channel; on anything else cancels.
    pub fn try_process_on(
        &mut self,
        text: &str,
        user_info: &mut UserInfo,
        today: LocalDate,
        now: LocalDateTime,
        start9: Option<LocalDateTime>,
        end20: Option<LocalDateTime>,
    ) -> (r: (WfhState, DialogAction))
        requires
            text@ == "yes"@ ==> old(user_info)@.calendar_name is Some,
            today.valid(),
        ensures
            r.0 == initial_state(),
            r.1@ == (if text@ == "yes"@ {
                ActionView::ProcessAndStop(
                    plain_reply("Applied!"@),
                    requested_event(
                        *old(self),
                        name_of(old(user_info)@),
                        today,
                        now,
                        start9,
                        end20,
                    ),
                    Some(channel_text(*old(self))),
                )
            } else {
                ActionView::ProcessAndStop(plain_reply("Canceled!"@), None, None)
            }),
            *final(self) == *old(self),
            *final(user_info) == *old(user_info),
    {
        if str_eq(text, "yes") {
            let name = user_info.get_calendar_name().unwrap().as_str();
            let event = self.event_on(name, today, now, start9, end20);
            let channel = ChannelMessage::new(self.channel_line());
            (WfhState::Initial(InitialState::new()), answer("Applied!", event, Some(channel)))
        } else {
            (WfhState::Initial(InitialState::new()), answer("Canceled!", None, None))
        }
    }

    /// On "yes" reads the clock and posts the requested event under the
    /// user's calendar name, telling the status channel; on anything else
    /// cancels.
    pub fn try_process(&mut self, text: &str, user_info: &mut UserInfo) -> (r: (WfhState, DialogAction))
        requires
            text@ == "yes"@ ==> old(user_info)@.calendar_name is Some,
        ensures
            wfh_step_fits(WfhState::Confirmation(*old(self)), text@, old(user_info)@, r.0, r.1@),
            *final(user_info) == *old(user_info),
    {
        if str_eq(text, "yes") {
            let now = local_now();
            let today = match *self {
                ConfirmationState::Today | ConfirmationState::Tomorrow => local_today(),
                _ => now.date,
            };
            let start9 = match *self {
                ConfirmationState::TodayBeforeNow => make_same_with_hours(&now, 9),
                _ => None,
            };
            let end20 = match *self {
                ConfirmationState::TodayFromNow => make_same_with_hours(&now, 20),
                _ => None,
            };
            let r = self.try_process_on(text, user_info, today, now, start9, end20);
            proof {
                let e = requested_event(*self, name_of(user_info@), today, now, start9, end20);
                assert(fits_some_clock(*self, name_of(user_info@), e));
            }
            r
        } else {
            (WfhState::Initial(InitialState::new()), answer("Canceled!", None, None))
        }
    }
}

impl WfhDialog {
    /// The dialog goes past its start only with users who have a
    /// calendar name.
    pub open spec fn consistent_with(&self, user: UserView) -> bool {
        !(self.state is Initial) ==> user.calendar_name is Some
    }
}

impl Dialog for WfhDialog {
    /// A confirmation needs the user's calendar name.
    open spec fn accepts(&self, text: Seq<char>, user: UserView) -> bool {
        self.state is Confirmation && text == "yes"@ ==> user.calendar_name is Some
    }

    fn try_process(&mut self, text: &str, user_info: &mut UserInfo) -> (r: DialogAction)
        ensures
            wfh_step_fits(old(self).state, text@, old(user_info)@, final(self).state, r@),
            old(self).consistent_with(old(user_info)@) ==> final(self).consistent_with(
                final(user_info)@,
            ),
            *final(user_info) == *old(user_info),
    {
        let (state, result) = match self.state {
            WfhState::Initial(ref mut state) => state.try_process(text, user_info),
            WfhState::ChooseMode(ref mut state) => state.try_process(text, user_info),
            WfhState::Confirmation(ref mut state) => state.try_process(text, user_info),
        };
        self.state = state;
        result
    }

    fn make(initial_message: &str, user_info: &mut UserInfo) -> (r: DialogInitializationResult)
        ensures
            ({
                let (next, o) = wfh_transition(initial_state(), initial_message@, old(user_info)@);
                match o {
                    WfhOutcome::Continue(t, m) => r@ == InitView::StartedProcessing(
                        Some(ReplyView { text: t, menu: Some(m) }),
                        None,
                        AnyDialog::Wfh(WfhDialog { state: next }),
                    ),
                    WfhOutcome::Finish(t, which, _) => which is None && r@ == InitView::Finished(
                        plain_reply(t),
                        None,
                    ),
                    WfhOutcome::Stop => r@ == InitView::NotProcessed,
                }
            }),
            *final(user_info) == *old(user_info),
    {
        let mut dialog = WfhDialog { state: WfhState::Initial(InitialState::new()) };
        let result = dialog.try_process(initial_message, user_info);
        match result {
            DialogAction::ProcessAndContinue(reply, event) => {
                DialogInitializationResult::StartedProcessing(reply, event, Box::new(AnyDialog::Wfh(dialog)))
            },
            DialogAction::ProcessAndStop(reply, event, _) => {
                DialogInitializationResult::Finished(reply, event)
            },
            DialogAction::Stop => DialogInitializationResult::NotProcessed,
        }
    }
}

impl StaticNameGetter for WfhDialog {
    open spec fn dialog_name() -> Seq<char> {
        "wfh-dialog"@
    }

    fn get_name() -> (r: &'static str) {
        "wfh-dialog"
    }
}

/// A step that does not go on leaves the dialog at its start, and one
/// that goes on leaves it past its start.
pub proof fn lemma_wfh_stop_resets(state: WfhState, text: Seq<char>, user: UserView)
    ensures
        !(wfh_transition(state, text, user).1 is Continue) ==> wfh_transition(state, text, user).0
            == initial_state(),
        wfh_transition(state, text, user).1 is Continue ==> !(wfh_transition(
            state,
            text,
            user,
        ).0 is Initial),
{
}

/// The dialog goes past its start only for users with a calendar name,
/// so a confirmation always has a name to post under and a dialog that
/// starts at its start takes every message.
pub proof fn lemma_wfh_keeps_consistency(d: WfhDialog, text: Seq<char>, user: UserView)
    requires
        d.consistent_with(user),
    ensures
        d.accepts(text, user),
        (WfhDialog { state: wfh_transition(d.state, text, user).0 }).consistent_with(user),
{
}

} // verus!

verus! {

/// A step of the dialog that stops, with or without a reply, leaves it at
/// its start; one that goes on leaves it past its start.
pub proof fn lemma_wfh_step_action(
    state: WfhState,
    text: Seq<char>,
    user: UserView,
    next: WfhState,
    a: ActionView,
)
    requires
        wfh_step_fits(state, text, user, next, a),
    ensures
        a is Stop || a is ProcessAndStop ==> next == initial_state(),
        a is ProcessAndContinue ==> !(next is Initial),
{
    lemma_wfh_stop_resets(state, text, user);
}

} // verus!

verus! {

/// The event a confirmation posts for a clock reading: "today" books the
/// date read, from that date to the same date; "tomorrow" books what
/// "today" books on the next date; "untill now" runs from the moment
/// given for 9 o'clock to the moment read, and "from now" from the
/// moment read to the moment given for 20 o'clock, so the first ends
/// where the second starts.
pub proof fn lemma_confirmation_events(
    name: Seq<char>,
    today: LocalDate,
    now: LocalDateTime,
    start9: LocalDateTime,
    end20: LocalDateTime,
)
    ensures
        requested_event(ConfirmationState::Today, name, today, now, None, None) == Some(
            EventView::WholeDay(
                EventTexts { summary: "WFH: "@ + name, start: ymd_text(today), end: ymd_text(today) },
            ),
        ),
        !today.is_last() ==> requested_event(
            ConfirmationState::Tomorrow,
            name,
            today,
            now,
            None,
            None,
        ) == requested_event(ConfirmationState::Today, name, today.next(), now, None, None),
        today.is_last() ==> requested_event(
            ConfirmationState::Tomorrow,
            name,
            today,
            now,
            None,
            None,
        ) is None,
        start9.writable() && now.writable() ==> requested_event(
            ConfirmationState::TodayBeforeNow,
            name,
            today,
            now,
            Some(start9),
            None,
        ) == Some(
            EventView::PartialDay(
                EventTexts {
                    summary: "WFH: "@ + name,
                    start: moment_text(start9),
                    end: moment_text(now),
                },
            ),
        ),
        end20.writable() && now.writable() ==> requested_event(
            ConfirmationState::TodayFromNow,
            name,
            today,
            now,
            None,
            Some(end20),
        ) == Some(
            EventView::PartialDay(
                EventTexts {
                    summary: "WFH: "@ + name,
                    start: moment_text(now),
                    end: moment_text(end20),
                },
            ),
        ),
{
}

} // verus!
