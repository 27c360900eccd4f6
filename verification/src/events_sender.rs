//! The single-day work-from-home event that the command conversation
//! posts to the calendar.

use vstd::prelude::*;

use crate::basic_structures::{CalendarDate, EventTexts, LocalDate, format_date, ymd_text};
use crate::text::owned;

verus! {

/// A whole-day "WFH" event for one calendar day.
pub struct WfhSingleDay {
    pub summary: String,
    pub start: CalendarDate,
    pub end: CalendarDate,
}

impl View for WfhSingleDay {
    type V = EventTexts;

    open spec fn view(&self) -> EventTexts {
        EventTexts { summary: self.summary@, start: self.start.date@, end: self.end.date@ }
    }
}

impl WfhSingleDay {
    /// "WFH " and the name, from `date` to `date`.
    pub fn new(name: &str, date: &LocalDate) -> (r: Self)
        requires
            date.valid(),
        ensures
            r@ == (EventTexts {
                summary: "WFH "@ + name@,
                start: ymd_text(*date),
                end: ymd_text(*date),
            }),
    {
        let date_text = format_date(*date);
        let start = CalendarDate { date: date_text };
        let end = CalendarDate { date: start.date.clone() };
        let mut summary = owned("WFH ");
        summary.append(name);
        WfhSingleDay { summary, start, end }
    }
}

} // verus!
