//! Reminders: when they go off, and how they read.
use vstd::prelude::*;
use crate::media::{Media, MediaView, opt_view};
use crate::time::{
    DateTime, Date, Duration, TimeOfDay, datetime_text, duration_display, duration_text,
    naive_datetime_text, time_display, time_text,
};

verus! {

/// A reminder.
#[derive(Clone, Debug, PartialEq)]
pub enum Reminder {
    /// Goes off once, at the given point in time.
    Once(DateTime, Media, Option<String>),
    /// Goes off each day at the given time of day, on the weekdays marked
    /// (Monday first), at most once a day; the date is the last day on which
    /// it went off.
    Daily(TimeOfDay, [bool; 7], Date, Media, Option<String>),
    /// Goes off at the given point in time, and again each time the given
    /// span has passed.
    SpecificInterval(DateTime, Duration, Media, Option<String>),
}

/// A reminder as values.
pub enum ReminderView {
    Once(DateTime, MediaView, Option<Seq<char>>),
    Daily(TimeOfDay, Seq<bool>, Date, MediaView, Option<Seq<char>>),
    SpecificInterval(DateTime, Duration, MediaView, Option<Seq<char>>),
}

impl View for Reminder {
    type V = ReminderView;

    open spec fn view(&self) -> ReminderView {
        match self {
            Reminder::Once(at, media, description) => ReminderView::Once(
                *at,
                media@,
                opt_view(*description),
            ),
            Reminder::Daily(time, days, last_day, media, description) => ReminderView::Daily(
                *time,
                days@,
                *last_day,
                media@,
                opt_view(*description),
            ),
            Reminder::SpecificInterval(start, every, media, description) => ReminderView::SpecificInterval(
                *start,
                *every,
                media@,
                opt_view(*description),
            ),
        }
    }
}

impl ReminderView {
    /// Every point in time, time of day, date and span lies in chrono's range.
    pub open spec fn wf(self) -> bool {
        match self {
            ReminderView::Once(at, _, _) => at.wf(),
            ReminderView::Daily(time, days, last_day, _, _) => time.wf() && days.len() == 7
                && last_day.wf(),
            ReminderView::SpecificInterval(start, every, _, _) => start.wf() && every.wf(),
        }
    }
}

impl Reminder {
    pub open spec fn wf(&self) -> bool {
        self@.wf()
    }
}

/// The English name of weekday `i`, Monday = 0.
pub open spec fn day_name(i: int) -> Seq<char> {
    if i == 0 { "Monday"@ }
    else if i == 1 { "Tuesday"@ }
    else if i == 2 { "Wednesday"@ }
    else if i == 3 { "Thursday"@ }
    else if i == 4 { "Friday"@ }
    else if i == 5 { "Saturday"@ }
    else { "Sunday"@ }
}

/// `label` followed by the text, where there is one; nothing where there is none.
pub open spec fn labelled(label: Seq<char>, value: Option<Seq<char>>) -> Seq<char> {
    match value {
        Some(v) => label + v,
        None => seq![],
    }
}

/// The picture, sound and description parts of a reminder's text.
pub open spec fn misc_text(media: MediaView, description: Option<Seq<char>>) -> Seq<char> {
    labelled(", with picture "@, media.picture) + labelled(", with sound "@, media.sound)
        + labelled(", description: "@, description)
}

/// The names, each followed by a comma, of the marked weekdays among
/// weekdays 1 to `n - 1` (Monday, weekday 0, is never named).
pub open spec fn days_listing(days: Seq<bool>, n: int) -> Seq<char>
    decreases n,
{
    if n <= 1 {
        seq![]
    } else {
        days_listing(days, n - 1) + (if days[n - 1] { day_name(n - 1) + ","@ } else { seq![] })
    }
}

/// The text of a reminder: what it is shown as.
pub open spec fn reminder_text(r: ReminderView) -> Seq<char> {
    match r {
        ReminderView::Once(at, media, description) => "Remind on "@ + naive_datetime_text(
            at.secs as int,
            at.nanos as int,
        ) + misc_text(media, description),
        ReminderView::Daily(time, days, _, media, description) => "Remind at "@ + time_display(
            time.secs as int,
            time.nanos as int,
        ) + " on "@ + days_listing(days, 7) + "\u{8}"@ + misc_text(media, description),
        ReminderView::SpecificInterval(start, every, media, description) => "From "@
            + naive_datetime_text(start.secs as int, start.nanos as int) + ", remind every "@ + duration_display(
            every.secs as int,
        ) + misc_text(media, description),
    }
}

fn day_name_str(i: usize) -> (r: &'static str)
    requires
        i < 7,
    ensures
        r@ == day_name(i as int),
{
    if i == 0 { "Monday" }
    else if i == 1 { "Tuesday" }
    else if i == 2 { "Wednesday" }
    else if i == 3 { "Thursday" }
    else if i == 4 { "Friday" }
    else if i == 5 { "Saturday" }
    else { "Sunday" }
}

fn append_labelled(s: &mut String, label: &str, value: &Option<String>)
    ensures
        final(s)@ == old(s)@ + labelled(label@, opt_view(*value)),
{
    match value {
        Some(v) => {
            s.append(label);
            s.append(v.as_str());
        },
        None => {
            assert(old(s)@ + labelled(label@, opt_view(*value)) =~= old(s)@);
        },
    }
}

fn append_misc(s: &mut String, media: &Media, description: &Option<String>)
    ensures
        final(s)@ == old(s)@ + misc_text(media@, opt_view(*description)),
{
    append_labelled(s, ", with picture ", &media.picture);
    append_labelled(s, ", with sound ", &media.sound);
    append_labelled(s, ", description: ", description);
    assert(final(s)@ =~= old(s)@ + misc_text(media@, opt_view(*description)));
}

impl Reminder {
    /// The text of this reminder, as it is shown to the user.
    pub fn text(&self) -> (r: String)
        requires
            self.wf(),
        ensures
            r@ == reminder_text(self@),
    {
        match self {
            Reminder::Once(at, media, description) => {
                let mut s = String::from_str("Remind on ");
                s.append(datetime_text(*at).as_str());
                append_misc(&mut s, media, description);
                assert(s@ =~= reminder_text(self@));
                s
            },
            Reminder::Daily(time, days, _, media, description) => {
                let mut s = String::from_str("Remind at ");
                s.append(time_text(*time).as_str());
                s.append(" on ");
                let ghost head = s@;
                let mut i: usize = 1;
                while i < 7
                    invariant
                        1 <= i <= 7,
                        s@ == head + days_listing(days@, i as int),
                    decreases 7 - i,
                {
                    if days[i] {
                        s.append(day_name_str(i));
                        s.append(",");
                    }
                    assert(s@ =~= head + days_listing(days@, i + 1));
                    i = i + 1;
                }
                s.append("\u{8}");
                append_misc(&mut s, media, description);
                assert(s@ =~= reminder_text(self@));
                s
            },
            Reminder::SpecificInterval(start, every, media, description) => {
                let mut s = String::from_str("From ");
                s.append(datetime_text(*start).as_str());
                s.append(", remind every ");
                s.append(duration_text(*every).as_str());
                append_misc(&mut s, media, description);
                assert(s@ =~= reminder_text(self@));
                s
            },
        }
    }
}

} // verus!
