//! The command-line grammar of the program.
use vstd::prelude::*;
use crate::command::{Command, CommandView, result_view};
use crate::grammar::{days_from, groups_from, groups_view, is_span, parse_days, span_groups};
use crate::media::{Media, MediaView, opt_view};
use crate::note::{Note, NoteView};
use crate::reminder::{Reminder, ReminderView};
use crate::text::{join_from, join_words, str_eq, views};
use crate::time::{
    Date, DateTime, Duration, MAX_DURATION, MIN_DAY, TimeOfDay, datetime_of, local_now,
    naive_datetime_parse, naive_time_parse, parse_datetime_str, parse_time_str, time_of,
};

verus! {

/// Why a command line is refused.
#[derive(Clone, Debug, PartialEq)]
pub enum OptionsError {
    /// Fewer than two arguments.
    TooFewArguments,
    /// `notify` without a type of notification.
    NotifyNeedsType,
    /// The option, the last argument, has no parameter.
    MissingParameter(String),
    /// The parameter of `-w` of a notification of the given type is not a
    /// date (and time).
    InvalidDate(String, NotifyKind),
    /// The parameter of `-w` is not a time of day.
    InvalidTime(String),
    /// The option is not known.
    NoSuchOption(String),
    /// The parameter of `-i` is not a time span.
    InvalidSpan(String),
    /// The unit letter of a time span is not one of `d`, `h`, `m`, `s`.
    InvalidTimeType(String),
    /// The time spans of `-i` add up to more than chrono's `TimeDelta` holds.
    SpanOverflow,
    /// `notify once` without `-w`.
    MissingOnceDate,
    /// `notify daily` without `-w`.
    MissingDailyTime,
    /// `notify interval` without `-w`.
    MissingIntervalDate,
    /// The day before today lies outside chrono's range of dates.
    DateOutOfRange,
    /// The type of notification is not known.
    NoSuchNotificationType(String),
    /// `note` without anything to note.
    NoteNeedsArguments,
    /// `note` without `-n` or without `--desc`.
    MissingNameOrDescription,
    /// The command is not known.
    InvalidCommand(String),
}

/// `OptionsError` as values.
pub enum OptionsErrorView {
    TooFewArguments,
    NotifyNeedsType,
    MissingParameter(Seq<char>),
    InvalidDate(Seq<char>, NotifyKind),
    InvalidTime(Seq<char>),
    NoSuchOption(Seq<char>),
    InvalidSpan(Seq<char>),
    InvalidTimeType(Seq<char>),
    SpanOverflow,
    MissingOnceDate,
    MissingDailyTime,
    MissingIntervalDate,
    DateOutOfRange,
    NoSuchNotificationType(Seq<char>),
    NoteNeedsArguments,
    MissingNameOrDescription,
    InvalidCommand(Seq<char>),
}

impl View for OptionsError {
    type V = OptionsErrorView;

    open spec fn view(&self) -> OptionsErrorView {
        match self {
            OptionsError::TooFewArguments => OptionsErrorView::TooFewArguments,
            OptionsError::NotifyNeedsType => OptionsErrorView::NotifyNeedsType,
            OptionsError::MissingParameter(s) => OptionsErrorView::MissingParameter(s@),
            OptionsError::InvalidDate(s, k) => OptionsErrorView::InvalidDate(s@, *k),
            OptionsError::InvalidTime(s) => OptionsErrorView::InvalidTime(s@),
            OptionsError::NoSuchOption(s) => OptionsErrorView::NoSuchOption(s@),
            OptionsError::InvalidSpan(s) => OptionsErrorView::InvalidSpan(s@),
            OptionsError::InvalidTimeType(s) => OptionsErrorView::InvalidTimeType(s@),
            OptionsError::SpanOverflow => OptionsErrorView::SpanOverflow,
            OptionsError::MissingOnceDate => OptionsErrorView::MissingOnceDate,
            OptionsError::MissingDailyTime => OptionsErrorView::MissingDailyTime,
            OptionsError::MissingIntervalDate => OptionsErrorView::MissingIntervalDate,
            OptionsError::DateOutOfRange => OptionsErrorView::DateOutOfRange,
            OptionsError::NoSuchNotificationType(s) => OptionsErrorView::NoSuchNotificationType(
                s@,
            ),
            OptionsError::NoteNeedsArguments => OptionsErrorView::NoteNeedsArguments,
            OptionsError::MissingNameOrDescription => OptionsErrorView::MissingNameOrDescription,
            OptionsError::InvalidCommand(s) => OptionsErrorView::InvalidCommand(s@),
        }
    }
}

/// The words with which a refused command line is reported.
pub open spec fn error_message(e: OptionsErrorView) -> Seq<char> {
    match e {
        OptionsErrorView::TooFewArguments => "Too few arguments"@,
        OptionsErrorView::NotifyNeedsType => "Notify command needs a type!"@,
        OptionsErrorView::MissingParameter(a) => a + " was not provided with a parameter!"@,
        OptionsErrorView::InvalidDate(a, kind) => if kind == NotifyKind::Once {
            a + " is not a valid date!\nValid dates should be in the format of %Y-%m-%d %H:%M:%S."@
        } else {
            a + " is not a valid date! Valid dates should be in the format of %Y-%m-%d %H:%M:%S."@
        },
        OptionsErrorView::InvalidTime(a) => a
            + " is not a valid time! Valid time should be in the format of %H:%M:%S."@,
        OptionsErrorView::NoSuchOption(a) => a + ": no such option"@,
        OptionsErrorView::InvalidSpan(a) => a
            + " is not a valid time identifier! Valid time identifiers should be in the format of ([1-9][0-9]{0,8}[dhmsDHMS]){1,4}."@,
        OptionsErrorView::InvalidTimeType(u) => u
            + " is not a valid time type! Valid time types are: d, h, m, s"@,
        OptionsErrorView::SpanOverflow => "`TimeDelta + TimeDelta` overflowed"@,
        OptionsErrorView::MissingOnceDate =>
            "No date and time provided to notification! notify once needs the -w field to be set"@,
        OptionsErrorView::MissingDailyTime =>
            "No date and time provided to notification! notify daily needs the -w field to be set"@,
        OptionsErrorView::MissingIntervalDate =>
            "No date and time provided to notification! notify daily needs the -w field to be set"@,
        OptionsErrorView::DateOutOfRange => "`NaiveDate - TimeDelta` overflowed"@,
        OptionsErrorView::NoSuchNotificationType(t) => t + ": no such type of notification!"@,
        OptionsErrorView::NoteNeedsArguments => "Note command needs something to note!"@,
        OptionsErrorView::MissingNameOrDescription =>
            "No name or descriptions provided to note! note needs the -n and the --desc fields to be set"@,
        OptionsErrorView::InvalidCommand(c) => c
            + " is not a valid argument! Valid arguments are start, stop, remind, note, help, show, add, delete."@,
    }
}

/// The text `a` followed by `tail`.
fn followed_by(a: &String, tail: &str) -> (r: String)
    ensures
        r@ == a@ + tail@,
{
    let mut s = a.clone();
    s.append(tail);
    s
}

impl OptionsError {
    /// The words with which this refusal is reported.
    pub fn message(&self) -> (r: String)
        ensures
            r@ == error_message(self@),
    {
        match self {
            OptionsError::TooFewArguments => String::from_str("Too few arguments"),
            OptionsError::NotifyNeedsType => String::from_str("Notify command needs a type!"),
            OptionsError::MissingParameter(a) => followed_by(a, " was not provided with a parameter!"),
            OptionsError::InvalidDate(a, kind) => if *kind == NotifyKind::Once {
                followed_by(
                    a,
                    " is not a valid date!\nValid dates should be in the format of %Y-%m-%d %H:%M:%S.",
                )
            } else {
                followed_by(
                    a,
                    " is not a valid date! Valid dates should be in the format of %Y-%m-%d %H:%M:%S.",
                )
            },
            OptionsError::InvalidTime(a) => followed_by(
                a,
                " is not a valid time! Valid time should be in the format of %H:%M:%S.",
            ),
            OptionsError::NoSuchOption(a) => followed_by(a, ": no such option"),
            OptionsError::InvalidSpan(a) => followed_by(
                a,
                " is not a valid time identifier! Valid time identifiers should be in the format of ([1-9][0-9]{0,8}[dhmsDHMS]){1,4}.",
            ),
            OptionsError::InvalidTimeType(u) => followed_by(
                u,
                " is not a valid time type! Valid time types are: d, h, m, s",
            ),
            OptionsError::SpanOverflow => String::from_str("`TimeDelta + TimeDelta` overflowed"),
            OptionsError::MissingOnceDate => String::from_str(
                "No date and time provided to notification! notify once needs the -w field to be set",
            ),
            OptionsError::MissingDailyTime => String::from_str(
                "No date and time provided to notification! notify daily needs the -w field to be set",
            ),
            OptionsError::MissingIntervalDate => String::from_str(
                "No date and time provided to notification! notify daily needs the -w field to be set",
            ),
            OptionsError::DateOutOfRange => String::from_str("`NaiveDate - TimeDelta` overflowed"),
            OptionsError::NoSuchNotificationType(t) => followed_by(t, ": no such type of notification!"),
            OptionsError::NoteNeedsArguments => String::from_str("Note command needs something to note!"),
            OptionsError::MissingNameOrDescription => String::from_str(
                "No name or descriptions provided to note! note needs the -n and the --desc fields to be set",
            ),
            OptionsError::InvalidCommand(c) => followed_by(
                c,
                " is not a valid argument! Valid arguments are start, stop, remind, note, help, show, add, delete.",
            ),
        }
    }
}

/// The format in which dates with times are read.
pub open spec fn datetime_format() -> Seq<char> {
    "%Y-%m-%d %H:%M:%S"@
}

/// The format in which times of day are read.
pub open spec fn time_format() -> Seq<char> {
    "%H:%M:%S"@
}

/// What is appended to a date that comes without a time.
pub open spec fn midnight() -> Seq<char> {
    " 00:00:00"@
}

/// A reading of chrono's as a point in time.
pub open spec fn datetime_reading(p: Option<(int, int)>) -> Option<DateTime> {
    match p {
        Some(t) => Some(datetime_of(t)),
        None => None,
    }
}

/// A reading of chrono's as a time of day.
pub open spec fn time_reading(p: Option<(int, int)>) -> Option<TimeOfDay> {
    match p {
        Some(t) => Some(time_of(t)),
        None => None,
    }
}

/// What chrono reads from the arguments of a command line, position by
/// position. At position `k`:
/// `joined`, the texts of `k` and `k + 1` together as a date and a time
/// (nothing where `k` is the last position); `joined_midnight`, the same
/// with midnight appended; `alone_midnight`, the text of `k` with midnight
/// appended; `time`, the text of `k` as a time of day; `dated_time`, the
/// text of `k` with midnight appended, as a date and time, its time of day.
pub struct ReadingsView {
    pub joined: Seq<Option<DateTime>>,
    pub joined_midnight: Seq<Option<DateTime>>,
    pub alone_midnight: Seq<Option<DateTime>>,
    pub time: Seq<Option<TimeOfDay>>,
    pub dated_time: Seq<Option<TimeOfDay>>,
}

impl ReadingsView {
    /// Readings of `n` positions, each one that chrono can hold.
    pub open spec fn fits(self, n: nat) -> bool {
        &&& self.joined.len() == n
        &&& self.joined_midnight.len() == n
        &&& self.alone_midnight.len() == n
        &&& self.time.len() == n
        &&& self.dated_time.len() == n
        &&& forall|k: int| 0 <= k < n ==> (#[trigger] self.joined[k] matches Some(d) ==> d.wf())
        &&& forall|k: int|
            0 <= k < n ==> (#[trigger] self.joined_midnight[k] matches Some(d) ==> d.wf())
        &&& forall|k: int|
            0 <= k < n ==> (#[trigger] self.alone_midnight[k] matches Some(d) ==> d.wf())
        &&& forall|k: int| 0 <= k < n ==> (#[trigger] self.time[k] matches Some(t) ==> t.wf())
        &&& forall|k: int| 0 <= k < n ==> (#[trigger] self.dated_time[k] matches Some(t) ==> t.wf())
    }
}

/// What chrono's parsers read from the arguments `args`.
pub open spec fn named_readings(args: Seq<Seq<char>>) -> ReadingsView {
    ReadingsView {
        joined: Seq::new(
            args.len(),
            |k: int|
                if k + 1 < args.len() {
                    datetime_reading(naive_datetime_parse(args[k] + args[k + 1], datetime_format()))
                } else {
                    None
                },
        ),
        joined_midnight: Seq::new(
            args.len(),
            |k: int|
                if k + 1 < args.len() {
                    datetime_reading(
                        naive_datetime_parse(args[k] + args[k + 1] + midnight(), datetime_format()),
                    )
                } else {
                    None
                },
        ),
        alone_midnight: Seq::new(
            args.len(),
            |k: int| datetime_reading(naive_datetime_parse(args[k] + midnight(), datetime_format())),
        ),
        time: Seq::new(args.len(), |k: int| time_reading(naive_time_parse(args[k], time_format()))),
        dated_time: Seq::new(
            args.len(),
            |k: int| time_reading(naive_time_parse(args[k] + midnight(), datetime_format())),
        ),
    }
}

/// The point in time that the parameter of `-w` at position `k` writes, by
/// the readings `rd`, and the position after it: a date and a time in two
/// arguments, then the two read together as a date at midnight, then a date
/// alone at midnight; nothing where no argument stands at `k`.
pub open spec fn when_at(args: Seq<Seq<char>>, rd: ReadingsView, k: int) -> Option<(DateTime, int)> {
    if k < 0 || k >= args.len() {
        None
    } else {
        let alone = match rd.alone_midnight[k] {
            Some(t) => Some((t, k + 1)),
            None => None,
        };
        if k + 1 < args.len() {
            match rd.joined[k] {
                Some(t) => Some((t, k + 2)),
                None => match rd.joined_midnight[k] {
                    Some(t) => Some((t, k + 2)),
                    None => alone,
                },
            }
        } else {
            alone
        }
    }
}

/// The time of day that the parameter of `-w` at position `k` writes, by
/// the readings `rd`: read as a time, else read, with midnight appended, as
/// a date and time; nothing where no argument stands at `k`.
pub open spec fn time_at(args: Seq<Seq<char>>, rd: ReadingsView, k: int) -> Option<TimeOfDay> {
    if k < 0 || k >= args.len() {
        None
    } else {
        match rd.time[k] {
            Some(t) => Some(t),
            None => rd.dated_time[k],
        }
    }
}

/// The span of time that `value` units of unit letter `u` make, where `u`
/// is one of `d`, `h`, `m`, `s`.
pub open spec fn unit_span(value: nat, u: char) -> Option<int> {
    if u == 'd' {
        Some((value * 86400) as int)
    } else if u == 'h' {
        Some((value * 3600) as int)
    } else if u == 'm' {
        Some((value * 60) as int)
    } else if u == 's' {
        Some(value as int)
    } else {
        None
    }
}

/// `acc` with the spans of the groups added one by one, first to last.
pub open spec fn add_groups(g: Seq<(nat, char)>, acc: int) -> Result<int, OptionsErrorView>
    decreases g.len(),
{
    if g.len() == 0 {
        Ok(acc)
    } else {
        match unit_span(g[0].0, g[0].1) {
            None => Err(OptionsErrorView::InvalidTimeType(seq![g[0].1])),
            Some(d) => if acc + d > MAX_DURATION {
                Err(OptionsErrorView::SpanOverflow)
            } else {
                add_groups(g.drop_first(), acc + d)
            },
        }
    }
}

/// `acc` with the span written by the parameter `s` of `-i` added.
pub open spec fn span_add(s: Seq<char>, acc: int) -> Result<int, OptionsErrorView> {
    if is_span(s) {
        add_groups(groups_from(s, 0).unwrap(), acc)
    } else {
        Err(OptionsErrorView::InvalidSpan(s))
    }
}

/// The type of a notification.
#[derive(Clone, Copy, Debug, PartialEq, Eq, Structural)]
pub enum NotifyKind {
    Once,
    Daily,
    Interval,
}

/// What the options of a notification have set so far.
#[verifier::ext_equal]
pub struct NotifyState {
    pub when: Option<DateTime>,
    pub time: Option<TimeOfDay>,
    pub picture: Option<Seq<char>>,
    pub sound: Option<Seq<char>>,
    pub description: Option<Seq<char>>,
    pub days: Seq<bool>,
    pub span: int,
}

/// Nothing set: every weekday marked, no span.
pub open spec fn initial_state() -> NotifyState {
    NotifyState {
        when: None,
        time: None,
        picture: None,
        sound: None,
        description: None,
        days: Seq::new(7, |j: int| true),
        span: 0,
    }
}

/// One option of a notification, at position `i` (its parameter at `i + 1`):
/// the state after it and the position of the next option.
pub open spec fn notify_step(args: Seq<Seq<char>>, rd: ReadingsView, kind: NotifyKind, i: int, st: NotifyState) -> Result<
    (NotifyState, int),
    OptionsErrorView,
> {
    let opt = args[i];
    let param = args[i + 1];
    if opt == "-w"@ && kind != NotifyKind::Daily {
        match when_at(args, rd, i + 1) {
            None => Err(OptionsErrorView::InvalidDate(param, kind)),
            Some((t, next)) => Ok((NotifyState { when: Some(t), ..st }, next)),
        }
    } else if opt == "-w"@ {
        match time_at(args, rd, i + 1) {
            None => Err(OptionsErrorView::InvalidTime(param)),
            Some(t) => Ok((NotifyState { time: Some(t), ..st }, i + 2)),
        }
    } else if opt == "-d"@ && kind == NotifyKind::Daily {
        Ok((NotifyState { days: days_from(param), ..st }, i + 2))
    } else if opt == "-i"@ && kind == NotifyKind::Interval {
        match span_add(param, st.span) {
            Err(e) => Err(e),
            Ok(s) => Ok((NotifyState { span: s, ..st }, i + 2)),
        }
    } else if opt == "-p"@ {
        Ok((NotifyState { picture: Some(param), ..st }, i + 2))
    } else if opt == "-s"@ {
        Ok((NotifyState { sound: Some(param), ..st }, i + 2))
    } else if opt == "--desc"@ {
        Ok(
            (
                NotifyState {
                    description: Some(join_words(args.subrange(i + 1, args.len() as int), seq![' '])),
                    ..st
                },
                args.len() as int,
            ),
        )
    } else {
        Err(OptionsErrorView::NoSuchOption(if kind == NotifyKind::Once { opt } else { param }))
    }
}

/// The options of a notification from position `i` on, applied to `st`.
pub open spec fn notify_from(args: Seq<Seq<char>>, rd: ReadingsView, kind: NotifyKind, i: int, st: NotifyState) -> Result<
    NotifyState,
    OptionsErrorView,
>
    decreases args.len() - i,
{
    if i >= args.len() {
        Ok(st)
    } else if args.len() == i + 1 {
        Err(OptionsErrorView::MissingParameter(args[i]))
    } else {
        match notify_step(args, rd, kind, i, st) {
            Err(e) => Err(e),
            Ok((next_st, next)) => if i < next <= args.len() {
                notify_from(args, rd, kind, next, next_st)
            } else {
                Ok(next_st)
            },
        }
    }
}

/// The options of `note` from position `i` on, with the name and the text set so far.
pub open spec fn note_from(
    args: Seq<Seq<char>>,
    i: int,
    name: Option<Seq<char>>,
    text: Option<Seq<char>>,
) -> Result<(Option<Seq<char>>, Option<Seq<char>>), OptionsErrorView>
    decreases args.len() - i,
{
    if i >= args.len() {
        Ok((name, text))
    } else if args.len() == i + 1 {
        Err(OptionsErrorView::MissingParameter(args[i]))
    } else if args[i] == "-n"@ {
        note_from(args, i + 2, Some(args[i + 1]), text)
    } else if args[i] == "--desc"@ {
        Ok((name, Some(join_words(args.subrange(i + 1, args.len() as int), seq![' ']))))
    } else {
        Err(OptionsErrorView::NoSuchOption(args[i]))
    }
}

/// The command that `note` with its options makes.
pub open spec fn note_outcome(args: Seq<Seq<char>>) -> Result<CommandView, OptionsErrorView> {
    if args.len() < 3 {
        Err(OptionsErrorView::NoteNeedsArguments)
    } else {
        match note_from(args, 2, None, None) {
            Err(e) => Err(e),
            Ok((Some(name), Some(text))) => Ok(CommandView::Note(NoteView { name, text })),
            Ok(_) => Err(OptionsErrorView::MissingNameOrDescription),
        }
    }
}

/// The media that a notification's options set.
pub open spec fn state_media(st: NotifyState) -> MediaView {
    MediaView { picture: st.picture, sound: st.sound }
}

/// The command that `notify` with its options makes, on the given day.
pub open spec fn notify_outcome(args: Seq<Seq<char>>, rd: ReadingsView, today: Date) -> Result<CommandView, OptionsErrorView> {
    if args.len() < 3 {
        Err(OptionsErrorView::NotifyNeedsType)
    } else if args[2] == "once"@ {
        match notify_from(args, rd, NotifyKind::Once, 3, initial_state()) {
            Err(e) => Err(e),
            Ok(st) => match st.when {
                Some(w) => Ok(
                    CommandView::Remind(ReminderView::Once(w, state_media(st), st.description)),
                ),
                None => Err(OptionsErrorView::MissingOnceDate),
            },
        }
    } else if args[2] == "daily"@ {
        match notify_from(args, rd, NotifyKind::Daily, 3, initial_state()) {
            Err(e) => Err(e),
            Ok(st) => match st.time {
                Some(t) => if today.days > MIN_DAY {
                    Ok(
                        CommandView::Remind(
                            ReminderView::Daily(
                                t,
                                st.days,
                                Date { days: (today.days - 1) as i64 },
                                state_media(st),
                                st.description,
                            ),
                        ),
                    )
                } else {
                    Err(OptionsErrorView::DateOutOfRange)
                },
                None => Err(OptionsErrorView::MissingDailyTime),
            },
        }
    } else if args[2] == "interval"@ {
        match notify_from(args, rd, NotifyKind::Interval, 3, initial_state()) {
            Err(e) => Err(e),
            Ok(st) => match st.when {
                Some(w) => Ok(
                    CommandView::Remind(
                        ReminderView::SpecificInterval(
                            w,
                            Duration { secs: st.span as i64 },
                            state_media(st),
                            st.description,
                        ),
                    ),
                ),
                None => Err(OptionsErrorView::MissingIntervalDate),
            },
        }
    } else if args[2] == "custom"@ {
        Ok(CommandView::NoCommand)
    } else {
        Err(OptionsErrorView::NoSuchNotificationType(args[2]))
    }
}

/// The command that the arguments `args` (the program's name first) make,
/// with the readings `rd` of chrono's, on the day `today`.
pub open spec fn outcome_with(args: Seq<Seq<char>>, rd: ReadingsView, today: Date) -> Result<CommandView, OptionsErrorView> {
    if args.len() < 2 {
        Err(OptionsErrorView::TooFewArguments)
    } else {
        let c = args[1];
        if c == "start"@ {
            Ok(CommandView::Start)
        } else if c == "stop"@ {
            Ok(CommandView::Stop)
        } else if c == "notify"@ {
            notify_outcome(args, rd, today)
        } else if c == "help"@ || c == "-h"@ {
            Ok(CommandView::Help)
        } else if c == "add"@ || c == "show"@ || c == "delete"@ {
            Ok(CommandView::NoCommand)
        } else if c == "note"@ {
            note_outcome(args)
        } else {
            Err(OptionsErrorView::InvalidCommand(c))
        }
    }
}

/// The command that the arguments `args` (the program's name first) make,
/// as chrono reads them, on the day `today`.
pub open spec fn options_outcome(args: Seq<Seq<char>>, today: Date) -> Result<CommandView, OptionsErrorView> {
    outcome_with(args, named_readings(args), today)
}

/// What chrono reads from the arguments of a command line, position by
/// position; see `ReadingsView`.
pub struct Readings {
    pub joined: Vec<Option<DateTime>>,
    pub joined_midnight: Vec<Option<DateTime>>,
    pub alone_midnight: Vec<Option<DateTime>>,
    pub time: Vec<Option<TimeOfDay>>,
    pub dated_time: Vec<Option<TimeOfDay>>,
}

impl View for Readings {
    type V = ReadingsView;

    open spec fn view(&self) -> ReadingsView {
        ReadingsView {
            joined: self.joined@,
            joined_midnight: self.joined_midnight@,
            alone_midnight: self.alone_midnight@,
            time: self.time@,
            dated_time: self.dated_time@,
        }
    }
}

/// Reads each argument of `args` with chrono's parsers, as `named_readings`
/// says.
pub fn read_arguments(args: &Vec<String>) -> (r: Readings)
    ensures
        r@ == named_readings(views(args@)),
        r@.fits(args.len() as nat),
{
    let ghost a = views(args@);
    let ghost want = named_readings(a);
    let mut r = Readings {
        joined: Vec::new(),
        joined_midnight: Vec::new(),
        alone_midnight: Vec::new(),
        time: Vec::new(),
        dated_time: Vec::new(),
    };
    let mut k: usize = 0;
    while k < args.len()
        invariant
            a == views(args@),
            want == named_readings(a),
            k <= args.len(),
            r.joined@ == want.joined.subrange(0, k as int),
            r.joined_midnight@ == want.joined_midnight.subrange(0, k as int),
            r.alone_midnight@ == want.alone_midnight.subrange(0, k as int),
            r.time@ == want.time.subrange(0, k as int),
            r.dated_time@ == want.dated_time.subrange(0, k as int),
            r@.fits(k as nat),
        decreases args.len() - k,
    {
        if k + 1 < args.len() {
            let mut joined = args[k].clone();
            joined.append(args[k + 1].as_str());
            let first = parse_datetime_str(joined.as_str(), "%Y-%m-%d %H:%M:%S");
            joined.append(" 00:00:00");
            let second = parse_datetime_str(joined.as_str(), "%Y-%m-%d %H:%M:%S");
            r.joined.push(first);
            r.joined_midnight.push(second);
        } else {
            r.joined.push(None);
            r.joined_midnight.push(None);
        }
        let mut alone = args[k].clone();
        alone.append(" 00:00:00");
        r.alone_midnight.push(parse_datetime_str(alone.as_str(), "%Y-%m-%d %H:%M:%S"));
        r.time.push(parse_time_str(args[k].as_str(), "%H:%M:%S"));
        r.dated_time.push(parse_time_str(alone.as_str(), "%Y-%m-%d %H:%M:%S"));
        proof {
            assert(r.joined@ =~= want.joined.subrange(0, k + 1));
            assert(r.joined_midnight@ =~= want.joined_midnight.subrange(0, k + 1));
            assert(r.alone_midnight@ =~= want.alone_midnight.subrange(0, k + 1));
            assert(r.time@ =~= want.time.subrange(0, k + 1));
            assert(r.dated_time@ =~= want.dated_time.subrange(0, k + 1));
        }
        k = k + 1;
    }
    proof {
        assert(r.joined@ =~= want.joined);
        assert(r.joined_midnight@ =~= want.joined_midnight);
        assert(r.alone_midnight@ =~= want.alone_midnight);
        assert(r.time@ =~= want.time);
        assert(r.dated_time@ =~= want.dated_time);
    }
    r
}

/// The pair of an optional point in time and position, with the position
/// as an integer.
pub open spec fn when_view(r: Option<(DateTime, usize)>) -> Option<(DateTime, int)> {
    match r {
        Some((d, n)) => Some((d, n as int)),
        None => None,
    }
}

/// The point in time that the parameter of `-w` at `index` writes, by the
/// readings `rd`, and the position after it; `None` where no argument
/// stands at `index`.
fn parse_datetime(args: &Vec<String>, rd: &Readings, index: usize) -> (r: Option<(DateTime, usize)>)
    requires
        rd@.fits(args.len() as nat),
    ensures
        when_view(r) == when_at(views(args@), rd@, index as int),
        r matches Some((d, _)) ==> d.wf(),
{
    if index >= args.len() {
        return None;
    }
    if index + 1 < args.len() {
        if let Some(d) = rd.joined[index] {
            return Some((d, index + 2));
        }
        if let Some(d) = rd.joined_midnight[index] {
            return Some((d, index + 2));
        }
    }
    match rd.alone_midnight[index] {
        Some(d) => Some((d, index + 1)),
        None => None,
    }
}

/// The time of day that the parameter of `-w` at `index` writes, by the
/// readings `rd`; `None` where no argument stands at `index`.
fn parse_time(args: &Vec<String>, rd: &Readings, index: usize) -> (r: Option<TimeOfDay>)
    requires
        rd@.fits(args.len() as nat),
    ensures
        r == time_at(views(args@), rd@, index as int),
        r matches Some(t) ==> t.wf(),
{
    if index >= args.len() {
        return None;
    }
    match rd.time[index] {
        Some(t) => Some(t),
        None => rd.dated_time[index],
    }
}

/// The one-letter text of an upper-case unit letter.
fn unit_text(u: char) -> (r: String)
    requires
        u == 'D' || u == 'H' || u == 'M' || u == 'S',
    ensures
        r@ == seq![u],
{
    proof {
        reveal_strlit("D");
        reveal_strlit("H");
        reveal_strlit("M");
        reveal_strlit("S");
    }
    if u == 'D' {
        String::from_str("D")
    } else if u == 'H' {
        String::from_str("H")
    } else if u == 'M' {
        String::from_str("M")
    } else {
        String::from_str("S")
    }
}

/// The span so far, `acc`, with the span that the `-i` parameter `s` writes added.
fn add_span(s: &str, acc: i64) -> (r: Result<i64, OptionsError>)
    requires
        0 <= acc <= MAX_DURATION,
    ensures
        match r {
            Ok(v) => span_add(s@, acc as int) == Ok::<int, OptionsErrorView>(v as int),
            Err(e) => span_add(s@, acc as int) == Err::<int, OptionsErrorView>(e@),
        },
        r matches Ok(v) ==> 0 <= v <= MAX_DURATION,
{
    let groups = match span_groups(s) {
        Some(g) => g,
        None => {
            return Err(OptionsError::InvalidSpan(String::from_str(s)));
        },
    };
    if s.unicode_len() == 0 || groups.len() < 1 || groups.len() > 4 {
        return Err(OptionsError::InvalidSpan(String::from_str(s)));
    }
    let ghost g = groups_view(groups@);
    assert(g.subrange(0, g.len() as int) =~= g);
    let mut total: i64 = acc;
    let mut k: usize = 0;
    while k < groups.len()
        invariant
            k <= groups.len(),
            g == groups_view(groups@),
            g.len() == groups.len(),
            forall|i: int| 0 <= i < groups.len() ==> groups@[i].0 < 1_000_000_000,
            forall|i: int| 0 <= i < groups.len() ==> crate::grammar::is_unit(#[trigger] groups@[i].1),
            0 <= total <= MAX_DURATION,
            span_add(s@, acc as int) == add_groups(g.subrange(k as int, g.len() as int), total as int),
        decreases groups.len() - k,
    {
        let (v, u) = groups[k];
        assert(g.subrange(k as int, g.len() as int)[0] == (v as nat, u));
        assert(g.subrange(k as int, g.len() as int).drop_first() =~= g.subrange(k + 1, g.len() as int));
        let d: i64 = if u == 'd' {
            (v as i64) * 86400
        } else if u == 'h' {
            (v as i64) * 3600
        } else if u == 'm' {
            (v as i64) * 60
        } else if u == 's' {
            v as i64
        } else {
            return Err(OptionsError::InvalidTimeType(unit_text(u)));
        };
        if total > MAX_DURATION - d {
            return Err(OptionsError::SpanOverflow);
        }
        total = total + d;
        k = k + 1;
    }
    Ok(total)
}

/// What the options of a notification have set so far.
struct Settings {
    when: Option<DateTime>,
    time: Option<TimeOfDay>,
    picture: Option<String>,
    sound: Option<String>,
    description: Option<String>,
    days: [bool; 7],
    span: i64,
}

impl Settings {
    spec fn state(&self) -> NotifyState {
        NotifyState {
            when: self.when,
            time: self.time,
            picture: opt_view(self.picture),
            sound: opt_view(self.sound),
            description: opt_view(self.description),
            days: self.days@,
            span: self.span as int,
        }
    }

    spec fn wf(&self) -> bool {
        &&& (self.when matches Some(d) ==> d.wf())
        &&& (self.time matches Some(t) ==> t.wf())
        &&& 0 <= self.span <= MAX_DURATION
    }
}

/// The options of a notification of kind `kind`, from position 3 on.
fn notify_options(args: &Vec<String>, rd: &Readings, kind: NotifyKind) -> (r: Result<Settings, OptionsError>)
    requires
        args.len() >= 3,
        rd@.fits(args.len() as nat),
    ensures
        match r {
            Ok(st) => notify_from(views(args@), rd@, kind, 3, initial_state()) == Ok::<
                NotifyState,
                OptionsErrorView,
            >(st.state()) && st.wf(),
            Err(e) => notify_from(views(args@), rd@, kind, 3, initial_state()) == Err::<
                NotifyState,
                OptionsErrorView,
            >(e@),
        },
{
    let ghost a = views(args@);
    let mut st = Settings {
        when: None,
        time: None,
        picture: None,
        sound: None,
        description: None,
        days: [true; 7],
        span: 0,
    };
    assert(st.state() =~= initial_state());
    let mut i: usize = 3;
    while i < args.len()
        invariant
            a == views(args@),
            i <= args.len(),
            rd@.fits(args.len() as nat),
            notify_from(a, rd@, kind, i as int, st.state()) == notify_from(a, rd@, kind, 3, initial_state()),
            st.wf(),
        decreases args.len() - i,
    {
        if args.len() == i + 1 {
            return Err(OptionsError::MissingParameter(args[i].clone()));
        }
        let ghost before = st.state();
        let opt = args[i].as_str();
        if str_eq(opt, "-w") && kind != NotifyKind::Daily {
            match parse_datetime(args, rd, i + 1) {
                None => {
                    return Err(OptionsError::InvalidDate(args[i + 1].clone(), kind));
                },
                Some((d, next)) => {
                    st.when = Some(d);
                    assert(st.state() =~= NotifyState { when: Some(d), ..before });
                    i = next;
                },
            }
        } else if str_eq(opt, "-w") {
            match parse_time(args, rd, i + 1) {
                None => {
                    return Err(OptionsError::InvalidTime(args[i + 1].clone()));
                },
                Some(t) => {
                    st.time = Some(t);
                    assert(st.state() =~= NotifyState { time: Some(t), ..before });
                    i = i + 2;
                },
            }
        } else if str_eq(opt, "-d") && kind == NotifyKind::Daily {
            st.days = parse_days(args[i + 1].as_str());
            assert(st.state() =~= NotifyState { days: days_from(a[i + 1]), ..before });
            i = i + 2;
        } else if str_eq(opt, "-i") && kind == NotifyKind::Interval {
            match add_span(args[i + 1].as_str(), st.span) {
                Err(e) => {
                    return Err(e);
                },
                Ok(total) => {
                    st.span = total;
                    assert(st.state() =~= NotifyState { span: total as int, ..before });
                    i = i + 2;
                },
            }
        } else if str_eq(opt, "-p") {
            st.picture = Some(args[i + 1].clone());
            assert(st.state() =~= NotifyState { picture: Some(a[i + 1]), ..before });
            i = i + 2;
        } else if str_eq(opt, "-s") {
            st.sound = Some(args[i + 1].clone());
            assert(st.state() =~= NotifyState { sound: Some(a[i + 1]), ..before });
            i = i + 2;
        } else if str_eq(opt, "--desc") {
            st.description = Some(join_from(args, i + 1));
            assert(st.state() =~= NotifyState {
                description: Some(join_words(a.subrange(i + 1, a.len() as int), seq![' '])),
                ..before
            });
            i = args.len();
        } else {
            if kind == NotifyKind::Once {
                return Err(OptionsError::NoSuchOption(args[i].clone()));
            } else {
                return Err(OptionsError::NoSuchOption(args[i + 1].clone()));
            }
        }
    }
    Ok(st)
}

/// The options of `note`, from position 2 on: the name and the text.
fn note_options(args: &Vec<String>) -> (r: Result<(Option<String>, Option<String>), OptionsError>)
    ensures
        match r {
            Ok((name, text)) => note_from(views(args@), 2, None, None) == Ok::<
                (Option<Seq<char>>, Option<Seq<char>>),
                OptionsErrorView,
            >((opt_view(name), opt_view(text))),
            Err(e) => note_from(views(args@), 2, None, None) == Err::<
                (Option<Seq<char>>, Option<Seq<char>>),
                OptionsErrorView,
            >(e@),
        },
{
    let ghost a = views(args@);
    let mut name: Option<String> = None;
    let mut text: Option<String> = None;
    let mut i: usize = 2;
    while i < args.len()
        invariant
            a == views(args@),
            2 <= i,
            text is None,
            note_from(a, i as int, opt_view(name), opt_view(text)) == note_from(a, 2, None, None),
        decreases args.len() - i,
    {
        if args.len() == i + 1 {
            return Err(OptionsError::MissingParameter(args[i].clone()));
        }
        if str_eq(args[i].as_str(), "-n") {
            name = Some(args[i + 1].clone());
            i = i + 2;
        } else if str_eq(args[i].as_str(), "--desc") {
            let joined = join_from(args, i + 1);
            return Ok((name, Some(joined)));
        } else {
            return Err(OptionsError::NoSuchOption(args[i].clone()));
        }
    }
    Ok((name, text))
}

/// The command that the arguments `args` (the program's name first) make,
/// on the day `today`: a `daily` reminder counts the day before `today` as
/// the last day on which it went off.
pub fn parse_options_at(args: Vec<String>, today: Date) -> (r: Result<Command, OptionsError>)
    requires
        today.wf(),
    ensures
        result_view(r) == options_outcome(views(args@), today),
        r matches Ok(Command::Remind(rem)) ==> rem.wf(),
{
    let rd = read_arguments(&args);
    parse_options_with(args, &rd, today)
}

/// The command that the arguments `args` (the program's name first) make,
/// where chrono reads from them what `rd` holds, on the day `today`.
pub fn parse_options_with(args: Vec<String>, rd: &Readings, today: Date) -> (r: Result<Command, OptionsError>)
    requires
        today.wf(),
        rd@.fits(args.len() as nat),
    ensures
        result_view(r) == outcome_with(views(args@), rd@, today),
        r matches Ok(Command::Remind(rem)) ==> rem.wf(),
{
    let ghost a = views(args@);
    if args.len() < 2 {
        return Err(OptionsError::TooFewArguments);
    }
    let c = args[1].as_str();
    if str_eq(c, "start") {
        Ok(Command::Start)
    } else if str_eq(c, "stop") {
        Ok(Command::Stop)
    } else if str_eq(c, "notify") {
        if args.len() < 3 {
            return Err(OptionsError::NotifyNeedsType);
        }
        let t = args[2].as_str();
        if str_eq(t, "once") {
            let st = match notify_options(&args, rd, NotifyKind::Once) {
                Ok(st) => st,
                Err(e) => {
                    return Err(e);
                },
            };
            match st.when {
                Some(w) => Ok(
                    Command::Remind(
                        Reminder::Once(
                            w,
                            Media { picture: st.picture, sound: st.sound },
                            st.description,
                        ),
                    ),
                ),
                None => Err(OptionsError::MissingOnceDate),
            }
        } else if str_eq(t, "daily") {
            let st = match notify_options(&args, rd, NotifyKind::Daily) {
                Ok(st) => st,
                Err(e) => {
                    return Err(e);
                },
            };
            match st.time {
                Some(time) => match today.checked_pred() {
                    Some(last_day) => Ok(
                        Command::Remind(
                            Reminder::Daily(
                                time,
                                st.days,
                                last_day,
                                Media { picture: st.picture, sound: st.sound },
                                st.description,
                            ),
                        ),
                    ),
                    None => Err(OptionsError::DateOutOfRange),
                },
                None => Err(OptionsError::MissingDailyTime),
            }
        } else if str_eq(t, "interval") {
            let st = match notify_options(&args, rd, NotifyKind::Interval) {
                Ok(st) => st,
                Err(e) => {
                    return Err(e);
                },
            };
            match st.when {
                Some(w) => Ok(
                    Command::Remind(
                        Reminder::SpecificInterval(
                            w,
                            Duration { secs: st.span },
                            Media { picture: st.picture, sound: st.sound },
                            st.description,
                        ),
                    ),
                ),
                None => Err(OptionsError::MissingIntervalDate),
            }
        } else if str_eq(t, "custom") {
            Ok(Command::NoCommand)
        } else {
            Err(OptionsError::NoSuchNotificationType(args[2].clone()))
        }
    } else if str_eq(c, "help") || str_eq(c, "-h") {
        Ok(Command::Help)
    } else if str_eq(c, "add") || str_eq(c, "show") || str_eq(c, "delete") {
        Ok(Command::NoCommand)
    } else if str_eq(c, "note") {
        if args.len() < 3 {
            return Err(OptionsError::NoteNeedsArguments);
        }
        match note_options(&args) {
            Err(e) => Err(e),
            Ok((Some(name), Some(text))) => Ok(Command::Note(Note { name, text })),
            Ok(_) => Err(OptionsError::MissingNameOrDescription),
        }
    } else {
        Err(OptionsError::InvalidCommand(args[1].clone()))
    }
}

/// Adding up time spans fails only on a unit letter or on overflow.
proof fn lemma_add_groups_errors(g: Seq<(nat, char)>, acc: int)
    ensures
        add_groups(g, acc) matches Err(e) ==> (e is InvalidTimeType || e is SpanOverflow),
    decreases g.len(),
{
    if g.len() > 0 {
        match unit_span(g[0].0, g[0].1) {
            Some(d) => {
                lemma_add_groups_errors(g.drop_first(), acc + d);
            },
            None => {},
        }
    }
}

/// The options of a notification never refuse the day.
proof fn lemma_notify_from_errors(
    args: Seq<Seq<char>>,
    rd: ReadingsView,
    kind: NotifyKind,
    i: int,
    st: NotifyState,
)
    ensures
        !(notify_from(args, rd, kind, i, st) matches Err(OptionsErrorView::DateOutOfRange)),
    decreases args.len() - i,
{
    if i < args.len() && args.len() != i + 1 {
        let param = args[i + 1];
        if is_span(param) {
            lemma_add_groups_errors(groups_from(param, 0).unwrap(), st.span);
        }
        match notify_step(args, rd, kind, i, st) {
            Ok((next_st, next)) => {
                if i < next <= args.len() {
                    lemma_notify_from_errors(args, rd, kind, next, next_st);
                }
            },
            Err(_) => {},
        }
    }
}

/// The options of a note never refuse the day.
proof fn lemma_note_from_errors(
    args: Seq<Seq<char>>,
    i: int,
    name: Option<Seq<char>>,
    text: Option<Seq<char>>,
)
    ensures
        !(note_from(args, i, name, text) matches Err(OptionsErrorView::DateOutOfRange)),
    decreases args.len() - i,
{
    if i < args.len() && args.len() != i + 1 && args[i] == "-n"@ {
        lemma_note_from_errors(args, i + 2, Some(args[i + 1]), text);
    }
}

/// On a day after chrono's first, the arguments are never refused for the day.
proof fn lemma_day_in_range(args: Seq<Seq<char>>, today: Date)
    requires
        today.days > MIN_DAY,
    ensures
        !(options_outcome(args, today) matches Err(OptionsErrorView::DateOutOfRange)),
{
    if args.len() >= 3 {
        lemma_notify_from_errors(args, named_readings(args), NotifyKind::Once, 3, initial_state());
        lemma_notify_from_errors(args, named_readings(args), NotifyKind::Daily, 3, initial_state());
        lemma_notify_from_errors(args, named_readings(args), NotifyKind::Interval, 3, initial_state());
        lemma_note_from_errors(args, 2, None, None);
    }
}

/// Whether the arguments ask for a daily notification: the one command
/// whose outcome depends on the day.
pub open spec fn asks_daily(args: Seq<Seq<char>>) -> bool {
    args.len() >= 3 && args[1] == "notify"@ && args[2] == "daily"@
}

/// The command that the arguments `args` (the program's name first) make.
/// Only a daily notification reads the local clock, for today's date; it
/// counts the day before as the last day on which it went off.
pub fn parse_options(args: Vec<String>) -> (r: Result<Command, OptionsError>)
    ensures
        asks_daily(views(args@)) ==> exists|today: Date|
            today.wf() && today.days >= -1 && #[trigger] options_outcome(views(args@), today)
                == result_view(r),
        !asks_daily(views(args@)) ==> forall|today: Date|
            today.wf() ==> #[trigger] options_outcome(views(args@), today) == result_view(r),
        !(result_view(r) matches Err(OptionsErrorView::DateOutOfRange)),
        r matches Ok(Command::Remind(rem)) ==> rem.wf(),
{
    let ghost a = views(args@);
    let daily = args.len() >= 3 && str_eq(args[1].as_str(), "notify") && str_eq(
        args[2].as_str(),
        "daily",
    );
    let today = if daily {
        local_now().date()
    } else {
        Date { days: 0 }
    };
    proof {
        reveal_strlit("notify");
        reveal_strlit("daily");
        assert(daily == asks_daily(a));
    }
    let r = parse_options_at(args, today);
    proof {
        lemma_day_in_range(a, today);
        if !daily {
            assert forall|d: Date| d.wf() implies #[trigger] options_outcome(a, d) == result_view(r) by {
                assert(options_outcome(a, d) == options_outcome(a, today));
            }
        }
    }
    r
}

} // verus!
