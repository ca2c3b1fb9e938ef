//! Laws that relate the operations of the library to each other.
use vstd::prelude::*;
use crate::apifs_object::{ApifsObjectView, note_lines, note_text, object_text, reminder_lines, shown_text};
use crate::command::CommandView;
use crate::command::delete::{lemma_filter_keeps_all, other_name, without_reminder};
use crate::command::remind::reminded;
use crate::command::show::{first_named, shows_note};
use crate::note::Note;
use crate::grammar::days_from;
use crate::media::MediaView;
use crate::options::{
    NotifyKind, NotifyState, ReadingsView, initial_state, named_readings, notify_from, options_outcome,
};
use crate::text::decimal;
use crate::reminder::{ReminderView, misc_text, reminder_text};
use crate::server::{ReminderCheck, check};
use crate::time::{Date, DateTime, not_before, weekday_index};

verus! {

/// A daily reminder set today goes off today, once its time of day has come,
/// where today is one of its weekdays: it counts yesterday as the last day on
/// which it went off.
pub proof fn law_new_daily_reminder_goes_off_today(args: Seq<Seq<char>>, today: Date, now: DateTime)
    requires
        today.wf(),
        now.wf(),
        options_outcome(args, today) matches Ok(CommandView::Remind(r)) && r is Daily,
        now.spec_date() == today.days,
    ensures
        ({
            let r = options_outcome(args, today)->Ok_0->Remind_0;
            not_before(
                now.spec_time(),
                now.nanos as int,
                r->Daily_0.secs as int,
                r->Daily_0.nanos as int,
            ) && r->Daily_1[weekday_index(today.days as int)] ==> check(
                r,
                now,
            ).0 == ReminderCheck::Due
        }),
{
    let r = options_outcome(args, today)->Ok_0->Remind_0;
    assert(r->Daily_2.days == today.days - 1);
}

/// A reminder just added is stored at the last position, the one that
/// showing that position shows, and nothing else changes.
pub proof fn law_added_reminder_is_last(o: ApifsObjectView, r: ReminderView)
    ensures
        reminded(o, r).reminders.len() == o.reminders.len() + 1,
        reminded(o, r).reminders[o.reminders.len() as int] == r,
        reminded(o, r).reminders.subrange(0, o.reminders.len() as int) == o.reminders,
        reminded(o, r).notes == o.notes,
{
    assert(reminded(o, r).reminders.subrange(0, o.reminders.len() as int) =~= o.reminders);
}

/// Deleting the reminder at the last position undoes adding it.
pub proof fn law_delete_undoes_remind(o: ApifsObjectView, r: ReminderView)
    ensures
        without_reminder(reminded(o, r), o.reminders.len() as int) == o,
{
    assert(reminded(o, r).reminders.remove(o.reminders.len() as int) =~= o.reminders);
}

/// A note whose name no stored note has is, once written, the note that
/// showing that name shows.
pub proof fn law_written_note_is_shown(s: Seq<Note>, n: Note)
    requires
        forall|i: int| 0 <= i < s.len() ==> (#[trigger] s[i]).name@ != n.name@,
    ensures
        shows_note(s.push(n), n.name@, note_text(n@)),
{
    let t = s.push(n);
    assert(forall|j: int| 0 <= j < s.len() ==> (#[trigger] t[j]).name@ != n.name@) by {
        assert forall|j: int| 0 <= j < s.len() implies (#[trigger] t[j]).name@ != n.name@ by {
            assert(t[j] == s[j]);
        }
    }
    assert(first_named(t, n.name@, s.len() as int));
}

/// Deleting the notes with the name of a note just written, which no stored
/// note had, undoes writing it; and such a delete is one that may be asked.
pub proof fn law_delete_undoes_write_note(s: Seq<Note>, n: Note)
    requires
        forall|i: int| 0 <= i < s.len() ==> (#[trigger] s[i]).name@ != n.name@,
    ensures
        forall|i: int| 0 <= i < s.push(n).len() - 1 ==> (#[trigger] s.push(n)[i]).name@ != n.name@,
        s.push(n).filter(other_name(n.name@)) == s,
{
    let t = s.push(n);
    assert forall|i: int| 0 <= i < t.len() - 1 implies (#[trigger] t[i]).name@ != n.name@ by {
        assert(t[i] == s[i]);
    }
    lemma_filter_keeps_all(s, other_name(n.name@));
    reveal(Seq::filter);
    assert(t.drop_last() =~= s);
}

/// Whether no argument of `args` from position `i` on is `opt`.
pub open spec fn absent_from(args: Seq<Seq<char>>, i: int, opt: Seq<char>) -> bool {
    forall|j: int| i <= j < args.len() ==> args[j] != opt
}

/// Each setting of a notification changes only through its own option:
/// where no `-p` follows, the picture stays as it was; where no `-s`, the
/// sound; where no `-d`, the weekdays; where no `-i`, the span; where no
/// `--desc`, the description; where no `-w`, the point in time and the time
/// of day. So a `-w` or an `-i` keeps the picture and sound given before
/// it, and a `-w` keeps the weekdays given before it.
pub proof fn law_settings_change_only_by_their_options(
    args: Seq<Seq<char>>,
    rd: ReadingsView,
    kind: NotifyKind,
    i: int,
    st: NotifyState,
)
    requires
        notify_from(args, rd, kind, i, st) is Ok,
    ensures
        ({
            let fin = notify_from(args, rd, kind, i, st)->Ok_0;
            &&& absent_from(args, i, "-p"@) ==> fin.picture == st.picture
            &&& absent_from(args, i, "-s"@) ==> fin.sound == st.sound
            &&& absent_from(args, i, "-d"@) ==> fin.days == st.days
            &&& absent_from(args, i, "-i"@) ==> fin.span == st.span
            &&& absent_from(args, i, "--desc"@) ==> fin.description == st.description
            &&& absent_from(args, i, "-w"@) ==> fin.when == st.when && fin.time == st.time
        }),
    decreases args.len() - i,
{
    if i < args.len() && args.len() != i + 1 {
        match crate::options::notify_step(args, rd, kind, i, st) {
            Ok((next_st, next)) => {
                if i < next <= args.len() {
                    law_settings_change_only_by_their_options(args, rd, kind, next, next_st);
                }
            },
            Err(_) => {},
        }
    }
}

/// The names of the options of a notification are different texts.
proof fn lemma_option_names_differ()
    ensures
        "-p"@ != "-w"@,
        "-p"@ != "-d"@,
        "-p"@ != "-i"@,
        "-s"@ != "-w"@,
        "-s"@ != "-d"@,
        "-s"@ != "-i"@,
        "-s"@ != "-p"@,
        "-d"@ != "-w"@,
{
    reveal_strlit("-p");
    reveal_strlit("-s");
    reveal_strlit("-d");
    reveal_strlit("-w");
    reveal_strlit("-i");
    assert("-p"@[1] != "-w"@[1]);
    assert("-p"@[1] != "-d"@[1]);
    assert("-p"@[1] != "-i"@[1]);
    assert("-s"@[1] != "-w"@[1]);
    assert("-s"@[1] != "-d"@[1]);
    assert("-s"@[1] != "-i"@[1]);
    assert("-s"@[1] != "-p"@[1]);
    assert("-d"@[1] != "-w"@[1]);
}

/// At an option's place, `-p`, `-s` and (for a daily notification) `-d`
/// set their setting to their parameter and leave everything else to the
/// options after them.
pub proof fn law_option_sets_its_setting(
    args: Seq<Seq<char>>,
    rd: ReadingsView,
    kind: NotifyKind,
    i: int,
    st: NotifyState,
)
    requires
        0 <= i,
        i + 1 < args.len(),
    ensures
        args[i] == "-p"@ ==> notify_from(args, rd, kind, i, st) == notify_from(
            args,
            rd,
            kind,
            i + 2,
            NotifyState { picture: Some(args[i + 1]), ..st },
        ),
        args[i] == "-s"@ ==> notify_from(args, rd, kind, i, st) == notify_from(
            args,
            rd,
            kind,
            i + 2,
            NotifyState { sound: Some(args[i + 1]), ..st },
        ),
        args[i] == "-d"@ && kind == NotifyKind::Daily ==> notify_from(args, rd, kind, i, st)
            == notify_from(args, rd, kind, i + 2, NotifyState { days: days_from(args[i + 1]), ..st }),
{
    lemma_option_names_differ();
    if args[i] == "-p"@ {
        assert(crate::options::notify_step(args, rd, kind, i, st) == Ok::<(NotifyState, int), crate::options::OptionsErrorView>(
            (NotifyState { picture: Some(args[i + 1]), ..st }, i + 2),
        ));
    }
    if args[i] == "-s"@ {
        assert(crate::options::notify_step(args, rd, kind, i, st) == Ok::<(NotifyState, int), crate::options::OptionsErrorView>(
            (NotifyState { sound: Some(args[i + 1]), ..st }, i + 2),
        ));
    }
    if args[i] == "-d"@ && kind == NotifyKind::Daily {
        assert(crate::options::notify_step(args, rd, kind, i, st) == Ok::<(NotifyState, int), crate::options::OptionsErrorView>(
            (NotifyState { days: days_from(args[i + 1]), ..st }, i + 2),
        ));
    }
}

/// The reminder fields of a stored reminder: its media and description.
pub open spec fn media_of(r: ReminderView) -> MediaView {
    match r {
        ReminderView::Once(_, media, _) => media,
        ReminderView::Daily(_, _, _, media, _) => media,
        ReminderView::SpecificInterval(_, _, media, _) => media,
    }
}

/// The description of a stored reminder.
pub open spec fn description_of(r: ReminderView) -> Option<Seq<char>> {
    match r {
        ReminderView::Once(_, _, d) => d,
        ReminderView::Daily(_, _, _, _, d) => d,
        ReminderView::SpecificInterval(_, _, _, d) => d,
    }
}

/// Whatever its kind, the text of a reminder ends with its own picture,
/// sound and description: one with description `d` reads `..., description: d`.
pub proof fn law_text_ends_with_media_and_description(r: ReminderView)
    ensures
        ({
            let t = reminder_text(r);
            let m = misc_text(media_of(r), description_of(r));
            t.len() >= m.len() && t.subrange(t.len() - m.len(), t.len() as int) == m
        }),
        description_of(r) matches Some(d) ==> ({
            let t = reminder_text(r);
            let tail = ", description: "@ + d;
            t.len() >= tail.len() && t.subrange(t.len() - tail.len(), t.len() as int) == tail
        }),
{
    let t = reminder_text(r);
    let m = misc_text(media_of(r), description_of(r));
    let p = t.subrange(0, t.len() - m.len());
    assert(t =~= p + m);
    assert(t.subrange(t.len() - m.len(), t.len() as int) =~= m);
    if let Some(d) = description_of(r) {
        let tail = ", description: "@ + d;
        assert(m.subrange(m.len() - tail.len(), m.len() as int) =~= tail);
        assert(t.subrange(t.len() - tail.len(), t.len() as int) =~= tail);
    }
}

/// The first `n` lines of a listing stay as they are when a reminder is
/// added after the others.
proof fn lemma_lines_of_prefix(rs: Seq<ReminderView>, r: ReminderView, n: int)
    requires
        0 <= n <= rs.len(),
    ensures
        reminder_lines(rs.push(r), n) == reminder_lines(rs, n),
    decreases n,
{
    if n > 0 {
        lemma_lines_of_prefix(rs, r, n - 1);
    }
}

/// Adding a reminder adds one line at the end of the listing of the
/// reminders, numbered with its position (the one by which showing or
/// deleting it finds it), and leaves the lines before it as they were.
pub proof fn law_added_reminder_is_listed_last(o: ApifsObjectView, r: ReminderView)
    ensures
        ({
            let n = o.reminders.len() as int;
            let line = decimal(n as nat) + ": "@ + reminder_text(r) + "\n"@;
            let notes = note_lines(o.notes, o.notes.len() as int);
            &&& reminder_lines(reminded(o, r).reminders, n + 1) == reminder_lines(o.reminders, n) + line
            &&& object_text(reminded(o, r)) == "Reminders:\n"@ + reminder_lines(o.reminders, n) + line
                + notes
            &&& shown_text(reminded(o, r)) == "Reminders:\n"@ + reminder_lines(o.reminders, n) + line
                + "\nNotes:\n"@ + notes
        }),
        reminder_lines(Seq::<ReminderView>::empty(), 0) == Seq::<char>::empty(),
{
    let n = o.reminders.len() as int;
    lemma_lines_of_prefix(o.reminders, r, n);
    assert(reminded(o, r).reminders[n] == r);
    assert(reminder_lines(Seq::<ReminderView>::empty(), 0) =~= Seq::<char>::empty());
}

/// The settings of a reminder made on the command line come from their
/// options: with no `-p`, `-s` or `--desc` after the type, no picture, sound
/// or description; a first option `-p P` or `-s S` that no later one of its
/// name follows gives picture `P` or sound `S`, whatever options stand
/// after it. For a daily reminder, with no `-d` every weekday is marked,
/// and a first option `-d X` that no later `-d` follows marks the weekdays
/// that `X` names.
pub proof fn law_settings_come_from_their_options(args: Seq<Seq<char>>, today: Date)
    requires
        options_outcome(args, today) matches Ok(CommandView::Remind(_)),
    ensures
        ({
            let r = options_outcome(args, today)->Ok_0->Remind_0;
            &&& absent_from(args, 3, "-p"@) ==> media_of(r).picture == None::<Seq<char>>
            &&& absent_from(args, 3, "-s"@) ==> media_of(r).sound == None::<Seq<char>>
            &&& absent_from(args, 3, "--desc"@) ==> description_of(r) == None::<Seq<char>>
            &&& args.len() > 4 && args[3] == "-p"@ && absent_from(args, 5, "-p"@)
                ==> media_of(r).picture == Some(args[4])
            &&& args.len() > 4 && args[3] == "-s"@ && absent_from(args, 5, "-s"@)
                ==> media_of(r).sound == Some(args[4])
            &&& r is Daily && absent_from(args, 3, "-d"@) ==> r->Daily_1 == Seq::new(7, |j: int| true)
            &&& r is Daily && args.len() > 4 && args[3] == "-d"@ && absent_from(args, 5, "-d"@)
                ==> r->Daily_1 == days_from(args[4])
        }),
{
    let rd = named_readings(args);
    let st = initial_state();
    let kind = if args[2] == "once"@ {
        NotifyKind::Once
    } else if args[2] == "daily"@ {
        NotifyKind::Daily
    } else {
        NotifyKind::Interval
    };
    assert(notify_from(args, rd, kind, 3, st) is Ok);
    law_settings_change_only_by_their_options(args, rd, kind, 3, st);
    if args.len() > 4 {
        law_option_sets_its_setting(args, rd, kind, 3, st);
        if args[3] == "-p"@ {
            law_settings_change_only_by_their_options(
                args,
                rd,
                kind,
                5,
                NotifyState { picture: Some(args[4]), ..st },
            );
        }
        if args[3] == "-s"@ {
            law_settings_change_only_by_their_options(
                args,
                rd,
                kind,
                5,
                NotifyState { sound: Some(args[4]), ..st },
            );
        }
        if args[3] == "-d"@ && kind == NotifyKind::Daily {
            law_settings_change_only_by_their_options(
                args,
                rd,
                kind,
                5,
                NotifyState { days: days_from(args[4]), ..st },
            );
        }
    }
}

} // verus!
