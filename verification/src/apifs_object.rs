//! Everything that the program stores: its reminders and its notes.
use vstd::prelude::*;
use crate::note::{Note, NoteView};
use crate::reminder::{Reminder, ReminderView, reminder_text};
use crate::text::{decimal, decimal_text};

verus! {

/// The stored reminders and notes.
#[derive(Clone, Debug, PartialEq)]
pub struct ApifsObject {
    pub reminders: Vec<Reminder>,
    pub notes: Vec<Note>,
}

/// The views of a sequence of reminders.
pub open spec fn reminder_views(s: Seq<Reminder>) -> Seq<ReminderView> {
    s.map_values(|r: Reminder| r@)
}

/// The views of a sequence of notes.
pub open spec fn note_views(s: Seq<Note>) -> Seq<NoteView> {
    s.map_values(|n: Note| n@)
}

/// The stored data as values.
pub struct ApifsObjectView {
    pub reminders: Seq<ReminderView>,
    pub notes: Seq<NoteView>,
}

impl View for ApifsObject {
    type V = ApifsObjectView;

    open spec fn view(&self) -> ApifsObjectView {
        ApifsObjectView { reminders: reminder_views(self.reminders@), notes: note_views(self.notes@) }
    }
}

impl ApifsObjectView {
    /// Every reminder lies in chrono's range.
    pub open spec fn wf(self) -> bool {
        forall|i: int| 0 <= i < self.reminders.len() ==> (#[trigger] self.reminders[i]).wf()
    }
}

impl ApifsObject {
    pub open spec fn wf(&self) -> bool {
        self@.wf()
    }
}

impl Default for ApifsObject {
    /// No reminders and no notes.
    fn default() -> (r: ApifsObject)
        ensures
            r.reminders@.len() == 0,
            r.notes@.len() == 0,
    {
        ApifsObject { reminders: Vec::new(), notes: Vec::new() }
    }
}

/// How a note reads: its name, a colon, and its text.
pub open spec fn note_text(n: NoteView) -> Seq<char> {
    n.name + ": "@ + n.text
}

/// Lines `0` to `n - 1` of the reminder listing: each the reminder's
/// position, a colon and the reminder's text.
pub open spec fn reminder_lines(rs: Seq<ReminderView>, n: int) -> Seq<char>
    decreases n,
{
    if n <= 0 {
        seq![]
    } else {
        reminder_lines(rs, n - 1) + decimal((n - 1) as nat) + ": "@ + reminder_text(rs[n - 1])
            + "\n"@
    }
}

/// Lines `0` to `n - 1` of the note listing.
pub open spec fn note_lines(ns: Seq<NoteView>, n: int) -> Seq<char>
    decreases n,
{
    if n <= 0 {
        seq![]
    } else {
        note_lines(ns, n - 1) + note_text(ns[n - 1]) + "\n"@
    }
}

/// How all the stored data reads: the heading of the reminders, the
/// reminders numbered, then the notes.
pub open spec fn object_text(o: ApifsObjectView) -> Seq<char> {
    "Reminders:\n"@ + reminder_lines(o.reminders, o.reminders.len() as int) + note_lines(
        o.notes,
        o.notes.len() as int,
    )
}

/// What showing all the stored data puts on the screen: the reminders as
/// in `object_text`, then a heading of the notes after an empty line, then
/// the notes.
pub open spec fn shown_text(o: ApifsObjectView) -> Seq<char> {
    "Reminders:\n"@ + reminder_lines(o.reminders, o.reminders.len() as int) + "\nNotes:\n"@
        + note_lines(o.notes, o.notes.len() as int)
}

impl Note {
    /// The text of this note, as it is shown.
    pub fn text(&self) -> (r: String)
        ensures
            r@ == note_text(self@),
    {
        let mut s = self.name.clone();
        s.append(": ");
        s.append(self.text.as_str());
        s
    }
}

impl ApifsObject {
    /// Appends the heading of the reminders and the reminders, numbered.
    fn append_reminders(&self, s: &mut String)
        requires
            self.wf(),
        ensures
            final(s)@ == old(s)@ + "Reminders:\n"@ + reminder_lines(
                self@.reminders,
                self@.reminders.len() as int,
            ),
    {
        s.append("Reminders:\n");
        let ghost head = s@;
        let mut i: usize = 0;
        while i < self.reminders.len()
            invariant
                i <= self.reminders.len(),
                self.wf(),
                s@ == head + reminder_lines(self@.reminders, i as int),
            decreases self.reminders.len() - i,
        {
            assert(self@.reminders[i as int] == self.reminders@[i as int]@);
            assert(self@.reminders[i as int].wf());
            s.append(decimal_text(i as u64).as_str());
            s.append(": ");
            s.append(self.reminders[i].text().as_str());
            s.append("\n");
            assert(s@ =~= head + reminder_lines(self@.reminders, i + 1));
            i = i + 1;
        }
        assert(s@ =~= old(s)@ + "Reminders:\n"@ + reminder_lines(
            self@.reminders,
            self@.reminders.len() as int,
        ));
    }

    /// Appends the notes, one to a line.
    fn append_notes(&self, s: &mut String)
        ensures
            final(s)@ == old(s)@ + note_lines(self@.notes, self@.notes.len() as int),
    {
        let ghost head = s@;
        let mut j: usize = 0;
        while j < self.notes.len()
            invariant
                j <= self.notes.len(),
                s@ == head + note_lines(self@.notes, j as int),
            decreases self.notes.len() - j,
        {
            s.append(self.notes[j].text().as_str());
            s.append("\n");
            assert(s@ =~= head + note_lines(self@.notes, j + 1));
            j = j + 1;
        }
    }

    /// The text of all reminders, numbered, and of all notes.
    pub fn text(&self) -> (r: String)
        requires
            self.wf(),
        ensures
            r@ == object_text(self@),
    {
        let mut s = String::new();
        self.append_reminders(&mut s);
        self.append_notes(&mut s);
        assert(s@ =~= object_text(self@));
        s
    }

    /// What showing all the stored data puts on the screen.
    pub fn shown_text(&self) -> (r: String)
        requires
            self.wf(),
        ensures
            r@ == shown_text(self@),
    {
        let mut s = String::new();
        self.append_reminders(&mut s);
        s.append("\nNotes:\n");
        self.append_notes(&mut s);
        assert(s@ =~= shown_text(self@));
        s
    }
}

} // verus!
