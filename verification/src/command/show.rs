//! Showing stored data.
use vstd::prelude::*;
use crate::apifs_object::{ApifsObject, note_text, shown_text};
use crate::command::{Data, DataView};
use crate::exit_codes::ExitCode;
use crate::note::Note;
use crate::reminder::reminder_text;
use crate::text::str_eq;

verus! {

/// Whether `i` is the position of the first note named `name`.
pub open spec fn first_named(notes: Seq<Note>, name: Seq<char>, i: int) -> bool {
    &&& 0 <= i < notes.len()
    &&& notes[i].name@ == name
    &&& forall|j: int| 0 <= j < i ==> (#[trigger] notes[j]).name@ != name
}

/// The command that shows stored data.
pub struct Show {
    pub data_to_show: Data,
}

/// Whether `t` is the text of the first note named `name`.
pub open spec fn shows_note(notes: Seq<Note>, name: Seq<char>, t: Seq<char>) -> bool {
    exists|i: int| #[trigger] first_named(notes, name, i) && t == note_text(notes[i]@)
}

impl Show {
    pub fn new(data_to_show: Data) -> (r: Self)
        ensures
            r.data_to_show == data_to_show,
    {
        Show { data_to_show }
    }

    /// The text to show: all data, the reminder at the given position, or
    /// the first note with the given name.
    pub fn select(&self, data: &ApifsObject) -> (r: Result<String, ExitCode>)
        requires
            data.wf(),
        ensures
            match self.data_to_show@ {
                DataView::All => r matches Ok(t) && t@ == shown_text(data@),
                DataView::Reminder(id) => if id < data.reminders.len() {
                    r matches Ok(t) && t@ == reminder_text(data@.reminders[id as int])
                } else {
                    r == Err::<String, ExitCode>(ExitCode::ResourceNotFound)
                },
                DataView::Note(name) => match r {
                    Ok(t) => shows_note(data.notes@, name, t@),
                    Err(e) => e == ExitCode::ResourceNotFound && forall|i: int|
                        0 <= i < data.notes.len() ==> (#[trigger] data.notes@[i]).name@ != name,
                },
            },
    {
        match &self.data_to_show {
            Data::All => Ok(data.shown_text()),
            Data::Reminder(id) => {
                if *id < data.reminders.len() {
                    assert(data@.reminders[*id as int] == data.reminders@[*id as int]@);
                    assert(data@.reminders[*id as int].wf());
                    Ok(data.reminders[*id].text())
                } else {
                    Err(ExitCode::ResourceNotFound)
                }
            },
            Data::Note(name) => {
                let mut i: usize = 0;
                while i < data.notes.len()
                    invariant
                        i <= data.notes.len(),
                        self.data_to_show@ == DataView::Note(name@),
                        forall|j: int| 0 <= j < i ==> (#[trigger] data.notes@[j]).name@ != name@,
                    decreases data.notes.len() - i,
                {
                    if str_eq(data.notes[i].name.as_str(), name.as_str()) {
                        let t = data.notes[i].text();
                        assert(first_named(data.notes@, name@, i as int));
                        assert(shows_note(data.notes@, name@, t@));
                        return Ok(t);
                    }
                    i = i + 1;
                }
                Err(ExitCode::ResourceNotFound)
            },
        }
    }
}

} // verus!
