//! Adding a note.
use vstd::prelude::*;
use crate::apifs_object::ApifsObject;
use crate::note::Note;

verus! {

/// The command that stores a new note.
pub struct WriteNote {
    pub note: Note,
}

impl WriteNote {
    pub fn new(note: Note) -> (r: Self)
        ensures
            r.note == note,
    {
        WriteNote { note }
    }

    /// Adds the note after the stored ones.
    pub fn apply(self, data: &mut ApifsObject)
        ensures
            final(data).notes@ == old(data).notes@.push(self.note),
            final(data).reminders@ == old(data).reminders@,
    {
        data.notes.push(self.note);
    }
}

} // verus!
