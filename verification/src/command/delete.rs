//! Deleting a reminder or a note.
use vstd::prelude::*;
use crate::apifs_object::{ApifsObject, ApifsObjectView, reminder_views};
use crate::command::{Data, DataView};
use crate::exit_codes::ExitCode;
use crate::note::Note;
use crate::text::str_eq;

verus! {

/// The command that deletes a reminder or a note.
pub struct Delete {
    pub data_to_delete: Data,
}

/// The stored data without the reminder at position `id`.
pub open spec fn without_reminder(o: ApifsObjectView, id: int) -> ApifsObjectView {
    ApifsObjectView { reminders: o.reminders.remove(id), notes: o.notes }
}

/// Whether a note does not have the name `name`.
pub open spec fn other_name(name: Seq<char>) -> spec_fn(Note) -> bool {
    |n: Note| n.name@ != name
}

pub proof fn lemma_filter_keeps_all(s: Seq<Note>, pred: spec_fn(Note) -> bool)
    requires
        forall|i: int| 0 <= i < s.len() ==> pred(#[trigger] s[i]),
    ensures
        s.filter(pred) == s,
    decreases s.len(),
{
    reveal(Seq::filter);
    if s.len() > 0 {
        lemma_filter_keeps_all(s.drop_last(), pred);
        assert(s.drop_last().push(s.last()) =~= s);
    }
}

impl Delete {
    pub fn new(data_to_delete: Data) -> (r: Self)
        ensures
            r.data_to_delete == data_to_delete,
    {
        Delete { data_to_delete }
    }

    /// Deletes from `data` the reminder at the given position, or the notes
    /// with the given name. A note of that name may only stand last.
    pub fn apply(&self, data: &mut ApifsObject) -> (r: Result<(), ExitCode>)
        requires
            self.data_to_delete matches Data::Note(name) ==> forall|i: int|
                0 <= i < old(data).notes.len() - 1 ==> (#[trigger] old(data).notes@[i]).name@
                    != name@,
        ensures
            match self.data_to_delete@ {
                DataView::Reminder(id) => if id < old(data).reminders.len() {
                    &&& r is Ok
                    &&& final(data).reminders@ == old(data).reminders@.remove(id as int)
                    &&& final(data).notes@ == old(data).notes@
                    &&& final(data)@ == without_reminder(old(data)@, id as int)
                } else {
                    r == Err::<(), ExitCode>(ExitCode::ResourceNotFound) && *final(data) == *old(data)
                },
                DataView::Note(name) => {
                    &&& final(data).reminders@ == old(data).reminders@
                    &&& final(data).notes@ == old(data).notes@.filter(other_name(name))
                    &&& r is Ok <==> exists|i: int|
                        0 <= i < old(data).notes.len() && (#[trigger] old(data).notes@[i]).name@
                            == name
                    &&& r is Err ==> r == Err::<(), ExitCode>(ExitCode::ResourceNotFound)
                },
                DataView::All => r == Err::<(), ExitCode>(ExitCode::WrongArguments) && *final(data) == *old(data),
            },
    {
        match &self.data_to_delete {
            Data::Reminder(id) => {
                if *id < data.reminders.len() {
                    data.reminders.remove(*id);
                    assert(reminder_views(data.reminders@) =~= reminder_views(
                        old(data).reminders@,
                    ).remove(*id as int));
                    Ok(())
                } else {
                    Err(ExitCode::ResourceNotFound)
                }
            },
            Data::Note(name) => {
                let ghost notes = old(data).notes@;
                let n = data.notes.len();
                if n > 0 && str_eq(data.notes[n - 1].name.as_str(), name.as_str()) {
                    proof {
                        lemma_filter_keeps_all(notes.drop_last(), other_name(name@));
                        reveal(Seq::filter);
                    }
                    data.notes.pop();
                    assert(data.notes@ =~= notes.drop_last());
                    Ok(())
                } else {
                    proof {
                        lemma_filter_keeps_all(notes, other_name(name@));
                    }
                    Err(ExitCode::ResourceNotFound)
                }
            },
            Data::All => Err(ExitCode::WrongArguments),
        }
    }
}

} // verus!
