use vstd::prelude::*;

verus! {

/// A named note.
#[derive(Clone, Debug, PartialEq)]
pub struct Note {
    pub name: String,
    pub text: String,
}

/// A note as values.
pub struct NoteView {
    pub name: Seq<char>,
    pub text: Seq<char>,
}

impl View for Note {
    type V = NoteView;

    open spec fn view(&self) -> NoteView {
        NoteView { name: self.name@, text: self.text@ }
    }
}

} // verus!
