use vstd::prelude::*;

verus! {

/// The picture and the sound that go with a reminder.
#[derive(Clone, Debug, PartialEq)]
pub struct Media {
    pub picture: Option<String>,
    pub sound: Option<String>,
}

/// A media record as values.
pub struct MediaView {
    pub picture: Option<Seq<char>>,
    pub sound: Option<Seq<char>>,
}

/// The view of an optional string.
pub open spec fn opt_view(s: Option<String>) -> Option<Seq<char>> {
    match s {
        Some(t) => Some(t@),
        None => None,
    }
}

impl View for Media {
    type V = MediaView;

    open spec fn view(&self) -> MediaView {
        MediaView { picture: opt_view(self.picture), sound: opt_view(self.sound) }
    }
}

} // verus!
