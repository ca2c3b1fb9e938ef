//! The commands that the program carries out.
pub mod delete;
pub mod help;
pub mod remind;
pub mod show;
pub mod start;
pub mod stop;
pub mod write_note;

use vstd::prelude::*;
use crate::note::{Note, NoteView};
use crate::reminder::{Reminder, ReminderView};

verus! {

/// What is to be shown or deleted.
#[derive(Clone, Debug, PartialEq)]
pub enum Data {
    All,
    Reminder(usize),
    Note(String),
}

/// `Data` as values.
pub enum DataView {
    All,
    Reminder(usize),
    Note(Seq<char>),
}

impl View for Data {
    type V = DataView;

    open spec fn view(&self) -> DataView {
        match self {
            Data::All => DataView::All,
            Data::Reminder(id) => DataView::Reminder(*id),
            Data::Note(name) => DataView::Note(name@),
        }
    }
}

/// A command read from the command line.
#[derive(Clone, Debug, PartialEq)]
pub enum Command {
    Remind(Reminder),
    Note(Note),
    Start,
    Stop,
    Help,
    AddSound(String, String),
    AddPicture(String, String),
    Delete(String),
    Show(Data),
    NoCommand,
}

/// `Command` as values.
pub enum CommandView {
    Remind(ReminderView),
    Note(NoteView),
    Start,
    Stop,
    Help,
    AddSound(Seq<char>, Seq<char>),
    AddPicture(Seq<char>, Seq<char>),
    Delete(Seq<char>),
    Show(DataView),
    NoCommand,
}

impl View for Command {
    type V = CommandView;

    open spec fn view(&self) -> CommandView {
        match self {
            Command::Remind(r) => CommandView::Remind(r@),
            Command::Note(n) => CommandView::Note(n@),
            Command::Start => CommandView::Start,
            Command::Stop => CommandView::Stop,
            Command::Help => CommandView::Help,
            Command::AddSound(a, b) => CommandView::AddSound(a@, b@),
            Command::AddPicture(a, b) => CommandView::AddPicture(a@, b@),
            Command::Delete(a) => CommandView::Delete(a@),
            Command::Show(d) => CommandView::Show(d@),
            Command::NoCommand => CommandView::NoCommand,
        }
    }
}

/// The view of a result, taken on both sides.
pub open spec fn result_view<T: View, E: View>(r: Result<T, E>) -> Result<T::V, E::V> {
    match r {
        Ok(t) => Ok(t@),
        Err(e) => Err(e@),
    }
}

} // verus!
