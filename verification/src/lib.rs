//! apifs: reminders and notes from the command line.
//!
//! The library holds the logic of the program: the command-line grammar,
//! the model of reminders and their schedule, the decisions of the reminder
//! server, and the edits that commands make to the stored data.

pub mod apifs_object;
pub mod command;
pub mod exit_codes;
pub mod grammar;
pub mod laws;
pub mod media;
pub mod note;
pub mod options;
pub mod reminder;
pub mod server;
pub mod text;
pub mod time;
