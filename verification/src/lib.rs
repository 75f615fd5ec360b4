//! The note list of a small note-taking program: notes with a title, a content
//! and the time they were last left, the list that holds them together with the
//! selection, and the transitions that the program's controls trigger.

pub mod note;
pub mod shell;
pub mod timestamp;
