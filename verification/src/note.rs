//! A note: a title, a content, and the time it was last left.

use crate::timestamp::{now, Instant, Timestamp};
use vstd::prelude::*;

verus! {

/// A note as contracts speak of it.
pub struct NoteView {
    pub title: Seq<char>,
    pub content: Seq<char>,
    pub last_modified: Instant,
}

impl NoteView {
    /// The note that is made at `now`: titled "New note", with nothing in it.
    pub open spec fn fresh(now: Instant) -> NoteView {
        NoteView { title: "New note"@, content: Seq::empty(), last_modified: now }
    }

    /// This note with `now` as the time it was last left.
    pub open spec fn touched(self, now: Instant) -> NoteView {
        NoteView { last_modified: now, ..self }
    }

    /// This note under another title.
    pub open spec fn retitled(self, title: Seq<char>) -> NoteView {
        NoteView { title, ..self }
    }

    /// This note with another content.
    pub open spec fn rewritten(self, content: Seq<char>) -> NoteView {
        NoteView { content, ..self }
    }
}

/// A title, a content and a timestamp. A note has no identity but its place
/// in the list that holds it, and two notes may share a title.
#[derive(Clone, Debug, PartialEq, Eq)]
pub struct Note {
    title: String,
    content: String,
    last_modified: Timestamp,
}

impl View for Note {
    type V = NoteView;

    closed spec fn view(&self) -> NoteView {
        NoteView {
            title: self.title@,
            content: self.content@,
            last_modified: self.last_modified@,
        }
    }
}

impl Note {
    /// A fresh note, stamped with the time that the system clock gives.
    pub fn new() -> (note: Note)
        ensures
            note@ == NoteView::fresh(note@.last_modified),
            note@.last_modified.representable(),
    {
        Note::created_at(now())
    }

    /// A fresh note, stamped with `now`.
    pub fn created_at(now: Timestamp) -> (note: Note)
        ensures
            note@ == NoteView::fresh(now@),
    {
        Note { title: "New note".to_owned(), content: String::new(), last_modified: now }
    }

    /// The note with the given title, content and timestamp.
    pub fn from_parts(title: String, content: String, last_modified: Timestamp) -> (note: Note)
        ensures
            note@ == (NoteView {
                title: title@,
                content: content@,
                last_modified: last_modified@,
            }),
    {
        Note { title, content, last_modified }
    }

    pub fn title(&self) -> (r: &String)
        ensures
            r@ == self@.title,
    {
        &self.title
    }

    pub fn content(&self) -> (r: &String)
        ensures
            r@ == self@.content,
    {
        &self.content
    }

    pub fn last_modified(&self) -> (r: Timestamp)
        ensures
            r@ == self@.last_modified,
            r@.representable(),
    {
        proof {
            use_type_invariant(&self.last_modified);
        }
        self.last_modified
    }

    /// Replaces the title. The timestamp stays.
    pub fn set_title(&mut self, title: String)
        ensures
            final(self)@ == old(self)@.retitled(title@),
    {
        self.title = title;
    }

    /// Replaces the content. The timestamp stays.
    pub fn set_content(&mut self, content: String)
        ensures
            final(self)@ == old(self)@.rewritten(content@),
    {
        self.content = content;
    }

    /// Stamps the note with `now`. Title and content stay.
    pub fn touch(&mut self, now: Timestamp)
        ensures
            final(self)@ == old(self)@.touched(now@),
    {
        self.last_modified = now;
    }
}

} // verus!
