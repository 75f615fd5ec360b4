//! The application shell: the list of notes, which of them is selected, and
//! the transitions that the controls of the window trigger.

use crate::note::{Note, NoteView};
use crate::timestamp::{now, utc_string, utc_text, Instant, Timestamp};
use vstd::prelude::*;

verus! {

/// How reading the saved notes ended.
#[derive(Debug)]
pub enum Loaded {
    /// There is no file.
    Missing,
    /// There is a file, and it could not be read.
    Unreadable,
    /// The file was read, and what it holds is no list of notes.
    Malformed,
    /// The notes that the file holds, in its order.
    Notes(Vec<Note>),
}

/// What a control of the window asks for.
#[derive(Debug)]
pub enum Event {
    /// The "+" control.
    Add,
    /// The "-" control.
    Remove,
    /// A click on the row with the given index.
    Select(usize),
    /// The title field now holds the given text.
    EditTitle(String),
    /// The content field now holds the given text.
    EditContent(String),
}

/// An event as contracts speak of it.
pub enum EventView {
    Add,
    Remove,
    Select(int),
    EditTitle(Seq<char>),
    EditContent(Seq<char>),
}

impl View for Event {
    type V = EventView;

    open spec fn view(&self) -> EventView {
        match *self {
            Event::Add => EventView::Add,
            Event::Remove => EventView::Remove,
            Event::Select(j) => EventView::Select(j as int),
            Event::EditTitle(text) => EventView::EditTitle(text@),
            Event::EditContent(text) => EventView::EditContent(text@),
        }
    }
}

/// The notes of a list, each as contracts speak of it.
pub open spec fn views(notes: Seq<Note>) -> Seq<NoteView> {
    notes.map_values(|note: Note| note@)
}

/// The state of the shell as contracts speak of it: the notes in the order
/// in which they are shown and saved, and the index of the selected one.
pub struct ShellView {
    pub notes: Seq<NoteView>,
    pub selected: Option<int>,
}

impl ShellView {
    /// The selection, if there is one, is an index into the notes.
    pub open spec fn wf(self) -> bool {
        self.selected matches Some(i) ==> 0 <= i < self.notes.len()
    }

    /// The state in which the program starts: the loaded notes, or none where
    /// no list of notes was loaded, and nothing selected.
    pub open spec fn start(loaded: Loaded) -> ShellView {
        ShellView {
            notes: match loaded {
                Loaded::Notes(notes) => views(notes@),
                _ => Seq::empty(),
            },
            selected: None,
        }
    }

    /// Add: a fresh note goes to the end of the list and is selected.
    pub open spec fn add(self, now: Instant) -> ShellView {
        ShellView {
            notes: self.notes.push(NoteView::fresh(now)),
            selected: Some(self.notes.len() as int),
        }
    }

    /// Remove: the selected note leaves the list and nothing is selected.
    /// With nothing selected, nothing changes.
    pub open spec fn remove(self) -> ShellView {
        match self.selected {
            Some(i) => ShellView { notes: self.notes.remove(i), selected: None },
            None => self,
        }
    }

    /// Select: the note that was selected, if any, is stamped with `now`,
    /// and the note at `j` is selected. Where the list has no row `j`,
    /// nothing changes.
    pub open spec fn select(self, j: int, now: Instant) -> ShellView {
        if 0 <= j < self.notes.len() {
            ShellView {
                notes: match self.selected {
                    Some(i) => self.notes.update(i, self.notes[i].touched(now)),
                    None => self.notes,
                },
                selected: Some(j),
            }
        } else {
            self
        }
    }

    /// Edit title: the selected note gets the title `text`. Its timestamp
    /// stays. With nothing selected, nothing changes.
    pub open spec fn edit_title(self, text: Seq<char>) -> ShellView {
        match self.selected {
            Some(i) => ShellView {
                notes: self.notes.update(i, self.notes[i].retitled(text)),
                ..self
            },
            None => self,
        }
    }

    /// Edit content: the selected note gets the content `text`. Its timestamp
    /// stays. With nothing selected, nothing changes.
    pub open spec fn edit_content(self, text: Seq<char>) -> ShellView {
        match self.selected {
            Some(i) => ShellView {
                notes: self.notes.update(i, self.notes[i].rewritten(text)),
                ..self
            },
            None => self,
        }
    }

    /// The state after `event`, where the clock reads `now`.
    pub open spec fn step(self, event: EventView, now: Instant) -> ShellView {
        match event {
            EventView::Add => self.add(now),
            EventView::Remove => self.remove(),
            EventView::Select(j) => self.select(j, now),
            EventView::EditTitle(text) => self.edit_title(text),
            EventView::EditContent(text) => self.edit_content(text),
        }
    }

    /// The heading of the central panel: the time at which the selected note
    /// was last left, or a line that says that no note is selected.
    pub open spec fn heading(self) -> Seq<char> {
        match self.selected {
            Some(i) => utc_text(
                self.notes[i].last_modified.secs,
                self.notes[i].last_modified.nanos,
            ),
            None => "No note selected"@,
        }
    }

    /// The rows of the side panel: the title of every note, in order.
    pub open spec fn titles(self) -> Seq<Seq<char>> {
        self.notes.map_values(|note: NoteView| note.title)
    }
}

/// Adding a note makes the list one longer: the notes that were there keep
/// their places, the fresh note stands at the end, and it is the selected one.
pub proof fn lemma_add_appends_and_selects(before: ShellView, now: Instant)
    ensures
        before.add(now).notes.len() == before.notes.len() + 1,
        before.add(now).notes.drop_last() == before.notes,
        before.add(now).notes.last() == NoteView::fresh(now),
        before.add(now).selected == Some(before.notes.len() as int),
        before.add(now).wf(),
{
    assert(before.add(now).notes.drop_last() =~= before.notes);
}

/// Removing the selected note makes the list one shorter and leaves nothing
/// selected: the notes before it keep their places, and those after it move
/// up by one.
pub proof fn lemma_remove_shortens_and_deselects(before: ShellView, i: int)
    requires
        before.wf(),
        before.selected == Some(i),
    ensures
        before.remove().notes.len() == before.notes.len() - 1,
        before.remove().selected is None,
        forall|k: int| 0 <= k < i ==> before.remove().notes[k] == before.notes[k],
        forall|k: int|
            i <= k < before.notes.len() - 1 ==> before.remove().notes[k] == before.notes[k + 1],
        before.remove().wf(),
{
}

/// Selecting the note at `b` while another note, at `a`, is selected, at a
/// time that is not before the time at which the note at `a` was last left:
/// the note at `a` is stamped with that time, which is not before its earlier
/// stamp; the note at `b` is as it was, and it is the selected one.
pub proof fn lemma_select_stamps_the_note_left(before: ShellView, a: int, b: int, now: Instant)
    requires
        before.wf(),
        before.selected == Some(a),
        0 <= b < before.notes.len(),
        a != b,
        before.notes[a].last_modified.at_or_before(now),
    ensures
        before.select(b, now).notes.len() == before.notes.len(),
        before.select(b, now).notes[a] == before.notes[a].touched(now),
        before.notes[a].last_modified.at_or_before(before.select(b, now).notes[a].last_modified),
        before.select(b, now).notes[b] == before.notes[b],
        before.select(b, now).selected == Some(b),
{
}

/// An edit changes the text it is for, in the selected note, and nothing
/// else: no timestamp, no other note, not the selection.
pub proof fn lemma_edits_keep_timestamps(before: ShellView, text: Seq<char>, k: int)
    requires
        before.wf(),
        0 <= k < before.notes.len(),
    ensures
        before.edit_title(text).notes.len() == before.notes.len(),
        before.edit_content(text).notes.len() == before.notes.len(),
        before.edit_title(text).notes[k].last_modified == before.notes[k].last_modified,
        before.edit_content(text).notes[k].last_modified == before.notes[k].last_modified,
        before.edit_title(text).notes[k].content == before.notes[k].content,
        before.edit_content(text).notes[k].title == before.notes[k].title,
        before.selected != Some(k) ==> before.edit_title(text).notes[k] == before.notes[k],
        before.selected != Some(k) ==> before.edit_content(text).notes[k] == before.notes[k],
        before.edit_title(text).selected == before.selected,
        before.edit_content(text).selected == before.selected,
{
}

/// Whatever the event and the time, the selection stays an index into the
/// list, or absent.
pub proof fn lemma_step_preserves_wf(before: ShellView, event: EventView, now: Instant)
    requires
        before.wf(),
    ensures
        before.step(event, now).wf(),
{
}

/// The list of notes and the selection.
#[derive(Debug)]
pub struct HorebApp {
    selected_index: Option<usize>,
    notes: Vec<Note>,
}

impl View for HorebApp {
    type V = ShellView;

    closed spec fn view(&self) -> ShellView {
        ShellView {
            notes: views(self.notes@),
            selected: match self.selected_index {
                Some(i) => Some(i as int),
                None => None,
            },
        }
    }
}

impl Default for HorebApp {
    /// No notes, nothing selected.
    fn default() -> (app: HorebApp)
        ensures
            app@ == (ShellView { notes: Seq::empty(), selected: None }),
    {
        let app = HorebApp { selected_index: None, notes: Vec::new() };
        assert(app@.notes =~= Seq::empty());
        app
    }
}

impl HorebApp {
    #[verifier::type_invariant]
    spec fn inv(self) -> bool {
        self.selected_index matches Some(i) ==> i < self.notes.len()
    }

    /// The shell as the program starts it, from what loading the saved notes
    /// gave. Whatever kept a list of notes from being loaded, the program
    /// starts with none.
    pub fn new(loaded: Loaded) -> (app: HorebApp)
        ensures
            app@ == ShellView::start(loaded),
            app@.wf(),
    {
        match loaded {
            Loaded::Notes(notes) => HorebApp { selected_index: None, notes },
            _ => HorebApp::default(),
        }
    }

    /// The notes, in order.
    pub fn notes(&self) -> (notes: &Vec<Note>)
        ensures
            views(notes@) == self@.notes,
    {
        &self.notes
    }

    /// The index of the selected note.
    pub fn selected_index(&self) -> (selected: Option<usize>)
        ensures
            self@.wf(),
            match selected {
                Some(i) => self@.selected == Some(i as int),
                None => self@.selected is None,
            },
    {
        proof {
            use_type_invariant(self);
        }
        self.selected_index
    }

    /// The selected note.
    pub fn selected_note(&self) -> (note: Option<&Note>)
        ensures
            match note {
                Some(note) => self@.selected is Some && note@ == self@.notes[self@.selected->0],
                None => self@.selected is None,
            },
    {
        proof {
            use_type_invariant(self);
        }
        match self.selected_index {
            Some(i) => Some(&self.notes[i]),
            None => None,
        }
    }

    /// Add, at the time that the system clock gives.
    pub fn add(&mut self)
        ensures
            exists|now: Instant|
                now.representable() && final(self)@ == #[trigger] old(self)@.add(now),
            final(self)@.wf(),
    {
        let note = Note::new();
        let ghost now = note@.last_modified;
        self.push_selected(note);
        assert(final(self)@ == old(self)@.add(now));
    }

    /// Add, at the time `now`.
    pub fn add_at(&mut self, now: Timestamp)
        ensures
            final(self)@ == old(self)@.add(now@),
            final(self)@.wf(),
    {
        self.push_selected(Note::created_at(now));
    }

    /// Puts `note` at the end of the list and selects it.
    fn push_selected(&mut self, note: Note)
        ensures
            final(self)@ == (ShellView {
                notes: old(self)@.notes.push(note@),
                selected: Some(old(self)@.notes.len() as int),
            }),
            final(self)@.wf(),
    {
        let mut notes = self.take_notes();
        notes.push(note);
        let last = notes.len() - 1;
        self.put_notes(notes, Some(last));
        assert(self@.notes =~= old(self)@.notes.push(note@));
    }

    /// Hands out the list, and leaves an empty one with nothing selected.
    fn take_notes(&mut self) -> (notes: Vec<Note>)
        ensures
            notes == old(self).notes,
            final(self).notes@.len() == 0,
            final(self).selected_index is None,
    {
        self.selected_index = None;
        let mut notes = Vec::new();
        std::mem::swap(&mut notes, &mut self.notes);
        notes
    }

    /// Takes `notes` as the list, with the given selection.
    fn put_notes(&mut self, notes: Vec<Note>, selected_index: Option<usize>)
        requires
            selected_index matches Some(i) ==> i < notes.len(),
        ensures
            final(self).notes == notes,
            final(self).selected_index == selected_index,
    {
        self.selected_index = None;
        self.notes = notes;
        self.selected_index = selected_index;
    }

    /// Remove.
    pub fn remove(&mut self)
        ensures
            final(self)@ == old(self)@.remove(),
            final(self)@.wf(),
    {
        proof {
            use_type_invariant(&*self);
        }
        if let Some(i) = self.selected_index {
            let mut notes = self.take_notes();
            let _ = notes.remove(i);
            self.put_notes(notes, None);
            assert(self@.notes =~= old(self)@.notes.remove(i as int));
        }
    }

    /// Select, at the time that the system clock gives. The clock is read
    /// only where a note is stamped.
    pub fn select(&mut self, j: usize)
        ensures
            exists|now: Instant|
                now.representable() && final(self)@ == #[trigger] old(self)@.select(
                    j as int,
                    now,
                ),
            final(self)@.wf(),
    {
        proof {
            use_type_invariant(&*self);
        }
        if j < self.notes.len() {
            match self.selected_index {
                Some(_) => {
                    let now = now();
                    self.select_at(j, now);
                    assert(final(self)@ == old(self)@.select(j as int, now@));
                },
                None => {
                    self.selected_index = Some(j);
                    let ghost epoch = Instant { secs: 0, nanos: 0 };
                    assert(final(self)@ == old(self)@.select(j as int, epoch));
                },
            }
        } else {
            let ghost epoch = Instant { secs: 0, nanos: 0 };
            assert(final(self)@ == old(self)@.select(j as int, epoch));
        }
    }

    /// Select, at the time `now`.
    pub fn select_at(&mut self, j: usize, now: Timestamp)
        ensures
            final(self)@ == old(self)@.select(j as int, now@),
            final(self)@.wf(),
    {
        proof {
            use_type_invariant(&*self);
        }
        if j < self.notes.len() {
            if let Some(i) = self.selected_index {
                let mut notes = self.take_notes();
                notes[i].touch(now);
                self.put_notes(notes, Some(j));
                assert(self@.notes =~= old(self)@.notes.update(
                    i as int,
                    old(self)@.notes[i as int].touched(now@),
                ));
            } else {
                self.selected_index = Some(j);
            }
        }
    }

    /// Edit title.
    pub fn edit_title(&mut self, text: String)
        ensures
            final(self)@ == old(self)@.edit_title(text@),
            final(self)@.wf(),
    {
        proof {
            use_type_invariant(&*self);
        }
        if let Some(i) = self.selected_index {
            let mut notes = self.take_notes();
            notes[i].set_title(text);
            self.put_notes(notes, Some(i));
            assert(self@.notes =~= old(self)@.notes.update(
                i as int,
                old(self)@.notes[i as int].retitled(text@),
            ));
        }
    }

    /// Edit content.
    pub fn edit_content(&mut self, text: String)
        ensures
            final(self)@ == old(self)@.edit_content(text@),
            final(self)@.wf(),
    {
        proof {
            use_type_invariant(&*self);
        }
        if let Some(i) = self.selected_index {
            let mut notes = self.take_notes();
            notes[i].set_content(text);
            self.put_notes(notes, Some(i));
            assert(self@.notes =~= old(self)@.notes.update(
                i as int,
                old(self)@.notes[i as int].rewritten(text@),
            ));
        }
    }

    /// Applies `event`, at the time that the system clock gives where the
    /// event needs one.
    pub fn update(&mut self, event: Event)
        ensures
            exists|now: Instant|
                now.representable() && final(self)@ == #[trigger] old(self)@.step(event@, now),
            final(self)@.wf(),
    {
        let ghost epoch = Instant { secs: 0, nanos: 0 };
        match event {
            Event::Add => {
                self.add();
                let ghost now = choose|now: Instant|
                    now.representable() && final(self)@ == #[trigger] old(self)@.add(now);
                assert(final(self)@ == old(self)@.step(event@, now));
            },
            Event::Remove => {
                self.remove();
                assert(final(self)@ == old(self)@.step(event@, epoch));
            },
            Event::Select(j) => {
                self.select(j);
                let ghost now = choose|now: Instant|
                    now.representable() && final(self)@ == #[trigger] old(self)@.select(
                        j as int,
                        now,
                    );
                assert(final(self)@ == old(self)@.step(event@, now));
            },
            Event::EditTitle(text) => {
                self.edit_title(text);
                assert(final(self)@ == old(self)@.step(event@, epoch));
            },
            Event::EditContent(text) => {
                self.edit_content(text);
                assert(final(self)@ == old(self)@.step(event@, epoch));
            },
        }
    }

    /// Applies `event`, at the time `now`.
    pub fn update_at(&mut self, event: Event, now: Timestamp)
        ensures
            final(self)@ == old(self)@.step(event@, now@),
            final(self)@.wf(),
    {
        match event {
            Event::Add => self.add_at(now),
            Event::Remove => self.remove(),
            Event::Select(j) => self.select_at(j, now),
            Event::EditTitle(text) => self.edit_title(text),
            Event::EditContent(text) => self.edit_content(text),
        }
    }

    /// The rows of the side panel.
    pub fn titles(&self) -> (rows: Vec<String>)
        ensures
            rows@.map_values(|row: String| row@) == self@.titles(),
    {
        let mut rows: Vec<String> = Vec::new();
        let mut i: usize = 0;
        while i < self.notes.len()
            invariant
                i <= self.notes.len(),
                rows@.len() == i,
                forall|k: int| 0 <= k < i ==> rows@[k]@ == self.notes@[k]@.title,
            decreases self.notes.len() - i,
        {
            rows.push(self.notes[i].title().clone());
            i += 1;
        }
        assert(rows@.map_values(|row: String| row@) =~= self@.titles());
        rows
    }

    /// The heading of the central panel.
    pub fn heading(&self) -> (text: String)
        ensures
            text@ == self@.heading(),
    {
        proof {
            use_type_invariant(self);
        }
        match self.selected_index {
            Some(i) => utc_string(self.notes[i].last_modified()),
            None => "No note selected".to_owned(),
        }
    }
}

} // verus!
