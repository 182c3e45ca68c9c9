//! The note store: notes in display order, the selected note, the search
//! query and the dirty flag.

use crate::clock::current_unix;
use crate::ids::fresh_id;
use crate::ids::is_free;
use crate::note::Note;
use crate::note::NoteView;
use crate::search::filter;
use crate::search::filtered;
use crate::search::row_views;
use crate::search::ListRow;
use crate::text::decimal;
use crate::text::decimal_string;
use vstd::prelude::*;
use vstd::string::*;

verus! {

/// The notes in display order, with the current selection, the search
/// query and a flag that tells whether anything awaits saving.
#[derive(Clone, Debug, PartialEq, Eq)]
pub struct NoteStore {
    pub notes: Vec<Note>,
    pub selected: Option<usize>,
    pub search: String,
    pub dirty: bool,
}

/// The mathematical value of a [`NoteStore`].
pub struct StoreView {
    pub notes: Seq<NoteView>,
    pub selected: Option<int>,
    pub search: Seq<char>,
    pub dirty: bool,
}

/// The values of a sequence of notes, in the same order.
pub open spec fn note_views(notes: Seq<Note>) -> Seq<NoteView> {
    Seq::new(notes.len(), |i: int| notes[i]@)
}

impl View for NoteStore {
    type V = StoreView;

    open spec fn view(&self) -> StoreView {
        StoreView {
            notes: note_views(self.notes@),
            selected: match self.selected {
                Some(index) => Some(index as int),
                None => None,
            },
            search: self.search@,
            dirty: self.dirty,
        }
    }
}

/// The title that the `n`-th added note gets.
pub open spec fn numbered_title(n: nat) -> Seq<char> {
    "Note "@ + decimal(n)
}

/// `at` is the first position of `notes` that holds a note with this id.
pub open spec fn is_first_with_id(notes: Seq<NoteView>, id: u128, at: int) -> bool {
    &&& 0 <= at < notes.len()
    &&& notes[at].id == id
    &&& forall|before: int| 0 <= before < at ==> notes[before].id != id
}

/// The first position of `notes` that holds a note with this id, if any does.
pub open spec fn position_of_id(notes: Seq<NoteView>, id: u128) -> Option<int> {
    if exists|at: int| is_first_with_id(notes, id, at) {
        Some(choose|at: int| is_first_with_id(notes, id, at))
    } else {
        None
    }
}

/// No two notes share an id.
pub open spec fn ids_distinct(notes: Seq<NoteView>) -> bool {
    forall|i: int, j: int|
        0 <= i < notes.len() && 0 <= j < notes.len() && i != j ==> notes[i].id != notes[j].id
}

/// Every note keeps a backup only while it is being edited.
pub open spec fn backups_follow_editing(notes: Seq<NoteView>) -> bool {
    forall|i: int| 0 <= i < notes.len() ==> (#[trigger] notes[i]).wf()
}

/// Where a note taken from `from` lands when it is dropped at `to`: the
/// positions after `from` have moved down by one once it is taken out.
pub open spec fn landing(from: int, to: int) -> int {
    if to > from {
        to - 1
    } else {
        to
    }
}

/// The sequence with the element at `from` taken out and put back at
/// `landing(from, to)`.
pub open spec fn relocated<A>(items: Seq<A>, from: int, to: int) -> Seq<A> {
    items.remove(from).insert(landing(from, to), items[from])
}

impl StoreView {
    /// The selection, where there is one, points at a note of the store.
    pub open spec fn wf(self) -> bool {
        self.selected matches Some(index) ==> 0 <= index < self.notes.len()
    }

    /// The selection points at a note of the store.
    pub open spec fn has_selection(self) -> bool {
        self.selected matches Some(index) && 0 <= index < self.notes.len()
    }

    /// The store that holds `notes` right after loading.
    pub open spec fn opened(notes: Seq<NoteView>) -> StoreView {
        StoreView {
            notes,
            selected: if notes.len() == 0 {
                None
            } else {
                Some(0)
            },
            search: Seq::empty(),
            dirty: false,
        }
    }

    /// Adding a note with the given id at time `now`: it goes to the front
    /// and is selected.
    pub open spec fn add(self, id: u128, now: u64) -> StoreView {
        let note = NoteView { title: numbered_title(self.notes.len() + 1), ..NoteView::fresh(id, now) };
        StoreView { notes: self.notes.insert(0, note), selected: Some(0), dirty: true, ..self }
    }

    /// Deleting the selected note: the first remaining note is selected. A
    /// store without a selection stays as it is.
    pub open spec fn delete_selected(self) -> StoreView {
        if self.has_selection() {
            let rest = self.notes.remove(self.selected->0);
            StoreView {
                notes: rest,
                selected: if rest.len() == 0 {
                    None
                } else {
                    Some(0)
                },
                dirty: true,
                ..self
            }
        } else {
            self
        }
    }

    /// A move is carried out when it names a note and a different place
    /// within the list.
    pub open spec fn move_applies(self, from: int, to: int) -> bool {
        0 <= from < self.notes.len() && 0 <= to <= self.notes.len() && from != to
    }

    /// Moving the note at `from` to `to`: the selection follows, by id, the
    /// note that was selected.
    pub open spec fn move_note(self, from: int, to: int) -> StoreView {
        if self.move_applies(from, to) {
            let notes = relocated(self.notes, from, to);
            StoreView {
                notes,
                selected: if self.has_selection() {
                    position_of_id(notes, self.notes[self.selected->0].id)
                } else {
                    None
                },
                dirty: true,
                ..self
            }
        } else {
            self
        }
    }

    /// The selected note is in edit mode.
    pub open spec fn editing_selected(self) -> bool {
        self.has_selection() && self.notes[self.selected->0].editing
    }

    /// The store with `note` in the place of the selected note.
    pub open spec fn with_selected(self, note: NoteView) -> StoreView {
        StoreView { notes: self.notes.update(self.selected->0, note), ..self }
    }

    /// Opening the selected note for editing, unless it is open already.
    pub open spec fn begin_edit(self) -> StoreView {
        if self.has_selection() && !self.editing_selected() {
            self.with_selected(self.notes[self.selected->0].begin_edit())
        } else {
            self
        }
    }

    /// Saving the edit of the selected note at time `now`.
    pub open spec fn save_edit(self, now: u64) -> StoreView {
        if self.editing_selected() {
            StoreView {
                dirty: true,
                ..self.with_selected(self.notes[self.selected->0].save_edit(now))
            }
        } else {
            self
        }
    }

    /// Abandoning the edit of the selected note.
    pub open spec fn close_edit(self) -> StoreView {
        if self.editing_selected() {
            self.with_selected(self.notes[self.selected->0].close_edit())
        } else {
            self
        }
    }

    /// Typing a new title into the selected note at time `now`. The store
    /// becomes dirty where changes are saved automatically.
    pub open spec fn edit_title(self, title: Seq<char>, now: u64, auto_save: bool) -> StoreView {
        if self.editing_selected() {
            StoreView {
                dirty: self.dirty || auto_save,
                ..self.with_selected(self.notes[self.selected->0].retitle(title, now))
            }
        } else {
            self
        }
    }

    /// Typing a new body into the selected note at time `now`. The store
    /// becomes dirty where changes are saved automatically.
    pub open spec fn edit_body(self, body: Seq<char>, now: u64, auto_save: bool) -> StoreView {
        if self.editing_selected() {
            StoreView {
                dirty: self.dirty || auto_save,
                ..self.with_selected(self.notes[self.selected->0].rewrite(body, now))
            }
        } else {
            self
        }
    }

    /// A new search query.
    pub open spec fn set_search(self, query: Seq<char>) -> StoreView {
        StoreView { search: query, ..self }
    }

    /// The outcome of an attempt to save: success clears the dirty flag,
    /// failure leaves it for the next attempt.
    pub open spec fn save_finished(self, succeeded: bool) -> StoreView {
        StoreView { dirty: self.dirty && !succeeded, ..self }
    }

    /// Selecting the note at `index`; an index outside the list selects
    /// nothing new.
    pub open spec fn select(self, index: int) -> StoreView {
        if 0 <= index < self.notes.len() {
            StoreView { selected: Some(index), ..self }
        } else {
            self
        }
    }
}

/// Taking an element out of a sequence of notes takes its value out of the
/// sequence of their values.
proof fn lemma_views_remove(notes: Seq<Note>, at: int)
    requires
        0 <= at < notes.len(),
    ensures
        note_views(notes.remove(at)) == note_views(notes).remove(at),
{
    assert(note_views(notes.remove(at)) =~= note_views(notes).remove(at));
}

/// Putting a note into a sequence puts its value into the sequence of values.
proof fn lemma_views_insert(notes: Seq<Note>, at: int, note: Note)
    requires
        0 <= at <= notes.len(),
    ensures
        note_views(notes.insert(at, note)) == note_views(notes).insert(at, note@),
{
    assert(note_views(notes.insert(at, note)) =~= note_views(notes).insert(at, note@));
}

/// Where one note of a sequence has changed in place, its value has
/// changed in the sequence of values, and nothing else has.
proof fn lemma_views_changed_at(before: Seq<Note>, after: Seq<Note>, at: int)
    requires
        0 <= at < before.len(),
        after.len() == before.len(),
        forall|i: int| 0 <= i < before.len() && i != at ==> after[i] == before[i],
    ensures
        note_views(after) == note_views(before).update(at, after[at]@),
{
    assert(note_views(after) =~= note_views(before).update(at, after[at]@));
}

/// The first position that holds an id is the only one that
/// `is_first_with_id` accepts.
pub proof fn lemma_first_with_id(notes: Seq<NoteView>, id: u128, at: int)
    requires
        is_first_with_id(notes, id, at),
    ensures
        position_of_id(notes, id) == Some(at),
{
    let chosen = choose|k: int| is_first_with_id(notes, id, k);
    assert(is_first_with_id(notes, id, chosen));
    if chosen < at {
        assert(notes[chosen].id != id);
    } else if at < chosen {
        assert(notes[at].id != id);
    }
}

/// The first position in `notes` of a note with the given id.
pub fn find_id(notes: &Vec<Note>, id: u128) -> (found: Option<usize>)
    ensures
        match found {
            Some(at) => position_of_id(note_views(notes@), id) == Some(at as int),
            None => position_of_id(note_views(notes@), id) is None,
        },
        found is None <==> forall|i: int| 0 <= i < notes.len() ==> notes[i].id != id,
{
    let mut at: usize = 0;
    while at < notes.len()
        invariant
            at <= notes.len(),
            forall|i: int| 0 <= i < at ==> notes[i].id != id,
        decreases notes.len() - at,
    {
        if notes[at].id == id {
            proof {
                assert(is_first_with_id(note_views(notes@), id, at as int));
                lemma_first_with_id(note_views(notes@), id, at as int);
            }
            return Some(at);
        }
        at += 1;
    }
    proof {
        assert forall|k: int| !is_first_with_id(note_views(notes@), id, k) by {
            if 0 <= k < notes.len() {
                assert(note_views(notes@)[k].id == notes[k].id);
            }
        }
    }
    None
}

impl NoteStore {
    /// The store as it stands after loading `notes`: the first note is
    /// selected, the query is empty and nothing awaits saving.
    pub fn from_notes(notes: Vec<Note>) -> (store: NoteStore)
        ensures
            store@ == StoreView::opened(note_views(notes@)),
            store@.wf(),
    {
        let selected = if notes.len() == 0 {
            None
        } else {
            Some(0)
        };
        NoteStore { notes, selected, search: String::new(), dirty: false }
    }

    /// Adds a note with the given id, created at `now`, in front of the
    /// others, selects it and marks the store dirty. The note is titled
    /// with its number: the count of notes after the addition.
    pub fn add_note_with(&mut self, id: u128, now: u64)
        ensures
            final(self)@ == old(self)@.add(id, now),
            final(self)@.wf(),
            is_free(old(self)@.notes, id) && ids_distinct(old(self)@.notes) ==> ids_distinct(
                final(self)@.notes,
            ),
    {
        let mut note = Note::created_at(id, now);
        let mut title = String::from_str("Note ");
        let number = decimal_string(self.notes.len() as u128 + 1);
        title.append(number.as_str());
        note.title = title;
        proof {
            lemma_views_insert(self.notes@, 0, note);
        }
        self.notes.insert(0, note);
        self.selected = Some(0);
        self.dirty = true;
    }

    /// Adds a note with a fresh id, stamped with the current time. The id
    /// is one that no note of the store holds; what the store then holds
    /// is what `add_note_with` makes of that id and that time.
    pub fn add_note(&mut self)
        ensures
            final(self)@ == old(self)@.add(final(self)@.notes[0].id, final(self)@.notes[0].modified),
            final(self)@.wf(),
            is_free(old(self)@.notes, final(self)@.notes[0].id),
            ids_distinct(old(self)@.notes) ==> ids_distinct(final(self)@.notes),
    {
        let id = fresh_id(&self.notes);
        let now = current_unix();
        self.add_note_with(id, now);
    }

    /// Removes the selected note, selects the first of those that remain
    /// and marks the store dirty. Without a selection nothing changes.
    pub fn delete_selected(&mut self)
        ensures
            final(self)@ == old(self)@.delete_selected(),
            old(self)@.wf() ==> final(self)@.wf(),
    {
        if let Some(index) = self.selected {
            if index < self.notes.len() {
                proof {
                    lemma_views_remove(self.notes@, index as int);
                }
                self.notes.remove(index);
                self.selected = if self.notes.len() == 0 {
                    None
                } else {
                    Some(0)
                };
                self.dirty = true;
            }
        }
    }

    /// Selects the note at `index`, if there is one.
    pub fn select(&mut self, index: usize)
        ensures
            final(self)@ == old(self)@.select(index as int),
            old(self)@.wf() ==> final(self)@.wf(),
    {
        if index < self.notes.len() {
            self.selected = Some(index);
        }
    }

    /// Moves the note at `from` to the place `to`, counted in the list as
    /// it stands before the move, and marks the store dirty. The selection
    /// stays with the note that was selected, found again by its id. A move
    /// that names no note, a place beyond the end, or the note's own place
    /// changes nothing.
    pub fn move_note(&mut self, from: usize, to: usize)
        ensures
            final(self)@ == old(self)@.move_note(from as int, to as int),
            old(self)@.wf() ==> final(self)@.wf(),
    {
        let len = self.notes.len();
        if from < len && to <= len && from != to {
            let selected_id = match self.selected {
                Some(index) => if index < len {
                    Some(self.notes[index].id)
                } else {
                    None
                },
                None => None,
            };
            proof {
                lemma_views_remove(self.notes@, from as int);
            }
            let note = self.notes.remove(from);
            let insert_at = if to > from {
                to - 1
            } else {
                to
            };
            proof {
                lemma_views_insert(self.notes@, insert_at as int, note);
            }
            self.notes.insert(insert_at, note);
            self.selected = match selected_id {
                Some(id) => find_id(&self.notes, id),
                None => None,
            };
            self.dirty = true;
        }
    }

    /// Opens the selected note for editing and keeps a copy of its body.
    /// Nothing changes without a selection, or where the note is open.
    pub fn begin_edit(&mut self)
        ensures
            final(self)@ == old(self)@.begin_edit(),
            old(self)@.wf() ==> final(self)@.wf(),
    {
        if let Some(index) = self.selected {
            if index < self.notes.len() && !self.notes[index].editing {
                self.notes[index].begin_edit();
                proof {
                    lemma_views_changed_at(old(self).notes@, self.notes@, index as int);
                }
            }
        }
    }

    /// Saves the edit of the selected note at time `now` and marks the
    /// store dirty. Returns whether there was an edit to save: the caller
    /// then writes the store out.
    pub fn save_edit(&mut self, now: u64) -> (saved: bool)
        ensures
            final(self)@ == old(self)@.save_edit(now),
            saved == old(self)@.editing_selected(),
            old(self)@.wf() ==> final(self)@.wf(),
    {
        if let Some(index) = self.selected {
            if index < self.notes.len() && self.notes[index].editing {
                self.notes[index].save_edit(now);
                proof {
                    lemma_views_changed_at(old(self).notes@, self.notes@, index as int);
                }
                self.dirty = true;
                return true;
            }
        }
        false
    }

    /// Abandons the edit of the selected note: its body is restored from
    /// the backup. The title and the dirty flag stay as they are.
    pub fn close_edit(&mut self)
        ensures
            final(self)@ == old(self)@.close_edit(),
            old(self)@.wf() ==> final(self)@.wf(),
    {
        if let Some(index) = self.selected {
            if index < self.notes.len() && self.notes[index].editing {
                self.notes[index].close_edit();
                proof {
                    lemma_views_changed_at(old(self).notes@, self.notes@, index as int);
                }
            }
        }
    }

    /// Gives the selected note, while it is being edited, a new title at
    /// time `now`; with `auto_save` the store becomes dirty.
    pub fn edit_title(&mut self, title: String, now: u64, auto_save: bool)
        ensures
            final(self)@ == old(self)@.edit_title(title@, now, auto_save),
            old(self)@.wf() ==> final(self)@.wf(),
    {
        if let Some(index) = self.selected {
            if index < self.notes.len() && self.notes[index].editing {
                self.notes[index].retitle(title, now);
                proof {
                    lemma_views_changed_at(old(self).notes@, self.notes@, index as int);
                }
                if auto_save {
                    self.dirty = true;
                }
            }
        }
    }

    /// Gives the selected note, while it is being edited, a new body at
    /// time `now`; with `auto_save` the store becomes dirty.
    pub fn edit_body(&mut self, body: String, now: u64, auto_save: bool)
        ensures
            final(self)@ == old(self)@.edit_body(body@, now, auto_save),
            old(self)@.wf() ==> final(self)@.wf(),
    {
        if let Some(index) = self.selected {
            if index < self.notes.len() && self.notes[index].editing {
                self.notes[index].rewrite(body, now);
                proof {
                    lemma_views_changed_at(old(self).notes@, self.notes@, index as int);
                }
                if auto_save {
                    self.dirty = true;
                }
            }
        }
    }

    /// Replaces the search query.
    pub fn set_search(&mut self, query: String)
        ensures
            final(self)@ == old(self)@.set_search(query@),
    {
        self.search = query;
    }

    /// The rows that the search query shows, in the order of the store.
    pub fn visible_rows(&self) -> (rows: Vec<ListRow>)
        ensures
            row_views(rows@) == filtered(self@.notes, self@.search),
    {
        filter(&self.notes, self.search.as_str())
    }

    /// Notes can be reordered only while the search query is empty: the
    /// list then shows every note at its own position.
    pub fn reorder_enabled(&self) -> (enabled: bool)
        ensures
            enabled == (self@.search.len() == 0),
    {
        self.search.as_str().is_empty()
    }

    /// Tells whether the store is to be written out now: it is dirty and
    /// changes are saved automatically.
    pub fn needs_save(&self, auto_save: bool) -> (due: bool)
        ensures
            due == (self@.dirty && auto_save),
    {
        self.dirty && auto_save
    }

    /// Records how an attempt to save ended. A failed attempt leaves the
    /// store dirty, so that the next attempt tries again.
    pub fn save_finished(&mut self, succeeded: bool)
        ensures
            final(self)@ == old(self)@.save_finished(succeeded),
    {
        if succeeded {
            self.dirty = false;
        }
    }
}

} // verus!
