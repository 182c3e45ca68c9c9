//! A single note and the steps of editing it.

use crate::clock::current_unix;
use vstd::prelude::*;
use vstd::string::*;

verus! {

/// A note: a titled text with the time of its last change.
///
/// `editing` and `backup` belong to the editor: `backup` holds the body as
/// it was when editing began, so that the edit can be abandoned.
#[derive(Clone, Debug, PartialEq, Eq)]
pub struct Note {
    pub id: u128,
    pub title: String,
    pub body: String,
    pub modified: u64,
    pub editing: bool,
    pub backup: Option<String>,
}

/// The mathematical value of a [`Note`].
pub struct NoteView {
    pub id: u128,
    pub title: Seq<char>,
    pub body: Seq<char>,
    pub modified: u64,
    pub editing: bool,
    pub backup: Option<Seq<char>>,
}

impl View for Note {
    type V = NoteView;

    open spec fn view(&self) -> NoteView {
        NoteView {
            id: self.id,
            title: self.title@,
            body: self.body@,
            modified: self.modified,
            editing: self.editing,
            backup: match self.backup {
                Some(text) => Some(text@),
                None => None,
            },
        }
    }
}

impl NoteView {
    /// A backup exists only while the note is being edited.
    pub open spec fn wf(self) -> bool {
        self.backup is Some ==> self.editing
    }

    /// The note that `Note::new` makes at time `now`.
    pub open spec fn fresh(id: u128, now: u64) -> NoteView {
        NoteView {
            id,
            title: "Untitled"@,
            body: Seq::empty(),
            modified: now,
            editing: false,
            backup: None,
        }
    }

    /// Entering edit mode: the body is set aside.
    pub open spec fn begin_edit(self) -> NoteView {
        NoteView { editing: true, backup: Some(self.body), ..self }
    }

    /// Saving an edit at time `now`: the backup is dropped.
    pub open spec fn save_edit(self, now: u64) -> NoteView {
        NoteView { modified: now, editing: false, backup: None, ..self }
    }

    /// Abandoning an edit: the body goes back to the backup, where one exists.
    pub open spec fn close_edit(self) -> NoteView {
        NoteView {
            body: match self.backup {
                Some(kept) => kept,
                None => self.body,
            },
            editing: false,
            backup: None,
            ..self
        }
    }

    /// A new title, given at time `now`.
    pub open spec fn retitle(self, title: Seq<char>, now: u64) -> NoteView {
        NoteView { title, modified: now, ..self }
    }

    /// A new body, given at time `now`.
    pub open spec fn rewrite(self, body: Seq<char>, now: u64) -> NoteView {
        NoteView { body, modified: now, ..self }
    }
}

impl Note {
    /// A note with the default title and an empty body, last changed at `now`.
    pub fn created_at(id: u128, now: u64) -> (note: Note)
        ensures
            note@ == NoteView::fresh(id, now),
            note@.wf(),
    {
        Note {
            id,
            title: String::from_str("Untitled"),
            body: String::new(),
            modified: now,
            editing: false,
            backup: None,
        }
    }

    /// A note with the default title and an empty body, stamped with the
    /// current time.
    pub fn new(id: u128) -> (note: Note)
        ensures
            note@ == NoteView::fresh(id, note@.modified),
            note@.wf(),
    {
        Note::created_at(id, current_unix())
    }

    /// Enters edit mode and keeps a copy of the body.
    pub fn begin_edit(&mut self)
        ensures
            final(self)@ == old(self)@.begin_edit(),
            final(self)@.wf(),
    {
        self.backup = Some(self.body.clone());
        self.editing = true;
    }

    /// Leaves edit mode and keeps what was written.
    pub fn save_edit(&mut self, now: u64)
        ensures
            final(self)@ == old(self)@.save_edit(now),
            final(self)@.wf(),
    {
        self.modified = now;
        self.editing = false;
        self.backup = None;
    }

    /// Leaves edit mode and restores the body from the backup.
    pub fn close_edit(&mut self)
        ensures
            final(self)@ == old(self)@.close_edit(),
            final(self)@.wf(),
    {
        let backup = self.backup.take();
        match backup {
            Some(kept) => {
                self.body = kept;
            },
            None => {},
        }
        self.editing = false;
    }

    /// Replaces the title.
    pub fn retitle(&mut self, title: String, now: u64)
        ensures
            final(self)@ == old(self)@.retitle(title@, now),
            old(self)@.wf() ==> final(self)@.wf(),
    {
        self.title = title;
        self.modified = now;
    }

    /// Replaces the body.
    pub fn rewrite(&mut self, body: String, now: u64)
        ensures
            final(self)@ == old(self)@.rewrite(body@, now),
            old(self)@.wf() ==> final(self)@.wf(),
    {
        self.body = body;
        self.modified = now;
    }
}

} // verus!
