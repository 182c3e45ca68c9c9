//! The policy for loading and saving: what a missing, unreadable or
//! malformed file comes to, and what a save does to the dirty flag.

use crate::note::Note;
use crate::store::note_views;
use crate::store::NoteStore;
use crate::store::StoreView;
use vstd::prelude::*;

verus! {

/// The name of the directory, below the user's data directory, that holds
/// the files.
pub const DATA_DIR: &'static str = "notes";

/// The name of the file that holds the notes.
pub const NOTES_FILE: &'static str = "notes.json";

/// The name of the file that holds the settings.
pub const SETTINGS_FILE: &'static str = "settings.json";

/// What reading a file came to.
#[derive(Debug, PartialEq, Eq)]
pub enum Loaded<T> {
    /// There is no such file.
    Missing,
    /// The file exists and could not be read.
    Unreadable,
    /// The file was read and its text is not a value of the kind expected.
    Malformed,
    /// The file was read and holds this value.
    Parsed(T),
}

/// Why a load failed.
#[derive(Clone, Copy, Debug, PartialEq, Eq)]
pub enum LoadError {
    /// The file could not be read.
    Read,
    /// The text of the file could not be parsed.
    Parse,
}

/// The result of a load: a missing file stands for `when_missing` and is
/// no error; an unreadable or malformed file is one.
pub open spec fn resolved<T>(read: Loaded<T>, when_missing: T) -> Result<T, LoadError> {
    match read {
        Loaded::Missing => Ok(when_missing),
        Loaded::Unreadable => Err(LoadError::Read),
        Loaded::Malformed => Err(LoadError::Parse),
        Loaded::Parsed(value) => Ok(value),
    }
}

/// Turns what reading a file came to into the result of the load.
pub fn resolve<T>(read: Loaded<T>, when_missing: T) -> (result: Result<T, LoadError>)
    ensures
        result == resolved(read, when_missing),
{
    match read {
        Loaded::Missing => Ok(when_missing),
        Loaded::Unreadable => Err(LoadError::Read),
        Loaded::Malformed => Err(LoadError::Parse),
        Loaded::Parsed(value) => Ok(value),
    }
}

/// The notes that a load gives: those of the file, none where there is no
/// file, and an error where the file cannot be read or parsed.
pub fn load_notes(read: Loaded<Vec<Note>>) -> (result: Result<Vec<Note>, LoadError>)
    ensures
        match read {
            Loaded::Missing => result matches Ok(notes) && notes@.len() == 0,
            Loaded::Unreadable => result == Err::<Vec<Note>, LoadError>(LoadError::Read),
            Loaded::Malformed => result == Err::<Vec<Note>, LoadError>(LoadError::Parse),
            Loaded::Parsed(notes) => result == Ok::<Vec<Note>, LoadError>(notes),
        },
{
    resolve(read, Vec::new())
}

/// The value to go on with after a load: the loaded one, or `fallback`
/// where the load failed.
pub fn or_fallback<T>(loaded: Result<T, LoadError>, fallback: T) -> (value: T)
    ensures
        value == match loaded {
            Ok(found) => found,
            Err(_) => fallback,
        },
{
    match loaded {
        Ok(found) => found,
        Err(_) => fallback,
    }
}

/// What remains of a dirty flag once a save has been attempted: a
/// successful save clears it, a failed one leaves it as it was.
pub open spec fn dirty_after_save_spec(dirty: bool, succeeded: bool) -> bool {
    dirty && !succeeded
}

/// The dirty flag after an attempt to save.
pub fn dirty_after_save(dirty: bool, succeeded: bool) -> (still_dirty: bool)
    ensures
        still_dirty == dirty_after_save_spec(dirty, succeeded),
{
    dirty && !succeeded
}

impl NoteStore {
    /// The store to start with after a load: it holds the loaded notes, or
    /// none where the load failed; the first note, if any, is selected.
    pub fn open(loaded: Result<Vec<Note>, LoadError>) -> (store: NoteStore)
        ensures
            store@ == StoreView::opened(
                match loaded {
                    Ok(notes) => note_views(notes@),
                    Err(_) => Seq::empty(),
                },
            ),
            store@.wf(),
    {
        let notes = or_fallback(loaded, Vec::new());
        assert(loaded is Err ==> note_views(notes@) =~= Seq::empty());
        NoteStore::from_notes(notes)
    }
}

} // verus!
