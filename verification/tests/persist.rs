use notes::clock::current_unix;
use notes::clock::timestamp_of;
use notes::note::Note;
use notes::persist::dirty_after_save;
use notes::persist::load_notes;
use notes::persist::or_fallback;
use notes::persist::resolve;
use notes::persist::LoadError;
use notes::persist::Loaded;
use notes::persist::DATA_DIR;
use notes::persist::NOTES_FILE;
use notes::persist::SETTINGS_FILE;
use notes::store::NoteStore;

fn note(id: u128, title: &str) -> Note {
    Note {
        id,
        title: title.to_string(),
        body: "text".to_string(),
        modified: 9,
        editing: false,
        backup: None,
    }
}

#[test]
fn missing_file_gives_empty_collection() {
    assert_eq!(load_notes(Loaded::Missing), Ok(Vec::new()));
}

#[test]
fn unreadable_file_is_a_read_error() {
    assert_eq!(load_notes(Loaded::Unreadable), Err(LoadError::Read));
}

#[test]
fn malformed_file_is_a_parse_error() {
    assert_eq!(load_notes(Loaded::Malformed), Err(LoadError::Parse));
}

#[test]
fn parsed_file_gives_its_notes() {
    let notes = vec![note(1, "A"), note(2, "B")];
    assert_eq!(load_notes(Loaded::Parsed(notes.clone())), Ok(notes));
}

#[test]
fn resolve_uses_the_given_value_for_a_missing_file() {
    assert_eq!(resolve(Loaded::Missing, 17u32), Ok(17));
    assert_eq!(resolve(Loaded::Parsed(3u32), 17), Ok(3));
    assert_eq!(resolve(Loaded::Unreadable, 17u32), Err(LoadError::Read));
    assert_eq!(resolve(Loaded::Malformed, 17u32), Err(LoadError::Parse));
}

#[test]
fn failed_load_falls_back() {
    assert_eq!(or_fallback(Err(LoadError::Parse), 5u8), 5);
    assert_eq!(or_fallback(Err(LoadError::Read), 5u8), 5);
    assert_eq!(or_fallback(Ok(8u8), 5), 8);
}

#[test]
fn store_opens_on_loaded_notes() {
    let store = NoteStore::open(load_notes(Loaded::Parsed(vec![note(1, "A"), note(2, "B")])));
    assert_eq!(store.notes.len(), 2);
    assert_eq!(store.selected, Some(0));
    assert!(!store.dirty);
    assert_eq!(store.search, "");
}

#[test]
fn store_opens_empty_after_failed_or_missing_load() {
    for read in [Loaded::Missing, Loaded::Unreadable, Loaded::Malformed] {
        let store = NoteStore::open(load_notes(read));
        assert!(store.notes.is_empty());
        assert_eq!(store.selected, None);
        assert!(!store.dirty);
    }
}

#[test]
fn dirty_flag_after_save() {
    assert!(dirty_after_save(true, false));
    assert!(!dirty_after_save(true, true));
    assert!(!dirty_after_save(false, false));
    assert!(!dirty_after_save(false, true));
}

#[test]
fn file_names() {
    assert_eq!(DATA_DIR, "notes");
    assert_eq!(NOTES_FILE, "notes.json");
    assert_eq!(SETTINGS_FILE, "settings.json");
}

#[test]
fn clock_reads_a_time_after_2020() {
    let now = current_unix();
    assert!(now > 1_577_836_800);
    assert!(current_unix() >= now);
}

#[test]
fn clock_before_the_epoch_reads_zero() {
    assert_eq!(timestamp_of(None), 0);
    assert_eq!(timestamp_of(Some(0)), 0);
    assert_eq!(timestamp_of(Some(1_700_000_000)), 1_700_000_000);
    assert_eq!(timestamp_of(Some(u64::MAX)), u64::MAX);
}
