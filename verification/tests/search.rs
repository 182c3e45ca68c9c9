use notes::note::Note;
use notes::search::filter;
use notes::search::flagged_rows;
use notes::search::matching_notes;
use notes::search::note_matches;
use notes::search::occurs_in_note;
use notes::search::ListRow;
use notes::store::NoteStore;

fn written(id: u128, title: &str, body: &str) -> Note {
    Note {
        id,
        title: title.to_string(),
        body: body.to_string(),
        modified: 0,
        editing: false,
        backup: None,
    }
}

fn sample() -> Vec<Note> {
    vec![
        written(1, "Shopping List", "milk, eggs"),
        written(2, "Ideas", "A list of THINGS to build"),
        written(3, "Journal", "nothing today"),
    ]
}

fn row(index: usize, title: &str, id: u128) -> ListRow {
    ListRow { index, title: title.to_string(), id }
}

#[test]
fn empty_query_shows_all_in_order() {
    let rows = filter(&sample(), "");
    assert_eq!(
        rows,
        vec![row(0, "Shopping List", 1), row(1, "Ideas", 2), row(2, "Journal", 3)]
    );
}

#[test]
fn query_matches_title_or_body() {
    let rows = filter(&sample(), "list");
    assert_eq!(rows, vec![row(0, "Shopping List", 1), row(1, "Ideas", 2)]);
    let rows = filter(&sample(), "eggs");
    assert_eq!(rows, vec![row(0, "Shopping List", 1)]);
    let rows = filter(&sample(), "journal");
    assert_eq!(rows, vec![row(2, "Journal", 3)]);
}

#[test]
fn query_ignores_case() {
    let upper = filter(&sample(), "THINGS");
    let lower = filter(&sample(), "things");
    let mixed = filter(&sample(), "tHiNgS");
    assert_eq!(upper, vec![row(1, "Ideas", 2)]);
    assert_eq!(lower, upper);
    assert_eq!(mixed, upper);
    assert_eq!(filter(&sample(), "SHOPPING"), vec![row(0, "Shopping List", 1)]);
}

#[test]
fn query_without_match_shows_nothing() {
    assert_eq!(filter(&sample(), "zebra"), Vec::new());
    assert_eq!(filter(&Vec::new(), ""), Vec::new());
    assert_eq!(filter(&Vec::new(), "a"), Vec::new());
}

#[test]
fn query_must_occur_as_one_run() {
    assert!(note_matches(&written(1, "abc", ""), "bc"));
    assert!(!note_matches(&written(1, "abc", ""), "ac"));
    assert!(!note_matches(&written(1, "ab", "c"), "abc"));
    assert!(note_matches(&written(1, "", ""), ""));
    assert!(!note_matches(&written(1, "", ""), " "));
}

#[test]
fn folding_goes_beyond_ascii() {
    assert!(note_matches(&written(1, "ÄRGER", ""), "ärger"));
    assert!(note_matches(&written(1, "", "straße"), "STRASSE") == "straße".contains("strasse"));
    assert!(note_matches(&written(1, "Ωmega", ""), "ωMEGA"));
}

#[test]
fn visible_rows_follow_the_store_query() {
    let mut store = NoteStore::from_notes(sample());
    assert_eq!(store.visible_rows().len(), 3);
    store.set_search("TODAY".to_string());
    assert_eq!(store.visible_rows(), vec![row(2, "Journal", 3)]);
    store.set_search(String::new());
    assert_eq!(store.visible_rows().len(), 3);
}

#[test]
fn needle_is_sought_in_title_and_body() {
    assert!(occurs_in_note("shopping list", "milk", "list"));
    assert!(occurs_in_note("shopping list", "milk", "ilk"));
    assert!(occurs_in_note("", "", ""));
    assert!(!occurs_in_note("shopping list", "milk", "LIST"));
    assert!(!occurs_in_note("ab", "cd", "bc"));
}

#[test]
fn one_flag_for_each_note() {
    assert_eq!(matching_notes(&sample(), "list"), vec![true, true, false]);
    assert_eq!(matching_notes(&sample(), ""), vec![true, true, true]);
    assert_eq!(matching_notes(&sample(), "Nothing"), vec![false, false, true]);
    assert_eq!(matching_notes(&Vec::new(), "x"), Vec::<bool>::new());
}

#[test]
fn rows_for_the_flagged_notes() {
    let rows = flagged_rows(&sample(), &vec![true, false, true]);
    assert_eq!(rows, vec![row(0, "Shopping List", 1), row(2, "Journal", 3)]);
    assert_eq!(flagged_rows(&sample(), &vec![false, false, false]), Vec::new());
}

#[test]
fn notes_without_a_flag_get_no_row() {
    let rows = flagged_rows(&sample(), &vec![false, true]);
    assert_eq!(rows, vec![row(1, "Ideas", 2)]);
    assert_eq!(flagged_rows(&sample(), &Vec::new()), Vec::new());
    let rows = flagged_rows(&sample(), &vec![true, true, true, true, true]);
    assert_eq!(rows.len(), 3);
}
