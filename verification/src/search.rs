//! The search filter: which notes a query shows, and in what order.

use crate::note::Note;
use crate::note::NoteView;
use crate::store::note_views;
use crate::text::contains;
use crate::text::is_substring;
use crate::text::lowercase_of;
use crate::text::positions;
use crate::text::to_lowercase;
use vstd::prelude::*;

verus! {

/// One row of the filtered list: where the note stands in the store, with
/// its title and id.
#[derive(Clone, Debug, PartialEq, Eq)]
pub struct ListRow {
    pub index: usize,
    pub title: String,
    pub id: u128,
}

/// The mathematical value of a [`ListRow`].
pub struct RowView {
    pub index: int,
    pub title: Seq<char>,
    pub id: u128,
}

impl View for ListRow {
    type V = RowView;

    open spec fn view(&self) -> RowView {
        RowView { index: self.index as int, title: self.title@, id: self.id }
    }
}

/// The values of a sequence of rows, in the same order.
pub open spec fn row_views(rows: Seq<ListRow>) -> Seq<RowView> {
    Seq::new(rows.len(), |i: int| rows[i]@)
}

/// A note matches a query when the query is empty, or when the lowercase
/// query occurs in the lowercase title or in the lowercase body.
pub open spec fn matches_query(note: NoteView, query: Seq<char>) -> bool {
    ||| query.len() == 0
    ||| is_substring(lowercase_of(note.title), lowercase_of(query))
    ||| is_substring(lowercase_of(note.body), lowercase_of(query))
}

/// For each note, whether it matches the query.
pub open spec fn match_flags(notes: Seq<NoteView>, query: Seq<char>) -> Seq<bool> {
    Seq::new(notes.len(), |i: int| matches_query(notes[i], query))
}

/// The row that shows the note at `index`.
pub open spec fn row_at(notes: Seq<NoteView>, index: int) -> RowView {
    RowView { index, title: notes[index].title, id: notes[index].id }
}

/// The position has a flag, and the flag is set.
pub open spec fn is_flagged(flags: Seq<bool>, at: int) -> bool {
    0 <= at < flags.len() && flags[at]
}

/// The test that picks the positions whose flag is set.
pub open spec fn flagged(flags: Seq<bool>) -> spec_fn(int) -> bool {
    |at: int| is_flagged(flags, at)
}

/// The map from a position to its row.
pub open spec fn to_row(notes: Seq<NoteView>) -> spec_fn(int) -> RowView {
    |i: int| row_at(notes, i)
}

/// The positions of the notes whose flag is set, in ascending order.
pub open spec fn flagged_positions(count: nat, flags: Seq<bool>) -> Seq<int> {
    positions(count).filter(flagged(flags))
}

/// The rows of the notes whose flag is set, in the order of the store.
pub open spec fn rows_where(notes: Seq<NoteView>, flags: Seq<bool>) -> Seq<RowView> {
    flagged_positions(notes.len(), flags).map_values(to_row(notes))
}

/// The rows of the notes that match the query, in the order of the store.
pub open spec fn filtered(notes: Seq<NoteView>, query: Seq<char>) -> Seq<RowView> {
    rows_where(notes, match_flags(notes, query))
}

/// Tells whether `needle` occurs in the title or in the body. The search
/// hands it the lowercase forms of all three.
pub fn occurs_in_note(title: &str, body: &str, needle: &str) -> (found: bool)
    ensures
        found == (is_substring(title@, needle@) || is_substring(body@, needle@)),
{
    contains(title, needle) || contains(body, needle)
}

/// Tells whether a note matches a query.
pub fn note_matches(note: &Note, query: &str) -> (shown: bool)
    ensures
        shown == matches_query(note@, query@),
{
    if query.is_empty() {
        return true;
    }
    let needle = to_lowercase(query);
    let title = to_lowercase(note.title.as_str());
    let body = to_lowercase(note.body.as_str());
    occurs_in_note(title.as_str(), body.as_str(), needle.as_str())
}

/// Tells of each note whether it matches the query.
pub fn matching_notes(notes: &Vec<Note>, query: &str) -> (flags: Vec<bool>)
    ensures
        flags@ == match_flags(note_views(notes@), query@),
{
    let mut flags: Vec<bool> = Vec::new();
    let mut at: usize = 0;
    while at < notes.len()
        invariant
            at <= notes.len(),
            flags@ == match_flags(note_views(notes@).take(at as int), query@),
        decreases notes.len() - at,
    {
        let shown = note_matches(&notes[at], query);
        flags.push(shown);
        at += 1;
        assert(flags@ =~= match_flags(note_views(notes@).take(at as int), query@));
    }
    assert(note_views(notes@).take(notes.len() as int) =~= note_views(notes@));
    flags
}

/// The rows of the notes whose flag is set, in the order of `notes`. A
/// note without a flag gets no row.
pub fn flagged_rows(notes: &Vec<Note>, flags: &Vec<bool>) -> (rows: Vec<ListRow>)
    ensures
        row_views(rows@) == rows_where(note_views(notes@), flags@),
{
    let ghost all = note_views(notes@);
    let ghost test = flagged(flags@);
    let mut rows: Vec<ListRow> = Vec::new();
    let mut at: usize = 0;
    proof {
        assert(positions(0) =~= Seq::<int>::empty());
        reveal(Seq::filter);
        assert(row_views(rows@) =~= positions(0).filter(test).map_values(to_row(all)));
    }
    while at < notes.len()
        invariant
            at <= notes.len(),
            all == note_views(notes@),
            test == flagged(flags@),
            row_views(rows@) == positions(at as nat).filter(test).map_values(to_row(all)),
        decreases notes.len() - at,
    {
        let ghost before = positions(at as nat);
        let ghost kept = before.filter(test);
        proof {
            assert(positions((at + 1) as nat) =~= before.push(at as int));
            before.lemma_filter_push(at as int, test);
        }
        if at < flags.len() && flags[at] {
            let row = ListRow { index: at, title: notes[at].title.clone(), id: notes[at].id };
            let ghost shown = rows@;
            rows.push(row);
            proof {
                assert(row@ == row_at(all, at as int));
                assert(row_views(shown.push(row)) =~= row_views(shown).push(row@));
                assert(kept.push(at as int).map_values(to_row(all)) =~= kept.map_values(
                    to_row(all),
                ).push(row_at(all, at as int)));
            }
        }
        at += 1;
    }
    rows
}

/// The rows of the notes that match `query`, in the order of `notes`. The
/// comparison ignores case; an empty query shows every note.
pub fn filter(notes: &Vec<Note>, query: &str) -> (rows: Vec<ListRow>)
    ensures
        row_views(rows@) == filtered(note_views(notes@), query@),
{
    let flags = matching_notes(notes, query);
    flagged_rows(notes, &flags)
}

/// What holds of the flagged positions among the first `count`: they
/// ascend, each lies among the first `count` and is flagged, and none that
/// is flagged is left out.
pub proof fn lemma_flagged_positions(count: nat, flags: Seq<bool>)
    ensures
        forall|k: int|
            0 <= k < flagged_positions(count, flags).len() ==> {
                let at = #[trigger] flagged_positions(count, flags)[k];
                0 <= at < count && is_flagged(flags, at)
            },
        forall|j: int, k: int|
            0 <= j < k < flagged_positions(count, flags).len() ==> flagged_positions(count, flags)[j]
                < flagged_positions(count, flags)[k],
        forall|at: int|
            0 <= at < count && is_flagged(flags, at) ==> flagged_positions(count, flags).contains(
                at,
            ),
    decreases count,
{
    let test = flagged(flags);
    if count == 0 {
        assert(positions(0) =~= Seq::<int>::empty());
        reveal(Seq::filter);
    } else {
        let before = positions((count - 1) as nat);
        let kept = flagged_positions((count - 1) as nat, flags);
        lemma_flagged_positions((count - 1) as nat, flags);
        assert(positions(count) =~= before.push(count - 1));
        before.lemma_filter_push(count - 1, test);
        let now = flagged_positions(count, flags);
        assert(test(count - 1) == is_flagged(flags, count - 1));
        assert(now == if is_flagged(flags, count - 1) {
            kept.push(count - 1)
        } else {
            kept
        });
        assert forall|k: int| 0 <= k < now.len() implies {
            let at = #[trigger] now[k];
            0 <= at < count && is_flagged(flags, at)
        } by {
            if k < kept.len() {
                assert(now[k] == kept[k]);
            }
        }
        assert forall|j: int, k: int| 0 <= j < k < now.len() implies now[j] < now[k] by {
            assert(now[j] == kept[j]);
            if k < kept.len() {
                assert(now[k] == kept[k]);
            }
        }
        assert forall|at: int| 0 <= at < count && is_flagged(flags, at) implies now.contains(
            at,
        ) by {
            if at == count - 1 {
                assert(now[now.len() - 1] == at);
            } else {
                assert(kept.contains(at));
                let k = choose|k: int| 0 <= k < kept.len() && kept[k] == at;
                assert(now[k] == at);
            }
        }
    }
}

/// The filtered list is sound, complete and in the order of the store:
/// every row shows a note that matches, at its own position; the positions
/// ascend; and every note that matches has its row.
pub proof fn lemma_filtered_rows(notes: Seq<NoteView>, query: Seq<char>)
    ensures
        forall|k: int|
            0 <= k < filtered(notes, query).len() ==> {
                let row = #[trigger] filtered(notes, query)[k];
                &&& 0 <= row.index < notes.len()
                &&& matches_query(notes[row.index], query)
                &&& row == row_at(notes, row.index)
            },
        forall|j: int, k: int|
            0 <= j < k < filtered(notes, query).len() ==> filtered(notes, query)[j].index
                < filtered(notes, query)[k].index,
        forall|at: int|
            0 <= at < notes.len() && matches_query(notes[at], query) ==> filtered(
                notes,
                query,
            ).contains(row_at(notes, at)),
{
    let flags = match_flags(notes, query);
    lemma_flagged_positions(notes.len(), flags);
    let kept = flagged_positions(notes.len(), flags);
    let rows = filtered(notes, query);
    assert forall|k: int| 0 <= k < rows.len() implies {
        let row = #[trigger] rows[k];
        &&& 0 <= row.index < notes.len()
        &&& matches_query(notes[row.index], query)
        &&& row == row_at(notes, row.index)
    } by {
        assert(rows[k] == row_at(notes, kept[k]));
        assert(is_flagged(flags, kept[k]));
    }
    assert forall|j: int, k: int| 0 <= j < k < rows.len() implies rows[j].index
        < rows[k].index by {
        assert(rows[j] == row_at(notes, kept[j]));
        assert(rows[k] == row_at(notes, kept[k]));
    }
    assert forall|at: int| 0 <= at < notes.len() && matches_query(notes[at], query) implies rows.contains(
        row_at(notes, at),
    ) by {
        assert(is_flagged(flags, at));
        assert(kept.contains(at));
        let k = choose|k: int| 0 <= k < kept.len() && kept[k] == at;
        assert(rows[k] == row_at(notes, at));
    }
}

/// With every position flagged, filtering keeps them all.
proof fn lemma_all_positions_kept(count: nat, flags: Seq<bool>)
    requires
        forall|at: int| 0 <= at < count ==> is_flagged(flags, at),
    ensures
        flagged_positions(count, flags) == positions(count),
    decreases count,
{
    let test = flagged(flags);
    if count == 0 {
        assert(positions(0) =~= Seq::<int>::empty());
        reveal(Seq::filter);
    } else {
        let before = positions((count - 1) as nat);
        lemma_all_positions_kept((count - 1) as nat, flags);
        assert(positions(count) =~= before.push(count - 1));
        before.lemma_filter_push(count - 1, test);
        assert(is_flagged(flags, count - 1));
    }
}

/// The empty query shows every note, in the order of the store.
pub proof fn lemma_empty_query_shows_all(notes: Seq<NoteView>)
    ensures
        filtered(notes, Seq::empty()) == Seq::new(notes.len(), |i: int| row_at(notes, i)),
{
    lemma_all_positions_kept(notes.len(), match_flags(notes, Seq::empty()));
    assert(filtered(notes, Seq::empty()) =~= Seq::new(notes.len(), |i: int| row_at(notes, i)));
}

/// Matching ignores case: two notes whose titles and bodies agree in
/// lowercase answer alike to two queries that agree in lowercase, both of
/// them empty or neither.
pub proof fn lemma_match_ignores_case(
    first: NoteView,
    second: NoteView,
    query: Seq<char>,
    other_query: Seq<char>,
)
    requires
        lowercase_of(first.title) == lowercase_of(second.title),
        lowercase_of(first.body) == lowercase_of(second.body),
        lowercase_of(query) == lowercase_of(other_query),
        query.len() == 0 <==> other_query.len() == 0,
    ensures
        matches_query(first, query) == matches_query(second, other_query),
{
}

/// A non-empty query matches a note exactly when its lowercase form occurs
/// in the lowercase title or in the lowercase body.
pub proof fn lemma_match_in_title_or_body(note: NoteView, query: Seq<char>)
    requires
        query.len() > 0,
    ensures
        matches_query(note, query) <==> (is_substring(lowercase_of(note.title), lowercase_of(query))
            || is_substring(lowercase_of(note.body), lowercase_of(query))),
{
}

} // verus!
