//! What holds of the store whatever is done to it.

use crate::ids::is_free;
use crate::note::NoteView;
use crate::store::backups_follow_editing;
use crate::store::ids_distinct;
use crate::store::is_first_with_id;
use crate::store::landing;
use crate::store::lemma_first_with_id;
use crate::store::position_of_id;
use crate::store::relocated;
use crate::store::StoreView;
use vstd::prelude::*;

verus! {

/// A change to the store.
pub enum StoreOp {
    /// A new note with this id, at this time.
    Add { id: u128, now: u64 },
    /// The selected note is deleted.
    Delete,
    /// The note at `from` is moved to `to`.
    Move { from: int, to: int },
    /// The note at `index` is selected.
    Select { index: int },
    /// The search query is replaced.
    Search { query: Seq<char> },
    /// The selected note is opened for editing.
    BeginEdit,
    /// The edit of the selected note is saved.
    SaveEdit { now: u64 },
    /// The edit of the selected note is abandoned.
    CloseEdit,
    /// The selected note gets a new title.
    EditTitle { title: Seq<char>, now: u64, auto_save: bool },
    /// The selected note gets a new body.
    EditBody { body: Seq<char>, now: u64, auto_save: bool },
    /// An attempt to write the store out has ended.
    SaveFinished { succeeded: bool },
}

/// The store after one change.
pub open spec fn apply(store: StoreView, op: StoreOp) -> StoreView {
    match op {
        StoreOp::Add { id, now } => store.add(id, now),
        StoreOp::Delete => store.delete_selected(),
        StoreOp::Move { from, to } => store.move_note(from, to),
        StoreOp::Select { index } => store.select(index),
        StoreOp::Search { query } => store.set_search(query),
        StoreOp::BeginEdit => store.begin_edit(),
        StoreOp::SaveEdit { now } => store.save_edit(now),
        StoreOp::CloseEdit => store.close_edit(),
        StoreOp::EditTitle { title, now, auto_save } => store.edit_title(title, now, auto_save),
        StoreOp::EditBody { body, now, auto_save } => store.edit_body(body, now, auto_save),
        StoreOp::SaveFinished { succeeded } => store.save_finished(succeeded),
    }
}

/// An addition brings an id that no note of the store holds; every other
/// change brings none.
pub open spec fn brings_no_taken_id(store: StoreView, op: StoreOp) -> bool {
    op matches StoreOp::Add { id, .. } ==> is_free(store.notes, id)
}

/// Each addition in the sequence brings an id that no note holds at the
/// time of the addition.
pub open spec fn additions_are_fresh(store: StoreView, ops: Seq<StoreOp>) -> bool
    decreases ops.len(),
{
    ops.len() > 0 ==> {
        &&& additions_are_fresh(store, ops.drop_last())
        &&& brings_no_taken_id(apply_all(store, ops.drop_last()), ops.last())
    }
}

/// The store after a sequence of changes, the first of them made first.
pub open spec fn apply_all(store: StoreView, ops: Seq<StoreOp>) -> StoreView
    decreases ops.len(),
{
    if ops.len() == 0 {
        store
    } else {
        apply(apply_all(store, ops.drop_last()), ops.last())
    }
}

/// Among the notes up to `upto`, where one holds the id, some position is
/// the first to hold it.
proof fn lemma_first_exists(notes: Seq<NoteView>, id: u128, upto: int)
    requires
        0 <= upto < notes.len(),
        notes[upto].id == id,
    ensures
        exists|at: int| is_first_with_id(notes, id, at) && at <= upto,
    decreases upto,
{
    if exists|before: int| 0 <= before < upto && notes[before].id == id {
        let before = choose|before: int| 0 <= before < upto && notes[before].id == id;
        lemma_first_exists(notes, id, before);
        let at = choose|at: int| is_first_with_id(notes, id, at) && at <= before;
        assert(is_first_with_id(notes, id, at) && at <= upto);
    } else {
        assert(is_first_with_id(notes, id, upto));
    }
}

/// An id that some note holds is found, at the first note that holds it;
/// an id that no note holds is not found.
pub proof fn lemma_position_of_id(notes: Seq<NoteView>, id: u128)
    ensures
        match position_of_id(notes, id) {
            Some(at) => is_first_with_id(notes, id, at),
            None => forall|i: int| 0 <= i < notes.len() ==> notes[i].id != id,
        },
{
    if position_of_id(notes, id) is None {
        assert forall|i: int| 0 <= i < notes.len() implies notes[i].id != id by {
            if notes[i].id == id {
                lemma_first_exists(notes, id, i);
            }
        }
    }
}

/// Where the element at position `at` of a relocated sequence stood before.
pub open spec fn origin(from: int, to: int, at: int) -> int {
    let target = landing(from, to);
    if at == target {
        from
    } else {
        let skipped = if at > target {
            at - 1
        } else {
            at
        };
        if skipped >= from {
            skipped + 1
        } else {
            skipped
        }
    }
}

/// Where the element at position `at` stands after the relocation.
pub open spec fn destination(from: int, to: int, at: int) -> int {
    let target = landing(from, to);
    if at == from {
        target
    } else {
        let closed = if at > from {
            at - 1
        } else {
            at
        };
        if closed >= target {
            closed + 1
        } else {
            closed
        }
    }
}

/// The element at position `at` of a relocated sequence is the one that
/// stood at `origin(from, to, at)`.
proof fn lemma_relocated_at<A>(items: Seq<A>, from: int, to: int, at: int)
    requires
        0 <= from < items.len(),
        0 <= to <= items.len(),
        0 <= at < items.len(),
    ensures
        relocated(items, from, to).len() == items.len(),
        0 <= origin(from, to, at) < items.len(),
        relocated(items, from, to)[at] == items[origin(from, to, at)],
{
    let taken = items.remove(from);
    let target = landing(from, to);
    let moved = taken.insert(target, items[from]);
    assert(taken.len() == items.len() - 1);
    assert(moved.len() == items.len());
    if at < target {
        assert(moved[at] == taken[at]);
        if at < from {
            assert(taken[at] == items[at]);
        } else {
            assert(taken[at] == items[at + 1]);
        }
    } else if at == target {
        assert(moved[at] == items[from]);
    } else {
        assert(moved[at] == taken[at - 1]);
        if at - 1 < from {
            assert(taken[at - 1] == items[at - 1]);
        } else {
            assert(taken[at - 1] == items[at]);
        }
    }
}

/// A relocation keeps the length, and `origin` and `destination` say where
/// each element came from and where each went.
pub proof fn lemma_relocated_elements<A>(items: Seq<A>, from: int, to: int)
    requires
        0 <= from < items.len(),
        0 <= to <= items.len(),
    ensures
        relocated(items, from, to).len() == items.len(),
        relocated(items, from, to)[landing(from, to)] == items[from],
        forall|at: int|
            0 <= at < items.len() ==> {
                &&& 0 <= origin(from, to, at) < items.len()
                &&& #[trigger] relocated(items, from, to)[at] == items[origin(from, to, at)]
            },
        forall|at: int|
            0 <= at < items.len() ==> {
                &&& 0 <= destination(from, to, at) < items.len()
                &&& relocated(items, from, to)[destination(from, to, at)] == #[trigger] items[at]
            },
{
    let moved = relocated(items, from, to);
    lemma_relocated_at(items, from, to, landing(from, to));
    assert forall|at: int| 0 <= at < items.len() implies {
        &&& 0 <= origin(from, to, at) < items.len()
        &&& #[trigger] moved[at] == items[origin(from, to, at)]
    } by {
        lemma_relocated_at(items, from, to, at);
    }
    assert forall|at: int| 0 <= at < items.len() implies {
        &&& 0 <= destination(from, to, at) < items.len()
        &&& moved[destination(from, to, at)] == #[trigger] items[at]
    } by {
        let there = destination(from, to, at);
        assert(0 <= there < items.len());
        assert(origin(from, to, there) == at);
        lemma_relocated_at(items, from, to, there);
    }
}

/// A relocation keeps every element as often as it occurred.
pub proof fn lemma_relocated_multiset<A>(items: Seq<A>, from: int, to: int)
    requires
        0 <= from < items.len(),
        0 <= to <= items.len(),
    ensures
        relocated(items, from, to).to_multiset() == items.to_multiset(),
{
    broadcast use vstd::seq_lib::group_to_multiset_ensures;

    let taken = items.remove(from);
    let target = landing(from, to);
    let moved = taken.insert(target, items[from]);
    taken.insert_ensures(target, items[from]);
    assert(moved.remove(target) =~= taken);
    assert(moved.remove(target).to_multiset() == moved.to_multiset().remove(moved[target]));
    assert(taken.to_multiset() == items.to_multiset().remove(items[from]));
    assert(items.contains(items[from]));
    assert(moved.contains(moved[target]));
    assert(moved.to_multiset() =~= items.to_multiset());
}

/// One change leaves the selection, where there is one, on a note of the
/// store.
pub proof fn lemma_change_keeps_selection_valid(store: StoreView, op: StoreOp)
    requires
        store.wf(),
    ensures
        apply(store, op).wf(),
{
    if let StoreOp::Move { from, to } = op {
        lemma_move_keeps_selection(store, from, to);
    }
}

/// Every sequence of changes, additions and deletions among them, leaves
/// the selection, where there is one, on a note of the store.
pub proof fn lemma_selection_stays_valid(store: StoreView, ops: Seq<StoreOp>)
    requires
        store.wf(),
    ensures
        apply_all(store, ops).wf(),
    decreases ops.len(),
{
    if ops.len() > 0 {
        lemma_selection_stays_valid(store, ops.drop_last());
        lemma_change_keeps_selection_valid(apply_all(store, ops.drop_last()), ops.last());
    }
}

/// One change leaves every backup with a note that is being edited.
pub proof fn lemma_change_keeps_backups(store: StoreView, op: StoreOp)
    requires
        backups_follow_editing(store.notes),
    ensures
        backups_follow_editing(apply(store, op).notes),
{
    let after = apply(store, op).notes;
    match op {
        StoreOp::Move { from, to } => {
            if store.move_applies(from, to) {
                lemma_relocated_elements(store.notes, from, to);
                assert forall|i: int| 0 <= i < after.len() implies (#[trigger] after[i]).wf() by {
                    assert(after[i] == store.notes[origin(from, to, i)]);
                }
            }
        },
        StoreOp::Add { id, now } => {
            assert forall|i: int| 0 <= i < after.len() implies (#[trigger] after[i]).wf() by {
                if i > 0 {
                    assert(after[i] == store.notes[i - 1]);
                }
            }
        },
        StoreOp::Delete => {
            if store.has_selection() {
                let gone = store.selected->0;
                assert forall|i: int| 0 <= i < after.len() implies (#[trigger] after[i]).wf() by {
                    if i < gone {
                        assert(after[i] == store.notes[i]);
                    } else {
                        assert(after[i] == store.notes[i + 1]);
                    }
                }
            }
        },
        _ => {
            if store.has_selection() {
                let at = store.selected->0;
                assert(store.notes[at].wf());
                assert forall|i: int| 0 <= i < after.len() implies (#[trigger] after[i]).wf() by {
                    if i != at {
                        assert(after[i] == store.notes[i]);
                    }
                }
            }
        },
    }
}

/// Every sequence of changes leaves every backup with a note that is
/// being edited.
pub proof fn lemma_backups_follow_editing(store: StoreView, ops: Seq<StoreOp>)
    requires
        backups_follow_editing(store.notes),
    ensures
        backups_follow_editing(apply_all(store, ops).notes),
    decreases ops.len(),
{
    if ops.len() > 0 {
        lemma_backups_follow_editing(store, ops.drop_last());
        lemma_change_keeps_backups(apply_all(store, ops.drop_last()), ops.last());
    }
}

/// One change that brings no taken id leaves the ids distinct.
pub proof fn lemma_change_keeps_ids_distinct(store: StoreView, op: StoreOp)
    requires
        ids_distinct(store.notes),
        brings_no_taken_id(store, op),
    ensures
        ids_distinct(apply(store, op).notes),
{
    let after = apply(store, op).notes;
    match op {
        StoreOp::Move { from, to } => {
            if store.move_applies(from, to) {
                lemma_relocated_elements(store.notes, from, to);
                assert forall|i: int, j: int|
                    0 <= i < after.len() && 0 <= j < after.len() && i != j implies after[i].id
                    != after[j].id by {
                    assert(after[i] == store.notes[origin(from, to, i)]);
                    assert(after[j] == store.notes[origin(from, to, j)]);
                }
            }
        },
        StoreOp::Add { id, now } => {
            assert forall|i: int, j: int|
                0 <= i < after.len() && 0 <= j < after.len() && i != j implies after[i].id
                != after[j].id by {
                if i > 0 {
                    assert(after[i] == store.notes[i - 1]);
                }
                if j > 0 {
                    assert(after[j] == store.notes[j - 1]);
                }
            }
        },
        StoreOp::Delete => {
            if store.has_selection() {
                let gone = store.selected->0;
                assert forall|i: int, j: int|
                    0 <= i < after.len() && 0 <= j < after.len() && i != j implies after[i].id
                    != after[j].id by {
                    assert(after[i] == store.notes[if i < gone { i } else { i + 1 }]);
                    assert(after[j] == store.notes[if j < gone { j } else { j + 1 }]);
                }
            }
        },
        _ => {
            assert forall|i: int, j: int|
                0 <= i < after.len() && 0 <= j < after.len() && i != j implies after[i].id
                != after[j].id by {
                assert(after[i].id == store.notes[i].id);
                assert(after[j].id == store.notes[j].id);
            }
        },
    }
}

/// Every sequence of changes whose additions bring fresh ids leaves the
/// ids distinct.
pub proof fn lemma_ids_stay_distinct(store: StoreView, ops: Seq<StoreOp>)
    requires
        ids_distinct(store.notes),
        additions_are_fresh(store, ops),
    ensures
        ids_distinct(apply_all(store, ops).notes),
    decreases ops.len(),
{
    if ops.len() > 0 {
        lemma_ids_stay_distinct(store, ops.drop_last());
        lemma_change_keeps_ids_distinct(apply_all(store, ops.drop_last()), ops.last());
    }
}

/// A move keeps the notes: each is in the store as often as before.
pub proof fn lemma_move_keeps_notes(store: StoreView, from: int, to: int)
    ensures
        store.move_note(from, to).notes.to_multiset() == store.notes.to_multiset(),
        store.move_note(from, to).notes.len() == store.notes.len(),
{
    if store.move_applies(from, to) {
        lemma_relocated_multiset(store.notes, from, to);
        lemma_relocated_elements(store.notes, from, to);
    }
}

/// A move keeps the selection on a note with the id of the note that was
/// selected, and leaves a store without a selection without one. A move
/// that does not apply changes nothing.
pub proof fn lemma_move_keeps_selection(store: StoreView, from: int, to: int)
    ensures
        !store.move_applies(from, to) ==> store.move_note(from, to) == store,
        store.move_applies(from, to) && !store.has_selection() ==> store.move_note(
            from,
            to,
        ).selected is None,
        store.move_applies(from, to) && store.has_selection() ==> {
            let moved = store.move_note(from, to);
            &&& moved.selected is Some
            &&& 0 <= moved.selected->0 < moved.notes.len()
            &&& moved.notes[moved.selected->0].id == store.notes[store.selected->0].id
        },
        store.wf() ==> store.move_note(from, to).wf(),
{
    if store.move_applies(from, to) && store.has_selection() {
        let was = store.selected->0;
        let id = store.notes[was].id;
        let notes = relocated(store.notes, from, to);
        lemma_relocated_elements(store.notes, from, to);
        let there = destination(from, to, was);
        assert(notes[there] == store.notes[was]);
        lemma_first_exists(notes, id, there);
        lemma_position_of_id(notes, id);
    }
}

/// Where no two notes share an id, a move keeps the selection on the very
/// note that was selected.
pub proof fn lemma_move_follows_selected_note(store: StoreView, from: int, to: int)
    requires
        store.has_selection(),
        store.move_applies(from, to),
        ids_distinct(store.notes),
    ensures
        store.move_note(from, to).selected == Some(destination(from, to, store.selected->0)),
        store.move_note(from, to).notes[store.move_note(from, to).selected->0]
            == store.notes[store.selected->0],
        ids_distinct(store.move_note(from, to).notes),
{
    let was = store.selected->0;
    let id = store.notes[was].id;
    let notes = relocated(store.notes, from, to);
    lemma_relocated_elements(store.notes, from, to);
    let there = destination(from, to, was);
    assert(notes[there] == store.notes[was]);
    assert forall|i: int, j: int| 0 <= i < notes.len() && 0 <= j < notes.len() && i != j implies notes[i].id
        != notes[j].id by {
        assert(notes[i] == store.notes[origin(from, to, i)]);
        assert(notes[j] == store.notes[origin(from, to, j)]);
        assert(origin(from, to, i) != origin(from, to, j));
    }
    assert(is_first_with_id(notes, id, there)) by {
        assert forall|before: int| 0 <= before < there implies notes[before].id != id by {
            assert(notes[before].id != notes[there].id);
        }
    }
    lemma_first_with_id(notes, id, there);
}

} // verus!
