//! Note ids: drawing one at random, and making sure that it is not taken.

use crate::note::Note;
use crate::note::NoteView;
use crate::store::find_id;
use crate::store::note_views;
use vstd::prelude::*;

verus! {

/// No note holds the id.
pub open spec fn is_free(notes: Seq<NoteView>, id: u128) -> bool {
    forall|i: int| 0 <= i < notes.len() ==> notes[i].id != id
}

/// The id that lies `steps` after `seed`, counting up and going on from 0
/// after the largest id.
pub open spec fn probe(seed: u128, steps: nat) -> u128 {
    ((seed + steps) % (u128::MAX + 1)) as u128
}

/// `steps` is the number of taken ids that lie between `seed` and the
/// first free id at or after it.
pub open spec fn is_first_free(notes: Seq<NoteView>, seed: u128, steps: nat) -> bool {
    &&& is_free(notes, probe(seed, steps))
    &&& forall|earlier: nat| earlier < steps ==> !is_free(notes, #[trigger] probe(seed, earlier))
}

/// Calls `rand::random::<u128>`, which draws from the generator of the
/// current thread. Nothing is claimed of the number it returns. The call
/// panics where the generator cannot be seeded by the operating system.
#[verifier::external_body]
fn random_id() -> (id: u128) {
    rand::random::<u128>()
}

/// Ids that are all taken are no more than there are notes: where the
/// `count` ids from `seed` on are taken, the store holds at least `count`
/// notes.
pub proof fn lemma_taken_ids_are_few(notes: Seq<NoteView>, seed: u128, count: nat)
    requires
        count <= u128::MAX,
        forall|steps: nat| steps < count ==> !is_free(notes, #[trigger] probe(seed, steps)),
    ensures
        count <= notes.len(),
    decreases count,
{
    if count > 0 {
        let last = probe(seed, (count - 1) as nat);
        assert(!is_free(notes, last));
        let held = choose|i: int| 0 <= i < notes.len() && notes[i].id == last;
        let rest = notes.remove(held);
        assert forall|steps: nat| steps < count - 1 implies !is_free(
            rest,
            #[trigger] probe(seed, steps),
        ) by {
            let id = probe(seed, steps);
            assert(id != last);
            assert(!is_free(notes, id));
            let at = choose|i: int| 0 <= i < notes.len() && notes[i].id == id;
            if at < held {
                assert(rest[at].id == id);
            } else {
                assert(rest[at - 1].id == id);
            }
        }
        lemma_taken_ids_are_few(rest, seed, (count - 1) as nat);
    }
}

/// The first id at or after `seed` that no note holds. It is `seed` itself
/// unless a note holds that id already.
pub fn unused_id(notes: &Vec<Note>, seed: u128) -> (id: u128)
    ensures
        is_free(note_views(notes@), id),
        exists|steps: nat|
            steps <= notes.len() && id == probe(seed, steps) && is_first_free(
                note_views(notes@),
                seed,
                steps,
            ),
{
    let ghost all = note_views(notes@);
    let mut candidate = seed;
    let mut tried: usize = 0;
    loop
        invariant
            all == note_views(notes@),
            tried <= notes.len(),
            candidate == probe(seed, tried as nat),
            forall|steps: nat| steps < tried ==> !is_free(all, #[trigger] probe(seed, steps)),
        decreases notes.len() - tried,
    {
        match find_id(notes, candidate) {
            None => {
                proof {
                    assert forall|i: int| 0 <= i < all.len() implies all[i].id != candidate by {
                        assert(all[i].id == notes[i].id);
                    }
                    assert(is_first_free(all, seed, tried as nat));
                }
                return candidate;
            },
            Some(at) => {
                proof {
                    assert(all[at as int].id == candidate);
                    assert(!is_free(all, probe(seed, tried as nat)));
                    lemma_taken_ids_are_few(all, seed, (tried + 1) as nat);
                }
                candidate = if candidate == u128::MAX {
                    0
                } else {
                    candidate + 1
                };
                tried += 1;
            },
        }
    }
}

/// An id for a new note: drawn at random, and moved on to the next free id
/// in the case that a note holds it already.
pub fn fresh_id(notes: &Vec<Note>) -> (id: u128)
    ensures
        is_free(note_views(notes@), id),
{
    unused_id(notes, random_id())
}

} // verus!
