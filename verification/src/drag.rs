//! Reordering by drag and drop: the state of the gesture, and the place
//! where a dragged note is dropped.

use vstd::prelude::*;

verus! {

/// Where the pointer stands with respect to one row of the list.
#[derive(Clone, Copy, Debug, PartialEq, Eq)]
pub enum RowHit {
    /// The pointer is not within the row.
    Outside,
    /// The pointer is within the row, above its vertical centre.
    UpperHalf,
    /// The pointer is within the row, at or below its vertical centre.
    LowerHalf,
}

/// The edge of a row at which the insertion mark is drawn.
#[derive(Clone, Copy, Debug, PartialEq, Eq)]
pub enum Edge {
    Top,
    Bottom,
}

/// Where the pointer stands with respect to the list: one hit for each
/// row, in display order, and whether the pointer is above the centre of
/// the first row.
#[derive(Debug, PartialEq, Eq)]
pub struct PointerOverList {
    pub rows: Vec<RowHit>,
    pub above_first: bool,
}

/// The state of the drag gesture. `start` is the pointer position at which
/// the drag began, kept for whoever draws the dragged row.
#[derive(Debug, PartialEq)]
pub enum DragState<P> {
    Idle,
    Dragging { origin: usize, start: P },
}

/// What the pointer and the keyboard report about the gesture.
#[derive(Debug, PartialEq)]
pub enum DragEvent<P> {
    /// A drag has begun on the row at `row`, with the pointer at `pointer`.
    /// `reorder_enabled` tells whether the list can be reordered now.
    Started { row: usize, pointer: P, reorder_enabled: bool },
    /// The pointer was released; `over` is `None` when its position is not
    /// known.
    Released { over: Option<PointerOverList> },
    /// The gesture was cancelled from the keyboard.
    Cancelled,
}

/// `at` is the first row that the pointer is within.
pub open spec fn is_first_hit(rows: Seq<RowHit>, at: int) -> bool {
    &&& 0 <= at < rows.len()
    &&& rows[at] != RowHit::Outside
    &&& forall|before: int| 0 <= before < at ==> rows[before] == RowHit::Outside
}

/// The place at which a note is dropped. Over a row it is the place before
/// the row in its upper half and the place after it in its lower half.
/// Over no row it is the start of the list when the pointer is above the
/// first row's centre or the list is empty, and the end of it otherwise.
pub open spec fn drop_place(rows: Seq<RowHit>, above_first: bool) -> int {
    if exists|at: int| is_first_hit(rows, at) {
        let at = choose|at: int| is_first_hit(rows, at);
        if rows[at] == RowHit::UpperHalf {
            at
        } else {
            at + 1
        }
    } else if rows.len() == 0 || above_first {
        0
    } else {
        rows.len() as int
    }
}

/// The state after an event.
pub open spec fn next_state<P>(state: DragState<P>, event: DragEvent<P>) -> DragState<P> {
    match (state, event) {
        (DragState::Idle, DragEvent::Started { row, pointer, reorder_enabled }) => if reorder_enabled {
            DragState::Dragging { origin: row, start: pointer }
        } else {
            DragState::Idle
        },
        (DragState::Dragging { origin, start }, DragEvent::Started { .. }) => DragState::Dragging {
            origin,
            start,
        },
        (_, DragEvent::Released { .. }) => DragState::Idle,
        (_, DragEvent::Cancelled) => DragState::Idle,
    }
}

/// The move that an event asks for: the origin of the drag and the place
/// of the drop, when the pointer is released at a known position during a
/// drag; none otherwise.
pub open spec fn requested_move<P>(state: DragState<P>, event: DragEvent<P>) -> Option<(int, int)> {
    match (state, event) {
        (DragState::Dragging { origin, .. }, DragEvent::Released { over: Some(over) }) => Some(
            (origin as int, drop_place(over.rows@, over.above_first)),
        ),
        _ => None,
    }
}

/// The edge of the row at `row` that gets the insertion mark: none while
/// idle, none for the dragged row itself and none for a row that the
/// pointer is not within.
pub open spec fn mark<P>(state: DragState<P>, row: int, hit: RowHit) -> Option<Edge> {
    match state {
        DragState::Dragging { origin, .. } => if row == origin {
            None
        } else {
            match hit {
                RowHit::Outside => None,
                RowHit::UpperHalf => Some(Edge::Top),
                RowHit::LowerHalf => Some(Edge::Bottom),
            }
        },
        DragState::Idle => None,
    }
}

/// The first row that the pointer is within is the only one that
/// `is_first_hit` accepts.
pub proof fn lemma_first_hit(rows: Seq<RowHit>, at: int)
    requires
        is_first_hit(rows, at),
    ensures
        (choose|k: int| is_first_hit(rows, k)) == at,
{
    let chosen = choose|k: int| is_first_hit(rows, k);
    assert(is_first_hit(rows, chosen));
    if chosen < at {
        assert(rows[chosen] == RowHit::Outside);
    } else if at < chosen {
        assert(rows[at] == RowHit::Outside);
    }
}

/// The place at which a note is dropped when the pointer is released.
pub fn drop_target(over: &PointerOverList) -> (place: usize)
    ensures
        place == drop_place(over.rows@, over.above_first),
        place <= over.rows.len(),
{
    let mut at: usize = 0;
    while at < over.rows.len()
        invariant
            at <= over.rows.len(),
            forall|before: int| 0 <= before < at ==> over.rows[before] == RowHit::Outside,
        decreases over.rows.len() - at,
    {
        match over.rows[at] {
            RowHit::Outside => {},
            RowHit::UpperHalf => {
                proof {
                    lemma_first_hit(over.rows@, at as int);
                }
                return at;
            },
            RowHit::LowerHalf => {
                proof {
                    lemma_first_hit(over.rows@, at as int);
                }
                return at + 1;
            },
        }
        at += 1;
    }
    proof {
        assert forall|k: int| !is_first_hit(over.rows@, k) by {}
    }
    if over.rows.len() == 0 || over.above_first {
        0
    } else {
        over.rows.len()
    }
}

impl<P> DragState<P> {
    /// Tells whether a drag is under way.
    pub fn is_dragging(&self) -> (dragging: bool)
        ensures
            dragging == (*self is Dragging),
    {
        match self {
            DragState::Idle => false,
            DragState::Dragging { .. } => true,
        }
    }

    /// Takes one event: returns the state that follows, and the move that
    /// the event asks for as the pair of the note's position and the place
    /// of the drop. A drag begins only from idle and only while the list
    /// can be reordered; a release or a cancellation ends it; only a
    /// release at a known position during a drag asks for a move.
    pub fn step(self, event: DragEvent<P>) -> (outcome: (DragState<P>, Option<(usize, usize)>))
        ensures
            outcome.0 == next_state(self, event),
            match outcome.1 {
                Some((from, to)) => requested_move(self, event) == Some((from as int, to as int)),
                None => requested_move(self, event) is None,
            },
    {
        match event {
            DragEvent::Started { row, pointer, reorder_enabled } => match self {
                DragState::Idle => if reorder_enabled {
                    (DragState::Dragging { origin: row, start: pointer }, None)
                } else {
                    (DragState::Idle, None)
                },
                DragState::Dragging { origin, start } => (DragState::Dragging { origin, start }, None),
            },
            DragEvent::Released { over } => match self {
                DragState::Idle => (DragState::Idle, None),
                DragState::Dragging { origin, start } => match over {
                    Some(over) => {
                        let place = drop_target(&over);
                        (DragState::Idle, Some((origin, place)))
                    },
                    None => (DragState::Idle, None),
                },
            },
            DragEvent::Cancelled => (DragState::Idle, None),
        }
    }

    /// The edge of the row at `row` at which the insertion mark is drawn,
    /// given where the pointer stands with respect to that row.
    pub fn insertion_mark(&self, row: usize, hit: RowHit) -> (edge: Option<Edge>)
        ensures
            edge == mark(*self, row as int, hit),
    {
        match self {
            DragState::Idle => None,
            DragState::Dragging { origin, .. } => if row == *origin {
                None
            } else {
                match hit {
                    RowHit::Outside => None,
                    RowHit::UpperHalf => Some(Edge::Top),
                    RowHit::LowerHalf => Some(Edge::Bottom),
                }
            },
        }
    }
}

} // verus!
