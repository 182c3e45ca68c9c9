use notes::drag::drop_target;
use notes::drag::DragEvent;
use notes::drag::DragState;
use notes::drag::Edge;
use notes::drag::PointerOverList;
use notes::drag::RowHit;
use notes::note::Note;
use notes::store::NoteStore;

fn over(rows: Vec<RowHit>, above_first: bool) -> PointerOverList {
    PointerOverList { rows, above_first }
}

#[test]
fn drop_on_upper_half_goes_before_the_row() {
    let pointer = over(vec![RowHit::Outside, RowHit::UpperHalf, RowHit::Outside], false);
    assert_eq!(drop_target(&pointer), 1);
}

#[test]
fn drop_on_lower_half_goes_after_the_row() {
    let pointer = over(vec![RowHit::Outside, RowHit::LowerHalf, RowHit::Outside], false);
    assert_eq!(drop_target(&pointer), 2);
    let pointer = over(vec![RowHit::Outside, RowHit::Outside, RowHit::LowerHalf], false);
    assert_eq!(drop_target(&pointer), 3);
}

#[test]
fn first_row_hit_decides() {
    let pointer = over(vec![RowHit::LowerHalf, RowHit::UpperHalf], true);
    assert_eq!(drop_target(&pointer), 1);
    let pointer = over(vec![RowHit::UpperHalf, RowHit::LowerHalf], false);
    assert_eq!(drop_target(&pointer), 0);
}

#[test]
fn drop_outside_every_row_clamps() {
    let rows = vec![RowHit::Outside, RowHit::Outside, RowHit::Outside];
    assert_eq!(drop_target(&over(rows.clone(), true)), 0);
    assert_eq!(drop_target(&over(rows, false)), 3);
    assert_eq!(drop_target(&over(Vec::new(), false)), 0);
    assert_eq!(drop_target(&over(Vec::new(), true)), 0);
}

#[test]
fn drag_starts_only_when_enabled() {
    let idle: DragState<(i32, i32)> = DragState::Idle;
    let (state, action) =
        idle.step(DragEvent::Started { row: 2, pointer: (5, 9), reorder_enabled: false });
    assert_eq!(state, DragState::Idle);
    assert_eq!(action, None);
    let (state, action) =
        state.step(DragEvent::Started { row: 2, pointer: (5, 9), reorder_enabled: true });
    assert_eq!(state, DragState::Dragging { origin: 2, start: (5, 9) });
    assert_eq!(action, None);
    assert!(state.is_dragging());
}

#[test]
fn drag_in_progress_is_not_restarted() {
    let dragging = DragState::Dragging { origin: 1, start: (0, 0) };
    let (state, action) =
        dragging.step(DragEvent::Started { row: 2, pointer: (5, 9), reorder_enabled: true });
    assert_eq!(state, DragState::Dragging { origin: 1, start: (0, 0) });
    assert_eq!(action, None);
}

#[test]
fn release_asks_for_a_move_and_returns_to_idle() {
    let dragging = DragState::Dragging { origin: 2, start: (0, 0) };
    let pointer = over(vec![RowHit::UpperHalf, RowHit::Outside, RowHit::Outside], true);
    let (state, action) = dragging.step(DragEvent::Released { over: Some(pointer) });
    assert_eq!(state, DragState::Idle);
    assert_eq!(action, Some((2, 0)));
    assert!(!state.is_dragging());
}

#[test]
fn release_without_position_moves_nothing() {
    let dragging = DragState::Dragging { origin: 2, start: (0, 0) };
    let (state, action) = dragging.step(DragEvent::Released { over: None });
    assert_eq!(state, DragState::Idle);
    assert_eq!(action, None);
}

#[test]
fn release_while_idle_moves_nothing() {
    let idle: DragState<(i32, i32)> = DragState::Idle;
    let pointer = over(vec![RowHit::UpperHalf], true);
    let (state, action) = idle.step(DragEvent::Released { over: Some(pointer) });
    assert_eq!(state, DragState::Idle);
    assert_eq!(action, None);
}

#[test]
fn cancel_returns_to_idle_without_a_move() {
    let dragging = DragState::Dragging { origin: 2, start: (0, 0) };
    let (state, action) = dragging.step(DragEvent::Cancelled);
    assert_eq!(state, DragState::Idle);
    assert_eq!(action, None);
    let (state, action) = state.step(DragEvent::Cancelled);
    assert_eq!(state, DragState::Idle);
    assert_eq!(action, None);
}

#[test]
fn insertion_mark_skips_the_dragged_row() {
    let dragging = DragState::Dragging { origin: 1, start: (0, 0) };
    assert_eq!(dragging.insertion_mark(0, RowHit::UpperHalf), Some(Edge::Top));
    assert_eq!(dragging.insertion_mark(0, RowHit::LowerHalf), Some(Edge::Bottom));
    assert_eq!(dragging.insertion_mark(0, RowHit::Outside), None);
    assert_eq!(dragging.insertion_mark(1, RowHit::UpperHalf), None);
    assert_eq!(dragging.insertion_mark(1, RowHit::LowerHalf), None);
    let idle: DragState<(i32, i32)> = DragState::Idle;
    assert_eq!(idle.insertion_mark(0, RowHit::UpperHalf), None);
}

#[test]
fn drag_last_note_to_front_of_store() {
    let note = |id: u128, title: &str| Note {
        id,
        title: title.to_string(),
        body: String::new(),
        modified: 0,
        editing: false,
        backup: None,
    };
    let mut store = NoteStore::from_notes(vec![note(1, "A"), note(2, "B"), note(3, "C")]);
    store.select(1);
    let state: DragState<(i32, i32)> = DragState::Idle;
    let (state, _) = state.step(DragEvent::Started {
        row: 2,
        pointer: (4, 60),
        reorder_enabled: store.reorder_enabled(),
    });
    let pointer = over(vec![RowHit::UpperHalf, RowHit::Outside, RowHit::Outside], true);
    let (state, action) = state.step(DragEvent::Released { over: Some(pointer) });
    assert_eq!(state, DragState::Idle);
    let (from, to) = action.unwrap();
    store.move_note(from, to);
    let titles: Vec<&str> = store.notes.iter().map(|n| n.title.as_str()).collect();
    assert_eq!(titles, vec!["C", "A", "B"]);
    assert_eq!(store.selected, Some(2));
}
