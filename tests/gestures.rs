use tas::click::{ClickDisambiguator, Gesture};
use tas::drag::{BoardInteraction, DragSession, Point, PressOutcome};
use tas::model::{Board, BoardColumn, Card, KanbanBoardData};
use tas::queue::{DbAction, MutationQueue};

fn card(id: &str, column: &str, position: u64) -> Card {
    Card {
        id: id.to_string(),
        column_id: column.to_string(),
        title: id.to_string(),
        description: String::new(),
        position,
        priority: "Medium".to_string(),
    }
}

fn column(id: &str) -> BoardColumn {
    BoardColumn { id: id.to_string(), board_id: "b1".to_string(), name: id.to_string(), position: 0 }
}

fn board(todo: Vec<Card>, done: Vec<Card>) -> KanbanBoardData {
    KanbanBoardData {
        board: Board { id: "b1".to_string(), name: "Board".to_string(), kind: "kanban".to_string() },
        columns: vec![(column("todo"), todo), (column("done"), done)],
    }
}

fn pending(q: &MutationQueue) -> Vec<DbAction> {
    q.pending.iter().cloned().collect()
}

#[test]
fn click_within_window_is_double() {
    let mut c = ClickDisambiguator::new();
    assert_eq!(c.register("5".to_string(), 1_000), Gesture::Single);
    assert_eq!(c.register("5".to_string(), 1_300), Gesture::Double);
    assert!(c.last.is_none());
}

#[test]
fn click_outside_window_is_single() {
    let mut c = ClickDisambiguator::new();
    assert_eq!(c.register("5".to_string(), 1_000), Gesture::Single);
    assert_eq!(c.register("5".to_string(), 1_600), Gesture::Single);
    assert_eq!(c.last.as_ref().unwrap().at_ms, 1_600);
}

#[test]
fn click_on_other_item_is_single() {
    let mut c = ClickDisambiguator::new();
    assert_eq!(c.register("5".to_string(), 1_000), Gesture::Single);
    assert_eq!(c.register("7".to_string(), 1_100), Gesture::Single);
    assert_eq!(c.last.as_ref().unwrap().item_id, "7");
}

#[test]
fn click_at_window_edge_and_third_click() {
    let mut c = ClickDisambiguator::new();
    assert_eq!(c.register("5".to_string(), 0), Gesture::Single);
    assert_eq!(c.register("5".to_string(), 500), Gesture::Double);
    // the double click consumed the record
    assert_eq!(c.register("5".to_string(), 600), Gesture::Single);
}

#[test]
fn drag_below_threshold_emits_nothing() {
    let mut b = BoardInteraction::new();
    let mut q = MutationQueue::new();
    let data = board(vec![card("x", "todo", 1_000_000)], vec![]);
    let out = b.press(card("x", "todo", 1_000_000), Point { x: 100, y: 100 }, 0);
    assert!(matches!(out, PressOutcome::DragStarted));
    b.pointer_moved(Point { x: 109, y: 100 });
    match &b.session {
        DragSession::Dragging { armed, live_pointer, .. } => {
            assert!(!armed);
            assert_eq!(*live_pointer, Point { x: 109, y: 100 });
        }
        DragSession::Idle => panic!("session should be dragging"),
    }
    b.hover_column("done".to_string());
    b.release(Some(&data), &mut q);
    assert!(matches!(b.session, DragSession::Idle));
    assert_eq!(q.queue_depth(), 0);
}

#[test]
fn drag_beyond_threshold_moves_card_to_end() {
    let mut b = BoardInteraction::new();
    let mut q = MutationQueue::new();
    let data = board(vec![card("x", "todo", 1_000_000)], vec![card("y", "done", 3_000_000)]);
    b.press(card("x", "todo", 1_000_000), Point { x: 100, y: 100 }, 0);
    b.pointer_moved(Point { x: 111, y: 100 });
    assert!(matches!(b.session, DragSession::Dragging { armed: true, .. }));
    // moving back does not disarm
    b.pointer_moved(Point { x: 100, y: 100 });
    assert!(matches!(b.session, DragSession::Dragging { armed: true, .. }));
    b.hover_column("done".to_string());
    b.release(Some(&data), &mut q);
    assert_eq!(pending(&q), vec![DbAction::MoveCard("x".to_string(), "done".to_string(), 4_000_000)]);
    assert!(b.hovered_column.is_none());
    assert!(b.hovered_card.is_none());
}

#[test]
fn drag_diagonal_threshold() {
    let mut b = BoardInteraction::new();
    b.press(card("x", "todo", 1), Point { x: 0, y: 0 }, 0);
    // 6*6 + 8*8 = 100: exactly the threshold, not beyond it
    b.pointer_moved(Point { x: 6, y: 8 });
    assert!(matches!(b.session, DragSession::Dragging { armed: false, .. }));
    b.pointer_moved(Point { x: -7, y: -8 });
    assert!(matches!(b.session, DragSession::Dragging { armed: true, .. }));
}

#[test]
fn drop_above_hovered_card_takes_midpoint() {
    let mut b = BoardInteraction::new();
    let mut q = MutationQueue::new();
    let data = board(
        vec![card("a", "todo", 1_000_000), card("b", "todo", 2_000_000)],
        vec![],
    );
    b.press(card("z", "done", 5), Point { x: 0, y: 0 }, 0);
    b.pointer_moved(Point { x: 0, y: 20 });
    b.hover_column("todo".to_string());
    b.hover_card("b".to_string());
    b.release(Some(&data), &mut q);
    assert_eq!(pending(&q), vec![DbAction::MoveCard("z".to_string(), "todo".to_string(), 1_500_000)]);
}

#[test]
fn drop_into_narrow_gap_also_rebalances() {
    let mut b = BoardInteraction::new();
    let mut q = MutationQueue::new();
    let data = board(vec![card("a", "todo", 1_000), card("b", "todo", 1_050)], vec![]);
    b.press(card("z", "done", 5), Point { x: 0, y: 0 }, 0);
    b.pointer_moved(Point { x: 11, y: 0 });
    b.hover_column("todo".to_string());
    b.hover_card("b".to_string());
    b.release(Some(&data), &mut q);
    assert_eq!(
        pending(&q),
        vec![
            DbAction::MoveCard("z".to_string(), "todo".to_string(), 1_025),
            DbAction::RebalanceColumn("todo".to_string()),
        ]
    );
}

#[test]
fn drop_at_top_of_column() {
    let mut b = BoardInteraction::new();
    let mut q = MutationQueue::new();
    let data = board(vec![card("a", "todo", 1_000_000)], vec![]);
    b.press(card("z", "done", 5), Point { x: 0, y: 0 }, 0);
    b.pointer_moved(Point { x: 0, y: -11 });
    b.hover_column("todo".to_string());
    b.hover_card("a".to_string());
    b.release(Some(&data), &mut q);
    assert_eq!(pending(&q), vec![DbAction::MoveCard("z".to_string(), "todo".to_string(), 500_000)]);
}

#[test]
fn drop_into_empty_column_or_unknown_column() {
    let mut b = BoardInteraction::new();
    let mut q = MutationQueue::new();
    let data = board(vec![], vec![]);
    b.press(card("z", "todo", 5), Point { x: 0, y: 0 }, 0);
    b.pointer_moved(Point { x: 50, y: 0 });
    b.hover_column("done".to_string());
    b.release(Some(&data), &mut q);
    assert_eq!(pending(&q), vec![DbAction::MoveCard("z".to_string(), "done".to_string(), 1_000_000)]);

    b.press(card("z", "todo", 5), Point { x: 0, y: 0 }, 10_000);
    b.pointer_moved(Point { x: 50, y: 0 });
    b.hover_column("elsewhere".to_string());
    b.release(Some(&data), &mut q);
    assert_eq!(q.queue_depth(), 1);
}

#[test]
fn double_press_opens_editor_instead_of_drag() {
    let mut b = BoardInteraction::new();
    let mut q = MutationQueue::new();
    b.press(card("x", "todo", 1), Point { x: 0, y: 0 }, 1_000);
    b.release(None, &mut q);
    let out = b.press(card("x", "todo", 1), Point { x: 0, y: 0 }, 1_200);
    match out {
        PressOutcome::OpenEditor(c) => assert_eq!(c.id, "x"),
        PressOutcome::DragStarted => panic!("expected the editor to open"),
    }
    assert!(matches!(b.session, DragSession::Idle));
}
