use vstd::prelude::*;

use crate::click::{completes_double, ClickDisambiguator, Gesture};
use crate::model::{BoardColumn, Card, KanbanBoardData};
use crate::position::{allocate_between, allocation};
use crate::queue::{DbAction, MutationQueue};

verus! {

/// Distance, in logical pixels, the pointer must travel from the press point
/// before a press becomes a drag.
pub const DRAG_THRESHOLD_PX: i64 = 10;

/// A pointer position in logical pixels.
#[derive(Debug, Clone, Copy, PartialEq, Eq, Structural)]
pub struct Point {
    pub x: i32,
    pub y: i32,
}

/// Whether `to` lies farther than the drag threshold from `from`.
pub open spec fn beyond_threshold(from: Point, to: Point) -> bool {
    (to.x - from.x) * (to.x - from.x) + (to.y - from.y) * (to.y - from.y)
        > DRAG_THRESHOLD_PX * DRAG_THRESHOLD_PX
}

/// An in-progress pointer-driven reorder. `armed` turns true once the pointer
/// has moved past the threshold; before that a release is a plain click.
#[derive(Debug)]
pub enum DragSession {
    Idle,
    Dragging {
        card: Card,
        source_container: String,
        press_point: Point,
        live_pointer: Point,
        armed: bool,
    },
}

/// What a press on a card turned into.
#[derive(Debug)]
pub enum PressOutcome {
    /// A drag session started, not yet armed.
    DragStarted,
    /// The press completed a double click: the card's editor opens instead.
    OpenEditor(Card),
}

/// Index `i` holds the first column of `cols` whose id is `id`.
pub open spec fn first_column_match(cols: Seq<(BoardColumn, Vec<Card>)>, id: Seq<char>, i: int) -> bool {
    &&& 0 <= i < cols.len()
    &&& cols[i].0.id@ == id
    &&& forall|j: int| 0 <= j < i ==> #[trigger] cols[j].0.id@ != id
}

/// The index of the first column with id `id`, if any.
pub open spec fn column_index(cols: Seq<(BoardColumn, Vec<Card>)>, id: Seq<char>) -> Option<int> {
    if exists|i: int| first_column_match(cols, id, i) {
        Some(choose|i: int| first_column_match(cols, id, i))
    } else {
        None
    }
}

/// Index `i` holds the first card of `cards` whose id is `id`.
pub open spec fn first_card_match(cards: Seq<Card>, id: Seq<char>, i: int) -> bool {
    &&& 0 <= i < cards.len()
    &&& cards[i].id@ == id
    &&& forall|j: int| 0 <= j < i ==> #[trigger] cards[j].id@ != id
}

/// The index of the first card with id `id`, if any.
pub open spec fn card_index(cards: Seq<Card>, id: Seq<char>) -> Option<int> {
    if exists|i: int| first_card_match(cards, id, i) {
        Some(choose|i: int| first_card_match(cards, id, i))
    } else {
        None
    }
}

/// Neighbours when dropping at the end of a column.
pub open spec fn end_neighbours(cards: Seq<Card>) -> (Option<u64>, Option<u64>) {
    if cards.len() > 0 {
        (Some(cards.last().position), None)
    } else {
        (None, None)
    }
}

/// Neighbours of a drop into `cards`: just above the hovered card when it is
/// in the column, else at the end.
pub open spec fn drop_neighbours(cards: Seq<Card>, hovered_card: Option<String>) -> (Option<u64>, Option<u64>) {
    match hovered_card {
        Some(h) => match card_index(cards, h@) {
            Some(i) => (
                if i > 0 { Some(cards[i - 1].position) } else { None },
                Some(cards[i].position),
            ),
            None => end_neighbours(cards),
        },
        None => end_neighbours(cards),
    }
}

/// The commands a drop emits: the move, then a rebalance when flagged.
pub open spec fn move_commands(card_id: String, column: String, key: u64, rebalance: bool) -> Seq<DbAction> {
    if rebalance {
        seq![DbAction::MoveCard(card_id, column, key), DbAction::RebalanceColumn(column)]
    } else {
        seq![DbAction::MoveCard(card_id, column, key)]
    }
}

pub open spec fn loaded(board: Option<&KanbanBoardData>) -> Option<KanbanBoardData> {
    match board {
        Some(b) => Some(*b),
        None => None,
    }
}

/// The commands that releasing the pointer emits.
pub open spec fn release_commands(
    session: DragSession,
    hovered_column: Option<String>,
    hovered_card: Option<String>,
    board: Option<KanbanBoardData>,
) -> Seq<DbAction> {
    match (session, hovered_column, board) {
        (DragSession::Dragging { card, armed, .. }, Some(col), Some(b)) => {
            if armed {
                match column_index(b.columns@, col@) {
                    Some(ci) => {
                        let nb = drop_neighbours(b.columns@[ci].1@, hovered_card);
                        let (key, flag) = allocation(nb.0, nb.1);
                        move_commands(card.id, col, key, flag)
                    },
                    None => Seq::empty(),
                }
            } else {
                Seq::empty()
            }
        },
        _ => Seq::empty(),
    }
}

/// Releasing an unarmed session, or no session, emits nothing; releasing an
/// armed one over a column of the board emits exactly one move of the dragged
/// card into that column, followed by a rebalance of the column exactly when
/// the allocation flagged one.
pub proof fn lemma_release_outcomes(
    session: DragSession,
    hovered_column: Option<String>,
    hovered_card: Option<String>,
    board: Option<KanbanBoardData>,
)
    ensures
        !(session matches DragSession::Dragging { armed, .. } && armed) ==> release_commands(
            session,
            hovered_column,
            hovered_card,
            board,
        ).len() == 0,
        match (session, hovered_column, board) {
            (DragSession::Dragging { card, armed: true, .. }, Some(col), Some(b)) => match column_index(b.columns@, col@) {
                Some(ci) => {
                    let cmds = release_commands(session, hovered_column, hovered_card, board);
                    let nb = drop_neighbours(b.columns@[ci].1@, hovered_card);
                    &&& cmds.len() == if allocation(nb.0, nb.1).1 { 2int } else { 1int }
                    &&& cmds[0] == DbAction::MoveCard(card.id, col, allocation(nb.0, nb.1).0)
                    &&& cmds.len() == 2 ==> cmds[1] == DbAction::RebalanceColumn(col)
                },
                None => release_commands(session, hovered_column, hovered_card, board).len() == 0,
            },
            _ => true,
        },
{
}

/// Finds the first column with id `id`.
pub fn find_column(cols: &Vec<(BoardColumn, Vec<Card>)>, id: &String) -> (r: Option<usize>)
    ensures
        match r {
            Some(i) => column_index(cols@, id@) == Some(i as int),
            None => column_index(cols@, id@) is None,
        },
{
    let mut i: usize = 0;
    while i < cols.len()
        invariant
            0 <= i <= cols@.len(),
            forall|j: int| 0 <= j < i ==> #[trigger] cols@[j].0.id@ != id@,
        decreases cols@.len() - i,
    {
        if cols[i].0.id == *id {
            proof {
                assert(first_column_match(cols@, id@, i as int));
                let c = choose|c: int| first_column_match(cols@, id@, c);
                if c < i {
                    assert(cols@[c].0.id@ != id@);
                } else if c > i {
                    assert(cols@[i as int].0.id@ != id@);
                }
            }
            return Some(i);
        }
        i += 1;
    }
    None
}

/// Finds the first card with id `id`.
pub fn find_card(cards: &Vec<Card>, id: &String) -> (r: Option<usize>)
    ensures
        match r {
            Some(i) => card_index(cards@, id@) == Some(i as int),
            None => card_index(cards@, id@) is None,
        },
{
    let mut i: usize = 0;
    while i < cards.len()
        invariant
            0 <= i <= cards@.len(),
            forall|j: int| 0 <= j < i ==> #[trigger] cards@[j].id@ != id@,
        decreases cards@.len() - i,
    {
        if cards[i].id == *id {
            proof {
                assert(first_card_match(cards@, id@, i as int));
                let c = choose|c: int| first_card_match(cards@, id@, c);
                if c < i {
                    assert(cards@[c].id@ != id@);
                } else if c > i {
                    assert(cards@[i as int].id@ != id@);
                }
            }
            return Some(i);
        }
        i += 1;
    }
    None
}

/// The commands for dropping card `card_id` into column `column`, whose cards
/// are `cards` in display order, above `hovered_card` when it is one of them.
pub fn drop_commands(card_id: &String, column: &String, cards: &Vec<Card>, hovered_card: &Option<String>) -> (r: Vec<DbAction>)
    ensures
        ({
            let nb = drop_neighbours(cards@, *hovered_card);
            r@ == move_commands(*card_id, *column, allocation(nb.0, nb.1).0, allocation(nb.0, nb.1).1)
        }),
{
    let hovered_index = match hovered_card {
        Some(h) => find_card(cards, h),
        None => None,
    };
    let (prev, next) = match hovered_index {
        Some(i) => {
            if i > 0 {
                (Some(cards[i - 1].position), Some(cards[i].position))
            } else {
                (None, Some(cards[i].position))
            }
        },
        None => {
            if cards.len() > 0 {
                (Some(cards[cards.len() - 1].position), None)
            } else {
                (None, None)
            }
        },
    };
    assert((prev, next) == drop_neighbours(cards@, *hovered_card));
    let (key, flag) = allocate_between(prev, next);
    let mut out: Vec<DbAction> = Vec::new();
    out.push(DbAction::MoveCard(card_id.clone(), column.clone(), key));
    if flag {
        out.push(DbAction::RebalanceColumn(column.clone()));
    }
    assert(out@ =~= move_commands(*card_id, *column, key, flag));
    out
}

/// The kanban board's pointer state: the drag session, the board's own click
/// disambiguator, and the column and card under the pointer.
#[derive(Debug)]
pub struct BoardInteraction {
    pub session: DragSession,
    pub clicks: ClickDisambiguator,
    pub hovered_column: Option<String>,
    pub hovered_card: Option<String>,
}

impl BoardInteraction {
    pub fn new() -> (r: BoardInteraction)
        ensures
            r.session is Idle,
            r.clicks.last is None,
            r.hovered_column is None,
            r.hovered_card is None,
    {
        BoardInteraction {
            session: DragSession::Idle,
            clicks: ClickDisambiguator::new(),
            hovered_column: None,
            hovered_card: None,
        }
    }

    /// Pointer down on `card` at `at`. A press that completes a double click
    /// on the card opens its editor and starts no drag; any other press starts
    /// an unarmed drag from `at`.
    pub fn press(&mut self, card: Card, at: Point, now_ms: u64) -> (r: PressOutcome)
        ensures
            final(self).hovered_column == old(self).hovered_column,
            final(self).hovered_card == old(self).hovered_card,
            completes_double(old(self).clicks.last, card.id@, now_ms) ==> r == PressOutcome::OpenEditor(card)
                && final(self).session is Idle
                && final(self).clicks.last is None,
            !completes_double(old(self).clicks.last, card.id@, now_ms) ==> r is DragStarted
                && final(self).session == (DragSession::Dragging {
                    card,
                    source_container: card.column_id,
                    press_point: at,
                    live_pointer: at,
                    armed: false,
                })
                && final(self).clicks.last == Some(crate::click::ClickRecord { item_id: card.id, at_ms: now_ms }),
    {
        let g = self.clicks.register(card.id.clone(), now_ms);
        match g {
            Gesture::Double => {
                self.session = DragSession::Idle;
                PressOutcome::OpenEditor(card)
            },
            Gesture::Single => {
                let source_container = card.column_id.clone();
                self.session = DragSession::Dragging {
                    card,
                    source_container,
                    press_point: at,
                    live_pointer: at,
                    armed: false,
                };
                PressOutcome::DragStarted
            },
        }
    }

    /// Pointer moved to `p`. While dragging, follows the pointer, and arms the
    /// session once `p` lies beyond the threshold from the press point.
    /// Arming is never undone by moving back.
    pub fn pointer_moved(&mut self, p: Point)
        ensures
            final(self).hovered_column == old(self).hovered_column,
            final(self).hovered_card == old(self).hovered_card,
            final(self).clicks == old(self).clicks,
            match old(self).session {
                DragSession::Idle => final(self).session is Idle,
                DragSession::Dragging { card, source_container, press_point, armed, .. } =>
                    final(self).session == (DragSession::Dragging {
                        card,
                        source_container,
                        press_point,
                        live_pointer: p,
                        armed: armed || beyond_threshold(press_point, p),
                    }),
            },
    {
        match &mut self.session {
            DragSession::Idle => {},
            DragSession::Dragging { press_point, live_pointer, armed, .. } => {
                *live_pointer = p;
                if !*armed {
                    let dx: i128 = p.x as i128 - press_point.x as i128;
                    let dy: i128 = p.y as i128 - press_point.y as i128;
                    assert(0 <= dx * dx <= 0x4_0000_0000_0000_0000) by (nonlinear_arith)
                        requires -0x1_0000_0000 <= dx <= 0x1_0000_0000;
                    assert(0 <= dy * dy <= 0x4_0000_0000_0000_0000) by (nonlinear_arith)
                        requires -0x1_0000_0000 <= dy <= 0x1_0000_0000;
                    let d2 = dx * dx + dy * dy;
                    if d2 > (DRAG_THRESHOLD_PX * DRAG_THRESHOLD_PX) as i128 {
                        *armed = true;
                    }
                }
            },
        }
    }

    /// The pointer entered column `id`.
    pub fn hover_column(&mut self, id: String)
        ensures
            final(self).hovered_column == Some(id),
            final(self).hovered_card == old(self).hovered_card,
            final(self).session == old(self).session,
            final(self).clicks == old(self).clicks,
    {
        self.hovered_column = Some(id);
    }

    /// The pointer entered card `id`.
    pub fn hover_card(&mut self, id: String)
        ensures
            final(self).hovered_card == Some(id),
            final(self).hovered_column == old(self).hovered_column,
            final(self).session == old(self).session,
            final(self).clicks == old(self).clicks,
    {
        self.hovered_card = Some(id);
    }

    /// Pointer up. An armed drag over a column of `board` enqueues the move,
    /// and a rebalance of that column when the gap was too small; an unarmed
    /// one is a plain click and enqueues nothing. The session returns to idle
    /// and the hover trackers are cleared.
    pub fn release(&mut self, board: Option<&KanbanBoardData>, queue: &mut MutationQueue)
        requires
            old(queue).wf(),
        ensures
            final(self).session is Idle,
            final(self).hovered_column is None,
            final(self).hovered_card is None,
            final(self).clicks == old(self).clicks,
            final(queue).wf(),
            final(queue).pending@ == old(queue).pending@ + release_commands(
                old(self).session,
                old(self).hovered_column,
                old(self).hovered_card,
                loaded(board),
            ),
            final(queue).in_flight == old(queue).in_flight,
            final(queue).enqueued@ == old(queue).enqueued@ + release_commands(
                old(self).session,
                old(self).hovered_column,
                old(self).hovered_card,
                loaded(board),
            ),
            final(queue).completed@ == old(queue).completed@,
    {
        let ghost cmds_spec = release_commands(self.session, self.hovered_column, self.hovered_card, loaded(board));
        let mut cmds: Vec<DbAction> = Vec::new();
        match (&self.session, &self.hovered_column, board) {
            (DragSession::Dragging { card, armed, .. }, Some(col), Some(b)) => {
                if *armed {
                    match find_column(&b.columns, col) {
                        Some(ci) => {
                            cmds = drop_commands(&card.id, col, &b.columns[ci].1, &self.hovered_card);
                        },
                        None => {},
                    }
                }
            },
            _ => {},
        }
        assert(cmds@ == cmds_spec);
        let n = cmds.len();
        let mut i: usize = 0;
        let ghost q0 = *queue;
        let ghost all = cmds@;
        while i < n
            invariant
                n == all.len(),
                0 <= i <= n,
                cmds@ == all.subrange(i as int, n as int),
                queue.wf(),
                queue.pending@ == q0.pending@ + all.subrange(0, i as int),
                queue.enqueued@ == q0.enqueued@ + all.subrange(0, i as int),
                queue.in_flight == q0.in_flight,
                queue.completed@ == q0.completed@,
            decreases n - i,
        {
            let c = cmds.remove(0);
            queue.enqueue(c);
            proof {
                assert(all.subrange(0, i + 1) =~= all.subrange(0, i as int).push(c));
                assert(cmds@ =~= all.subrange(i + 1, n as int));
            }
            i += 1;
        }
        assert(all.subrange(0, n as int) =~= all);
        self.session = DragSession::Idle;
        self.hovered_column = None;
        self.hovered_card = None;
    }
}

} // verus!
