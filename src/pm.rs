use vstd::prelude::*;

use crate::click::ClickRecord;
use crate::drag::{DragSession, Point, PressOutcome};
use crate::ids::new_id;
use crate::model::{BoardColumn, Card, KanbanBoardData};
use crate::queue::DbAction;
use crate::studio::{rest_same, same_views, AppState, Route};
use crate::text::{ascii_ci_same, blank, eq_ignore_ascii_case, is_blank, trim, trimmed};
use crate::toast::{posted, ToastKind};

verus! {

/// Position, in key ticks, given to a card saved from the editor; drag and
/// drop places it afterwards.
pub const SAVED_CARD_POSITION: u64 = 10_000_000;

/// The card editor's content: the card being edited (`None` for a new one),
/// its column and its fields.
#[derive(Debug, Clone)]
pub struct CardDraft {
    pub card_id: Option<String>,
    pub column_id: String,
    pub title: String,
    pub description: String,
    pub priority: String,
}

/// A draft can be saved once it has a title and a column.
pub open spec fn draft_ok(d: CardDraft) -> bool {
    !blank(d.title@) && d.column_id@.len() > 0
}

/// The card a draft saves as; `new_id` names a card that had none.
pub open spec fn draft_card(d: CardDraft, new_id: String) -> Card {
    Card {
        id: match d.card_id {
            Some(id) => id,
            None => new_id,
        },
        column_id: d.column_id,
        title: d.title,
        description: d.description,
        position: SAVED_CARD_POSITION,
        priority: d.priority,
    }
}

/// `d` is an empty draft for a new card in column `column_id`, at the
/// default priority.
pub open spec fn is_new_draft(d: CardDraft, column_id: Seq<char>) -> bool {
    &&& d.card_id is None
    &&& d.column_id@ == column_id
    &&& d.title@.len() == 0
    &&& d.description@.len() == 0
    &&& d.priority@ == "Medium"@
}

/// A draft that edits `card`.
pub open spec fn edit_draft(card: Card) -> CardDraft {
    CardDraft {
        card_id: Some(card.id),
        column_id: card.column_id,
        title: card.title,
        description: card.description,
        priority: card.priority,
    }
}

pub open spec fn is_todo_id(c: BoardColumn) -> bool {
    c.id@ == "col-todo"@
}

pub open spec fn is_todo_name(c: BoardColumn) -> bool {
    ascii_ci_same(trimmed(c.name@), "to do"@)
}

/// Index `i` holds the first column of `cols` with the to-do id.
pub open spec fn first_todo_id(cols: Seq<(BoardColumn, Vec<Card>)>, i: int) -> bool {
    &&& 0 <= i < cols.len()
    &&& is_todo_id(cols[i].0)
    &&& forall|j: int| 0 <= j < i ==> !is_todo_id(#[trigger] cols[j].0)
}

/// Index `i` holds the first column of `cols` named "to do".
pub open spec fn first_todo_name(cols: Seq<(BoardColumn, Vec<Card>)>, i: int) -> bool {
    &&& 0 <= i < cols.len()
    &&& is_todo_name(cols[i].0)
    &&& forall|j: int| 0 <= j < i ==> !is_todo_name(#[trigger] cols[j].0)
}

/// The column a card created from the board's toolbar goes to: the
/// canonical to-do column, else the first named "to do" (any ASCII case,
/// surrounding spaces ignored), else the first column.
pub open spec fn global_create_column(cols: Seq<(BoardColumn, Vec<Card>)>) -> Option<String> {
    if exists|i: int| first_todo_id(cols, i) {
        Some(cols[choose|i: int| first_todo_id(cols, i)].0.id)
    } else if exists|i: int| first_todo_name(cols, i) {
        Some(cols[choose|i: int| first_todo_name(cols, i)].0.id)
    } else if cols.len() > 0 {
        Some(cols[0].0.id)
    } else {
        None
    }
}

fn new_draft(column_id: String) -> (d: CardDraft)
    ensures
        is_new_draft(d, column_id@),
        d.column_id == column_id,
{
    CardDraft {
        card_id: None,
        column_id,
        title: String::new(),
        description: String::new(),
        priority: <String as StringExecFns>::from_str("Medium"),
    }
}

fn find_todo_by_id(cols: &Vec<(BoardColumn, Vec<Card>)>) -> (r: Option<usize>)
    ensures
        match r {
            Some(i) => first_todo_id(cols@, i as int),
            None => !exists|i: int| first_todo_id(cols@, i),
        },
{
    let todo = <String as StringExecFns>::from_str("col-todo");
    let mut i: usize = 0;
    while i < cols.len()
        invariant
            0 <= i <= cols@.len(),
            todo@ == "col-todo"@,
            forall|j: int| 0 <= j < i ==> !is_todo_id(#[trigger] cols@[j].0),
        decreases cols@.len() - i,
    {
        if cols[i].0.id == todo {
            return Some(i);
        }
        i += 1;
    }
    proof {
        assert forall|k: int| !first_todo_id(cols@, k) by {
            if 0 <= k < cols@.len() {
                assert(!is_todo_id(cols@[k].0));
            }
        }
    }
    None
}

fn find_todo_by_name(cols: &Vec<(BoardColumn, Vec<Card>)>) -> (r: Option<usize>)
    ensures
        match r {
            Some(i) => first_todo_name(cols@, i as int),
            None => !exists|i: int| first_todo_name(cols@, i),
        },
{
    let mut i: usize = 0;
    while i < cols.len()
        invariant
            0 <= i <= cols@.len(),
            forall|j: int| 0 <= j < i ==> !is_todo_name(#[trigger] cols@[j].0),
        decreases cols@.len() - i,
    {
        if eq_ignore_ascii_case(trim(cols[i].0.name.as_str()), "to do") {
            return Some(i);
        }
        i += 1;
    }
    proof {
        assert forall|k: int| !first_todo_name(cols@, k) by {
            if 0 <= k < cols@.len() {
                assert(!is_todo_name(cols@[k].0));
            }
        }
    }
    None
}

/// The column a card created from the board's toolbar goes to (see
/// `global_create_column`).
pub fn pick_global_create_column(cols: &Vec<(BoardColumn, Vec<Card>)>) -> (r: Option<String>)
    ensures
        r == global_create_column(cols@),
{
    match find_todo_by_id(cols) {
        Some(i) => {
            proof {
                let c = choose|c: int| first_todo_id(cols@, c);
                if c < i {
                    assert(!is_todo_id(cols@[c].0));
                } else if c > i {
                    assert(!is_todo_id(cols@[i as int].0));
                }
            }
            Some(cols[i].0.id.clone())
        },
        None => match find_todo_by_name(cols) {
            Some(i) => {
                proof {
                    let c = choose|c: int| first_todo_name(cols@, c);
                    if c < i {
                        assert(!is_todo_name(cols@[c].0));
                    } else if c > i {
                        assert(!is_todo_name(cols@[i as int].0));
                    }
                }
                Some(cols[i].0.id.clone())
            },
            None => {
                if cols.len() > 0 {
                    Some(cols[0].0.id.clone())
                } else {
                    None
                }
            },
        },
    }
}

impl AppState {
    /// Saves the editor's draft as card id `new_id` when it had none: a draft
    /// with a title and a column enqueues the save and confirms it with a
    /// toast; any other draft changes nothing.
    pub fn save_card_with_id(&mut self, draft: CardDraft, new_id: String, now_ms: u64)
        requires
            old(self).wf(),
            old(self).can_post(),
        ensures
            final(self).wf(),
            rest_same(*old(self), *final(self)),
            final(self).queue.in_flight == old(self).queue.in_flight,
            final(self).queue.completed@ == old(self).queue.completed@,
            draft_ok(draft) ==> {
                &&& final(self).queue.pending@ == old(self).queue.pending@.push(DbAction::SaveCard(draft_card(draft, new_id)))
                &&& final(self).queue.enqueued@ == old(self).queue.enqueued@.push(DbAction::SaveCard(draft_card(draft, new_id)))
                &&& posted(old(self).notifications, final(self).notifications, "Task saved"@, ToastKind::Success, now_ms)
            },
            !draft_ok(draft) ==> final(self).queue == old(self).queue
                && final(self).notifications == old(self).notifications,
    {
        if !is_blank(draft.title.as_str()) && !draft.column_id.as_str().is_empty() {
            let id = match draft.card_id {
                Some(id) => id,
                None => new_id,
            };
            let card = Card {
                id,
                column_id: draft.column_id,
                title: draft.title,
                description: draft.description,
                position: SAVED_CARD_POSITION,
                priority: draft.priority,
            };
            self.queue(DbAction::SaveCard(card));
            self.show_toast("Task saved", ToastKind::Success, now_ms);
        }
    }

    /// Saves the editor's draft; a new card gets a fresh random id. Whatever
    /// the id, a draft with a title and a column enqueues exactly one save of
    /// its fields and confirms it with a toast; any other draft changes
    /// nothing.
    pub fn save_card(&mut self, draft: CardDraft, now_ms: u64)
        requires
            old(self).wf(),
            old(self).can_post(),
        ensures
            final(self).wf(),
            rest_same(*old(self), *final(self)),
            final(self).queue.in_flight == old(self).queue.in_flight,
            final(self).queue.completed@ == old(self).queue.completed@,
            draft_ok(draft) ==> exists|c: Card| {
                &&& c == draft_card(draft, c.id)
                &&& draft.card_id is None ==> c.id@.len() == 36
                &&& final(self).queue.pending@ == old(self).queue.pending@.push(DbAction::SaveCard(c))
                &&& final(self).queue.enqueued@ == old(self).queue.enqueued@.push(DbAction::SaveCard(c))
            },
            draft_ok(draft) ==> posted(old(self).notifications, final(self).notifications, "Task saved"@, ToastKind::Success, now_ms),
            !draft_ok(draft) ==> final(self).queue == old(self).queue
                && final(self).notifications == old(self).notifications,
    {
        let new_id = if draft.card_id.is_none() {
            new_id()
        } else {
            String::new()
        };
        let ghost c = draft_card(draft, new_id);
        self.save_card_with_id(draft, new_id, now_ms);
        assert(c == draft_card(draft, c.id));
    }
}

impl AppState {
    /// Creates a board named after the board form, unless the name is blank;
    /// the form is cleared.
    pub fn create_board(&mut self, now_ms: u64)
        requires
            old(self).wf(),
            old(self).can_post(),
        ensures
            final(self).wf(),
            same_views(*old(self), *final(self)),
            !blank(old(self).new_board_name@) ==> {
                &&& final(self).queue.pending@ == old(self).queue.pending@.push(DbAction::CreateBoard(old(self).new_board_name))
                &&& final(self).queue.enqueued@ == old(self).queue.enqueued@.push(DbAction::CreateBoard(old(self).new_board_name))
                &&& final(self).queue.in_flight == old(self).queue.in_flight
                &&& final(self).queue.completed@ == old(self).queue.completed@
                &&& final(self).new_board_name@.len() == 0
                &&& posted(old(self).notifications, final(self).notifications, "Creating board..."@, ToastKind::Info, now_ms)
            },
            blank(old(self).new_board_name@) ==> final(self).queue == old(self).queue
                && final(self).notifications == old(self).notifications
                && final(self).new_board_name == old(self).new_board_name,
    {
        if !is_blank(self.new_board_name.as_str()) {
            let name = self.new_board_name.clone();
            self.queue(DbAction::CreateBoard(name));
            self.new_board_name = String::new();
            self.show_toast("Creating board...", ToastKind::Info, now_ms);
        }
    }

    /// Deletes board `id`.
    pub fn delete_board(&mut self, id: String)
        requires
            old(self).wf(),
        ensures
            final(self).wf(),
            rest_same(*old(self), *final(self)),
            final(self).notifications == old(self).notifications,
            final(self).queue.pending@ == old(self).queue.pending@.push(DbAction::DeleteBoard(id)),
            final(self).queue.enqueued@ == old(self).queue.enqueued@.push(DbAction::DeleteBoard(id)),
            final(self).queue.in_flight == old(self).queue.in_flight,
            final(self).queue.completed@ == old(self).queue.completed@,
    {
        self.queue(DbAction::DeleteBoard(id));
    }

    /// Shows board `id`.
    pub fn open_board(&mut self, id: String)
        ensures
            final(self).route == (Route::PmBoard { board_id: id }),
            final(self).queue == old(self).queue,
            final(self).notifications == old(self).notifications,
            final(self).pm_data == old(self).pm_data,
    {
        self.route = Route::PmBoard { board_id: id };
    }

    /// Stores a board read from the store.
    pub fn board_loaded(&mut self, data: KanbanBoardData)
        ensures
            final(self).pm_data == Some(data),
            final(self).route == old(self).route,
            final(self).queue == old(self).queue,
            final(self).notifications == old(self).notifications,
    {
        self.pm_data = Some(data);
    }

    /// Pointer down on a card of the board: a double click opens the card's
    /// editor, any other press starts a drag (see `BoardInteraction::press`).
    pub fn press_card(&mut self, card: Card, at: Point, now_ms: u64)
        ensures
            crate::click::completes_double(old(self).board.clicks.last, card.id@, now_ms) ==> {
                &&& final(self).card_editor == Some(edit_draft(card))
                &&& final(self).board.session is Idle
                &&& final(self).board.clicks.last is None
            },
            !crate::click::completes_double(old(self).board.clicks.last, card.id@, now_ms) ==> {
                &&& final(self).card_editor == old(self).card_editor
                &&& final(self).board.session == (DragSession::Dragging {
                    card,
                    source_container: card.column_id,
                    press_point: at,
                    live_pointer: at,
                    armed: false,
                })
                &&& final(self).board.clicks.last == Some(ClickRecord { item_id: card.id, at_ms: now_ms })
            },
            final(self).board.hovered_column == old(self).board.hovered_column,
            final(self).board.hovered_card == old(self).board.hovered_card,
            *final(self) == (AppState { board: final(self).board, card_editor: final(self).card_editor, ..*old(self) }),
    {
        match self.board.press(card, at, now_ms) {
            PressOutcome::OpenEditor(c) => {
                self.card_editor = Some(CardDraft {
                    card_id: Some(c.id),
                    column_id: c.column_id,
                    title: c.title,
                    description: c.description,
                    priority: c.priority,
                });
            },
            PressOutcome::DragStarted => {},
        }
    }

    /// Opens the editor on a new card in column `column_id`.
    pub fn open_create(&mut self, column_id: String)
        ensures
            final(self).card_editor matches Some(d) && is_new_draft(d, column_id@),
            final(self).queue == old(self).queue,
            final(self).notifications == old(self).notifications,
            same_views(*old(self), *final(self)),
    {
        self.card_editor = Some(new_draft(column_id));
    }

    /// Opens the editor on a new card in the column chosen by
    /// `global_create_column`; without a loaded board, or when that column
    /// has no id, reports that no column is available.
    pub fn open_global_create(&mut self, now_ms: u64)
        requires
            old(self).wf(),
            old(self).can_post(),
        ensures
            final(self).wf(),
            final(self).queue == old(self).queue,
            same_views(*old(self), *final(self)),
            ({
                let target = match old(self).pm_data {
                    Some(d) => global_create_column(d.columns@),
                    None => None,
                };
                match target {
                    Some(col) if col@.len() > 0 => {
                        &&& final(self).card_editor matches Some(d) && is_new_draft(d, col@)
                        &&& final(self).notifications == old(self).notifications
                    },
                    _ => {
                        &&& final(self).card_editor == old(self).card_editor
                        &&& posted(old(self).notifications, final(self).notifications, "No columns available to create task"@, ToastKind::Error, now_ms)
                    },
                }
            }),
    {
        let target = match &self.pm_data {
            Some(d) => pick_global_create_column(&d.columns),
            None => None,
        };
        match target {
            Some(col) => {
                if !col.as_str().is_empty() {
                    self.card_editor = Some(new_draft(col));
                } else {
                    self.show_toast("No columns available to create task", ToastKind::Error, now_ms);
                }
            },
            None => {
                self.show_toast("No columns available to create task", ToastKind::Error, now_ms);
            },
        }
    }

    /// Opens the editor on `card`.
    pub fn open_edit(&mut self, card: Card)
        ensures
            final(self).card_editor == Some(edit_draft(card)),
            final(self).queue == old(self).queue,
            final(self).notifications == old(self).notifications,
            same_views(*old(self), *final(self)),
    {
        self.card_editor = Some(CardDraft {
            card_id: Some(card.id),
            column_id: card.column_id,
            title: card.title,
            description: card.description,
            priority: card.priority,
        });
    }

    /// Closes the editor without saving.
    pub fn cancel_edit(&mut self)
        ensures
            final(self).card_editor is None,
            final(self).queue == old(self).queue,
            final(self).notifications == old(self).notifications,
            same_views(*old(self), *final(self)),
    {
        self.card_editor = None;
    }

    /// Edits the draft's title, description or priority; without an open
    /// editor nothing changes.
    pub fn edit_draft_fields(&mut self, title: Option<String>, description: Option<String>, priority: Option<String>)
        ensures
            final(self).queue == old(self).queue,
            final(self).notifications == old(self).notifications,
            same_views(*old(self), *final(self)),
            match old(self).card_editor {
                Some(d) => final(self).card_editor == Some(CardDraft {
                    title: match title { Some(t) => t, None => d.title },
                    description: match description { Some(t) => t, None => d.description },
                    priority: match priority { Some(t) => t, None => d.priority },
                    ..d
                }),
                None => final(self).card_editor is None,
            },
    {
        if let Some(d) = self.card_editor.take() {
            let CardDraft { card_id, column_id, title: t0, description: d0, priority: p0 } = d;
            self.card_editor = Some(CardDraft {
                card_id,
                column_id,
                title: match title { Some(t) => t, None => t0 },
                description: match description { Some(t) => t, None => d0 },
                priority: match priority { Some(t) => t, None => p0 },
            });
        }
    }

    /// Saves the open draft (see `save_card`) and closes the editor.
    pub fn save_edit(&mut self, now_ms: u64)
        requires
            old(self).wf(),
            old(self).can_post(),
        ensures
            final(self).wf(),
            final(self).card_editor is None,
            same_views(*old(self), *final(self)),
            final(self).queue.in_flight == old(self).queue.in_flight,
            final(self).queue.completed@ == old(self).queue.completed@,
            match old(self).card_editor {
                Some(d) => {
                    &&& draft_ok(d) ==> exists|c: Card| {
                        &&& c == draft_card(d, c.id)
                        &&& d.card_id is None ==> c.id@.len() == 36
                        &&& final(self).queue.pending@ == old(self).queue.pending@.push(DbAction::SaveCard(c))
                    }
                    &&& draft_ok(d) ==> posted(old(self).notifications, final(self).notifications, "Task saved"@, ToastKind::Success, now_ms)
                    &&& !draft_ok(d) ==> final(self).queue == old(self).queue
                        && final(self).notifications == old(self).notifications
                },
                None => final(self).queue == old(self).queue
                    && final(self).notifications == old(self).notifications,
            },
    {
        if let Some(d) = self.card_editor.take() {
            self.save_card(d, now_ms);
        }
    }

    /// Deletes the card open in the editor, if it exists in the store, and
    /// closes the editor.
    pub fn delete_edit(&mut self)
        requires
            old(self).wf(),
        ensures
            final(self).wf(),
            final(self).card_editor is None,
            same_views(*old(self), *final(self)),
            final(self).notifications == old(self).notifications,
            match old(self).card_editor {
                Some(CardDraft { card_id: Some(id), .. }) => {
                    &&& final(self).queue.pending@ == old(self).queue.pending@.push(DbAction::DeleteCard(id))
                    &&& final(self).queue.enqueued@ == old(self).queue.enqueued@.push(DbAction::DeleteCard(id))
                    &&& final(self).queue.in_flight == old(self).queue.in_flight
                    &&& final(self).queue.completed@ == old(self).queue.completed@
                },
                _ => final(self).queue == old(self).queue,
            },
    {
        if let Some(d) = self.card_editor.take() {
            if let Some(id) = d.card_id {
                self.queue(DbAction::DeleteCard(id));
            }
        }
    }
}

} // verus!
