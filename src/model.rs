use vstd::prelude::*;

use crate::text::{ends_with, has_suffix};

verus! {

/// What a workspace project holds, as told by its file extension.
#[derive(Debug, Clone, Copy, PartialEq, Eq, Structural)]
pub enum ProjectKind {
    Universe,
    Novel,
    Board,
}

/// A workspace project as listed by the launcher. Times are milliseconds
/// since the Unix epoch.
#[derive(Debug, Clone, PartialEq)]
pub struct Project {
    pub id: String,
    pub name: String,
    pub path: String,
    pub last_opened_ms: i64,
    pub created_at_ms: i64,
}

/// The kind of project stored at `path`, by its extension.
pub open spec fn kind_of_path(path: Seq<char>) -> ProjectKind {
    if has_suffix(path, ".novel"@) {
        ProjectKind::Novel
    } else if has_suffix(path, ".pmboard"@) {
        ProjectKind::Board
    } else {
        ProjectKind::Universe
    }
}

impl Project {
    pub fn get_kind(&self) -> (r: ProjectKind)
        ensures
            r == kind_of_path(self.path@),
    {
        if ends_with(self.path.as_str(), ".novel") {
            ProjectKind::Novel
        } else if ends_with(self.path.as_str(), ".pmboard") {
            ProjectKind::Board
        } else {
            ProjectKind::Universe
        }
    }
}

impl Default for ProjectKind {
    /// A project is a universe unless its extension says otherwise.
    fn default() -> (r: ProjectKind)
        ensures
            r == ProjectKind::Universe,
    {
        ProjectKind::Universe
    }
}

#[derive(Debug, Clone, PartialEq)]
pub struct Universe {
    pub id: String,
    pub name: String,
    pub description: String,
    pub archived: bool,
}

#[derive(Debug, Clone, PartialEq)]
pub struct Creature {
    pub id: String,
    pub name: String,
    pub kind: String,
    pub habitat: String,
    pub description: String,
    pub danger: String,
    pub home_location_id: Option<String>,
    pub archived: bool,
}

#[derive(Debug, Clone, PartialEq)]
pub struct Location {
    pub id: String,
    pub universe_id: String,
    pub parent_id: Option<String>,
    pub name: String,
    pub description: String,
    pub kind: String,
}

#[derive(Debug, Clone, PartialEq)]
pub struct TimelineEra {
    pub id: String,
    pub universe_id: String,
    pub name: String,
    pub start_year: i64,
    pub end_year: Option<i64>,
    pub description: String,
    pub color: String,
}

#[derive(Debug, Clone, PartialEq)]
pub struct TimelineEvent {
    pub id: String,
    pub universe_id: String,
    pub title: String,
    pub description: String,
    pub year: i64,
    pub display_date: String,
    pub importance: String,
    pub kind: String,
    pub color: String,
    pub location_id: Option<String>,
}

#[derive(Debug, Clone, PartialEq)]
pub struct Board {
    pub id: String,
    pub name: String,
    pub kind: String,
}

#[derive(Debug, Clone, PartialEq)]
pub struct BoardColumn {
    pub id: String,
    pub board_id: String,
    pub name: String,
    pub position: i32,
}

/// A kanban card. `position` is a fractional ordering key held as integer
/// ticks (see `position::TICKS_PER_UNIT`).
#[derive(Debug, Clone, PartialEq)]
pub struct Card {
    pub id: String,
    pub column_id: String,
    pub title: String,
    pub description: String,
    pub position: u64,
    pub priority: String,
}

/// A board as loaded for display: its columns in order, each with its cards
/// in display order.
#[derive(Debug, Clone)]
pub struct KanbanBoardData {
    pub board: Board,
    pub columns: Vec<(BoardColumn, Vec<Card>)>,
}

#[derive(Debug, Clone, PartialEq)]
pub struct Story {
    pub id: String,
    pub universe_id: String,
    pub title: String,
    pub synopsis: String,
    pub status: String,
}

#[derive(Debug, Clone, PartialEq)]
pub struct Scene {
    pub id: String,
    pub story_id: String,
    pub title: String,
    pub body: String,
    pub position: i64,
    pub status: String,
    pub word_count: i64,
}

#[derive(Debug, Clone, PartialEq)]
pub struct UniverseSnapshot {
    pub id: String,
    pub universe_id: String,
    pub name: String,
    pub created_at: String,
}

} // verus!
