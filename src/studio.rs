use vstd::prelude::*;

use crate::click::ClickDisambiguator;
use crate::drag::{BoardInteraction, Point};
use crate::bestiary::CreatureDraft;
use crate::locations::LocationDraft;
use crate::timeline::{EraDraft, EventDraft};
use crate::model::{Creature, KanbanBoardData, Location, Scene, Story, TimelineEvent};
use crate::pm::CardDraft;
use crate::queue::{DbAction, DemoResetScope, MutationQueue};
use crate::toast::{posted, NotificationCenter, ToastKind};

verus! {

/// The page on screen.
#[derive(Debug, Clone)]
pub enum Route {
    Overview,
    Workspaces,
    UniverseList,
    UniverseDetail { universe_id: String },
    Bestiary { universe_id: String },
    Locations { universe_id: String },
    Timeline { universe_id: String },
    PmList,
    PmBoard { board_id: String },
    Forge,
    Assets,
    Account,
}

pub open spec fn title_of(route: Route) -> Seq<char> {
    match route {
        Route::Overview => "Overview"@,
        Route::Workspaces => "Workspaces"@,
        Route::UniverseList | Route::UniverseDetail { .. } | Route::Bestiary { .. }
        | Route::Locations { .. } | Route::Timeline { .. } => "Universe"@,
        Route::PmList | Route::PmBoard { .. } => "PM Tools"@,
        Route::Forge => "The Forge"@,
        Route::Assets => "Assets"@,
        Route::Account => "Account"@,
    }
}

impl Route {
    /// The title of the header bar on this page.
    pub fn header_title(&self) -> (r: &'static str)
        ensures
            r@ == title_of(*self),
    {
        match self {
            Route::Overview => "Overview",
            Route::Workspaces => "Workspaces",
            Route::UniverseList | Route::UniverseDetail { .. } | Route::Bestiary { .. }
            | Route::Locations { .. } | Route::Timeline { .. } => "Universe",
            Route::PmList | Route::PmBoard { .. } => "PM Tools",
            Route::Forge => "The Forge",
            Route::Assets => "Assets",
            Route::Account => "Account",
        }
    }
}

/// A read the UI asks the store for, to refill a cached view.
#[derive(Debug, Clone, PartialEq)]
pub enum Fetch {
    Projects,
    Universes,
    Boards,
    KanbanBoard(String),
    Creatures(String),
    Locations(String),
    Timeline(String),
    Stories(String),
    Scenes(String),
    SchemaVersion,
    Snapshots(String),
    Integrity(String),
}

/// What the scheduler asks for after an event: whether the in-flight slot
/// was just filled (the caller then submits `queue.in_flight` to the store),
/// and the reads to run.
#[derive(Debug)]
pub struct EventTasks {
    pub dispatch: bool,
    pub fetches: Vec<Fetch>,
}

/// The event sources the UI listens to, each only while it is needed.
#[derive(Debug, Clone, Copy, PartialEq, Eq, Structural)]
pub struct Subscriptions {
    /// Pointer moves and releases anywhere in the window.
    pub pointer_capture: bool,
    /// The once-a-second tick that expires toasts.
    pub toast_tick: bool,
}

/// Whether a view cached for `loaded` must be fetched for universe `uid`.
pub open spec fn stale_for(loaded: Option<String>, uid: String) -> bool {
    match loaded {
        Some(u) => u@ != uid@,
        None => true,
    }
}

/// `f` when `b` holds, else nothing.
pub open spec fn fetch_if(b: bool, f: Fetch) -> Seq<Fetch> {
    if b {
        seq![f]
    } else {
        Seq::empty()
    }
}

/// The reads that the page on screen needs, given what is cached.
pub open spec fn route_fetches(s: AppState) -> Seq<Fetch> {
    match s.route {
        Route::UniverseList => seq![Fetch::Universes],
        Route::PmList => seq![Fetch::Boards],
        Route::PmBoard { board_id } => fetch_if(
            match s.pm_data {
                Some(d) => d.board.id@ != board_id@,
                None => true,
            },
            Fetch::KanbanBoard(board_id),
        ),
        Route::Bestiary { universe_id } => fetch_if(
            stale_for(s.loaded_creatures_universe, universe_id),
            Fetch::Creatures(universe_id),
        ) + seq![Fetch::Locations(universe_id)],
        Route::Locations { universe_id } => fetch_if(
            stale_for(s.loaded_locations_universe, universe_id),
            Fetch::Locations(universe_id),
        ),
        Route::Timeline { universe_id } => fetch_if(
            stale_for(s.loaded_timeline_universe, universe_id),
            Fetch::Timeline(universe_id),
        ) + seq![Fetch::Locations(universe_id)],
        Route::Forge => match s.loaded_forge_universe {
            Some(u) => seq![Fetch::Stories(u)] + match s.active_story_id {
                Some(st) => seq![Fetch::Scenes(st)],
                None => Seq::empty(),
            },
            None => Seq::empty(),
        },
        Route::UniverseDetail { universe_id } => fetch_if(
            s.debug_overlay_open && s.debug_schema_version is None,
            Fetch::SchemaVersion,
        ) + fetch_if(
            stale_for(s.loaded_snapshots_universe, universe_id),
            Fetch::Snapshots(universe_id),
        ) + fetch_if(s.integrity_busy, Fetch::Integrity(universe_id)),
        _ => Seq::empty(),
    }
}

/// What a visit to a universe's page records as loaded: its snapshot list
/// (when it was stale) and the universe the Forge works in.
pub open spec fn detail_visit(s: AppState) -> (Option<String>, Option<String>) {
    match s.route {
        Route::UniverseDetail { universe_id } => (
            if stale_for(s.loaded_snapshots_universe, universe_id) {
                Some(universe_id)
            } else {
                s.loaded_snapshots_universe
            },
            Some(universe_id),
        ),
        _ => (s.loaded_snapshots_universe, s.loaded_forge_universe),
    }
}

/// The success message of a scoped demo-data reset.
pub open spec fn reset_message(scope: DemoResetScope) -> Seq<char> {
    match scope {
        DemoResetScope::All => "Demo reset complete: Bestiary(7), Locations(7), Timeline(5 eras/15 events), PM Tools(6 cards)"@,
        DemoResetScope::Timeline => "Timeline reset complete: 5 eras / 15 events"@,
        DemoResetScope::Locations => "Locations reset complete: 7 locations"@,
        DemoResetScope::Bestiary => "Bestiary reset complete: 7 creatures"@,
        DemoResetScope::PmTools => "PM Tools reset complete: 6 cards"@,
    }
}

fn reset_message_text(scope: DemoResetScope) -> (r: &'static str)
    ensures
        r@ == reset_message(scope),
{
    match scope {
        DemoResetScope::All => "Demo reset complete: Bestiary(7), Locations(7), Timeline(5 eras/15 events), PM Tools(6 cards)",
        DemoResetScope::Timeline => "Timeline reset complete: 5 eras / 15 events",
        DemoResetScope::Locations => "Locations reset complete: 7 locations",
        DemoResetScope::Bestiary => "Bestiary reset complete: 7 creatures",
        DemoResetScope::PmTools => "PM Tools reset complete: 6 cards",
    }
}

/// The success toast a completed command earns, if its category has one.
pub open spec fn completion_message(cmd: Option<DbAction>) -> Option<Seq<char>> {
    match cmd {
        Some(DbAction::ResetDemoDataScoped(_, scope)) => Some(reset_message(scope)),
        Some(DbAction::InjectDemoData(_)) => Some("Demo data injected"@),
        _ => None,
    }
}

/// The application context: route, write queue, toasts, what each cached
/// view was loaded for, and the pointer state of every clickable surface.
pub struct AppState {
    pub route: Route,
    pub queue: MutationQueue,
    pub notifications: NotificationCenter,
    // what each cached view was loaded for
    pub data_dirty: bool,
    pub loaded_creatures_universe: Option<String>,
    pub loaded_locations_universe: Option<String>,
    pub loaded_timeline_universe: Option<String>,
    pub loaded_snapshots_universe: Option<String>,
    pub loaded_forge_universe: Option<String>,
    pub pm_data: Option<KanbanBoardData>,
    // pointer state of each surface
    pub board: BoardInteraction,
    pub bestiary_clicks: ClickDisambiguator,
    pub location_clicks: ClickDisambiguator,
    pub timeline_clicks: ClickDisambiguator,
    // loaded data and editors
    pub creatures: Vec<Creature>,
    pub creature_editor: Option<CreatureDraft>,
    pub locations: Vec<Location>,
    pub location_editor: Option<LocationDraft>,
    pub selected_location: Option<String>,
    pub expanded_locations: Vec<String>,
    pub timeline_events: Vec<TimelineEvent>,
    pub event_editor: Option<EventDraft>,
    pub era_editor: Option<EraDraft>,
    pub new_board_name: String,
    pub card_editor: Option<CardDraft>,
    pub stories: Vec<Story>,
    pub active_story_id: Option<String>,
    pub active_story_scenes: Vec<Scene>,
    pub active_scene_id: Option<String>,
    pub forge_content: String,
    // forms and panels
    pub new_universe_name: String,
    pub new_universe_desc: String,
    pub pending_demo_reset: Option<(String, DemoResetScope)>,
    pub dev_panel_open: bool,
    pub snapshot_name: String,
    pub is_creating_project: bool,
    pub new_project_name: String,
    pub debug_overlay_open: bool,
    pub debug_schema_version: Option<i64>,
    pub integrity_busy: bool,
}

impl Default for AppState {
    /// The state at start-up (see `AppState::new`).
    fn default() -> (r: AppState)
        ensures
            r.wf(),
            r.can_post(),
            r.route is Overview,
            r.queue.pending@.len() == 0,
            r.queue.in_flight is None,
            r.notifications.toasts@.len() == 0,
            r.notifications.counter == 0,
            r.board.session is Idle,
            r.board.hovered_column is None,
            r.board.hovered_card is None,
            r.board.clicks.last is None,
            r.bestiary_clicks.last is None,
            r.location_clicks.last is None,
            r.timeline_clicks.last is None,
    {
        AppState::new()
    }
}

/// `after` shows the same page, with the same cached views, as `before`.
pub open spec fn same_views(before: AppState, after: AppState) -> bool {
    &&& after.route == before.route
    &&& after.data_dirty == before.data_dirty
    &&& after.loaded_creatures_universe == before.loaded_creatures_universe
    &&& after.loaded_locations_universe == before.loaded_locations_universe
    &&& after.loaded_timeline_universe == before.loaded_timeline_universe
    &&& after.loaded_snapshots_universe == before.loaded_snapshots_universe
    &&& after.loaded_forge_universe == before.loaded_forge_universe
    &&& after.pm_data == before.pm_data
}

fn stale(loaded: &Option<String>, uid: &String) -> (r: bool)
    ensures
        r == stale_for(*loaded, *uid),
{
    match loaded {
        Some(u) => *u != *uid,
        None => true,
    }
}

/// `after` differs from `before` in its queue and toasts alone, forms and
/// pointer state included.
pub open spec fn rest_same(before: AppState, after: AppState) -> bool {
    &&& same_views(before, after)
    &&& after.board == before.board
    &&& after.bestiary_clicks == before.bestiary_clicks
    &&& after.location_clicks == before.location_clicks
    &&& after.timeline_clicks == before.timeline_clicks
    &&& after.active_story_id == before.active_story_id
    &&& after.stories == before.stories
    &&& after.active_story_scenes == before.active_story_scenes
    &&& after.active_scene_id == before.active_scene_id
    &&& after.forge_content == before.forge_content
    &&& after.selected_location == before.selected_location
    &&& after.creatures == before.creatures
    &&& after.creature_editor == before.creature_editor
    &&& after.new_board_name == before.new_board_name
    &&& after.card_editor == before.card_editor
    &&& after.locations == before.locations
    &&& after.location_editor == before.location_editor
    &&& after.timeline_events == before.timeline_events
    &&& after.event_editor == before.event_editor
    &&& after.era_editor == before.era_editor
    &&& after.expanded_locations == before.expanded_locations
    &&& after.new_universe_name == before.new_universe_name
    &&& after.new_universe_desc == before.new_universe_desc
    &&& after.pending_demo_reset == before.pending_demo_reset
    &&& after.dev_panel_open == before.dev_panel_open
    &&& after.snapshot_name == before.snapshot_name
    &&& after.is_creating_project == before.is_creating_project
    &&& after.new_project_name == before.new_project_name
    &&& after.debug_overlay_open == before.debug_overlay_open
    &&& after.debug_schema_version == before.debug_schema_version
    &&& after.integrity_busy == before.integrity_busy
}

impl AppState {
    pub open spec fn wf(&self) -> bool {
        &&& self.queue.wf()
        &&& self.notifications.wf()
    }

    /// Room for another toast id.
    pub open spec fn can_post(&self) -> bool {
        self.notifications.counter < u64::MAX
    }

    pub fn new() -> (r: AppState)
        ensures
            r.wf(),
            r.can_post(),
            r.route is Overview,
            r.queue.pending@.len() == 0,
            r.queue.in_flight is None,
            r.notifications.toasts@.len() == 0,
            r.notifications.counter == 0,
            r.queue.enqueued@.len() == 0,
            r.queue.completed@.len() == 0,
            r.board.session is Idle,
            r.board.hovered_column is None,
            r.board.hovered_card is None,
            r.board.clicks.last is None,
            r.bestiary_clicks.last is None,
            r.location_clicks.last is None,
            r.timeline_clicks.last is None,
            r.card_editor is None,
            r.creature_editor is None,
            r.location_editor is None,
            r.event_editor is None,
            r.era_editor is None,
            r.pm_data is None,
            !r.data_dirty,
    {
        AppState {
            route: Route::Overview,
            queue: MutationQueue::new(),
            notifications: NotificationCenter::new(),
            data_dirty: false,
            loaded_creatures_universe: None,
            loaded_locations_universe: None,
            loaded_timeline_universe: None,
            loaded_snapshots_universe: None,
            loaded_forge_universe: None,
            pm_data: None,
            board: BoardInteraction::new(),
            bestiary_clicks: ClickDisambiguator::new(),
            location_clicks: ClickDisambiguator::new(),
            timeline_clicks: ClickDisambiguator::new(),
            active_story_id: None,
            stories: Vec::new(),
            active_story_scenes: Vec::new(),
            active_scene_id: None,
            forge_content: String::new(),
            selected_location: None,
            creatures: Vec::new(),
            creature_editor: None,
            new_board_name: String::new(),
            card_editor: None,
            locations: Vec::new(),
            location_editor: None,
            timeline_events: Vec::new(),
            event_editor: None,
            era_editor: None,
            expanded_locations: Vec::new(),
            new_universe_name: String::new(),
            new_universe_desc: String::new(),
            pending_demo_reset: None,
            dev_panel_open: true,
            snapshot_name: String::new(),
            is_creating_project: false,
            new_project_name: String::new(),
            debug_overlay_open: false,
            debug_schema_version: None,
            integrity_busy: false,
        }
    }

    /// Enqueues a write.
    pub fn queue(&mut self, action: DbAction)
        requires
            old(self).wf(),
        ensures
            final(self).wf(),
            final(self).queue.pending@ == old(self).queue.pending@.push(action),
            final(self).queue.in_flight == old(self).queue.in_flight,
            final(self).queue.enqueued@ == old(self).queue.enqueued@.push(action),
            final(self).queue.completed@ == old(self).queue.completed@,
            final(self).notifications == old(self).notifications,
            rest_same(*old(self), *final(self)),
    {
        self.queue.enqueue(action);
    }

    /// Posts a toast made of `msg`; returns its id.
    pub fn show_toast(&mut self, msg: &str, kind: ToastKind, now_ms: u64) -> (id: u64)
        requires
            old(self).wf(),
            old(self).can_post(),
        ensures
            final(self).wf(),
            id == final(self).notifications.counter,
            posted(old(self).notifications, final(self).notifications, msg@, kind, now_ms),
            final(self).queue == old(self).queue,
            rest_same(*old(self), *final(self)),
    {
        let text = <String as StringExecFns>::from_str(msg);
        self.notifications.post(text, kind, now_ms)
    }

    /// The store finished the in-flight write with `result`. The slot is
    /// cleared either way. On success every cached view is marked stale and a
    /// bulk command (a demo-data reset or injection) earns its success toast;
    /// on failure an error toast carries the message and the caches stay.
    pub fn handle_action_done(&mut self, result: &Result<(), String>, now_ms: u64)
        requires
            old(self).wf(),
            old(self).can_post(),
        ensures
            final(self).wf(),
            final(self).queue.in_flight is None,
            final(self).queue.pending@ == old(self).queue.pending@,
            final(self).queue.enqueued@ == old(self).queue.enqueued@,
            final(self).queue.completed@ == old(self).queue.completed@ + crate::queue::slot(old(self).queue.in_flight),
            final(self).route == old(self).route,
            final(self).loaded_forge_universe == old(self).loaded_forge_universe,
            match result {
                Ok(_) => {
                    &&& final(self).data_dirty
                    &&& final(self).loaded_creatures_universe is None
                    &&& final(self).loaded_locations_universe is None
                    &&& final(self).loaded_timeline_universe is None
                    &&& final(self).loaded_snapshots_universe is None
                    &&& final(self).pm_data is None
                    &&& match completion_message(old(self).queue.in_flight) {
                        Some(m) => posted(old(self).notifications, final(self).notifications, m, ToastKind::Success, now_ms),
                        None => final(self).notifications == old(self).notifications,
                    }
                },
                Err(e) => {
                    &&& same_views(*old(self), *final(self))
                    &&& posted(old(self).notifications, final(self).notifications, "Action failed: "@ + e@, ToastKind::Error, now_ms)
                },
            },
    {
        let done = self.queue.complete();
        match result {
            Ok(_) => {
                self.data_dirty = true;
                self.loaded_creatures_universe = None;
                self.loaded_locations_universe = None;
                self.loaded_timeline_universe = None;
                self.loaded_snapshots_universe = None;
                self.pm_data = None;
                match done {
                    Some(DbAction::ResetDemoDataScoped(_, scope)) => {
                        let msg = reset_message_text(scope);
                        self.show_toast(msg, ToastKind::Success, now_ms);
                    },
                    Some(DbAction::InjectDemoData(_)) => {
                        self.show_toast("Demo data injected", ToastKind::Success, now_ms);
                    },
                    _ => {},
                }
            },
            Err(e) => {
                let mut text = <String as StringExecFns>::from_str("Action failed: ");
                text.append(e.as_str());
                self.notifications.post(text, ToastKind::Error, now_ms);
            },
        }
    }

    /// The scheduler step run after every processed event, when the store is
    /// open (`db_ready`). Fills the in-flight slot from the backlog when it is
    /// free. Once no write is outstanding, asks for the reads the page needs
    /// and records a visit to a universe's page. The project list is asked
    /// for whenever it is not known yet.
    pub fn post_event_tasks(&mut self, db_ready: bool, projects_known: bool) -> (r: EventTasks)
        requires
            old(self).wf(),
        ensures
            final(self).wf(),
            !db_ready ==> !r.dispatch && r.fetches@.len() == 0 && *final(self) == *old(self),
            db_ready ==> {
                &&& r.dispatch == (old(self).queue.in_flight is None && old(self).queue.pending@.len() > 0)
                &&& r.dispatch ==> final(self).queue.in_flight == Some(old(self).queue.pending@[0])
                    && final(self).queue.pending@ == old(self).queue.pending@.drop_first()
                &&& !r.dispatch ==> final(self).queue.in_flight == old(self).queue.in_flight
                    && final(self).queue.pending@ == old(self).queue.pending@
                &&& final(self).queue.enqueued@ == old(self).queue.enqueued@
                &&& final(self).queue.completed@ == old(self).queue.completed@
                &&& r.fetches@ == fetch_if(!projects_known, Fetch::Projects) + if final(self).queue.in_flight is None {
                    route_fetches(*old(self))
                } else {
                    Seq::empty()
                }
                &&& (final(self).loaded_snapshots_universe, final(self).loaded_forge_universe) == if final(self).queue.in_flight is None {
                    detail_visit(*old(self))
                } else {
                    (old(self).loaded_snapshots_universe, old(self).loaded_forge_universe)
                }
                &&& final(self).notifications == old(self).notifications
                &&& final(self).route == old(self).route
                &&& final(self).pm_data == old(self).pm_data
                &&& final(self).data_dirty == old(self).data_dirty
                &&& final(self).loaded_creatures_universe == old(self).loaded_creatures_universe
                &&& final(self).loaded_locations_universe == old(self).loaded_locations_universe
                &&& final(self).loaded_timeline_universe == old(self).loaded_timeline_universe
            },
    {
        let mut fetches: Vec<Fetch> = Vec::new();
        if !db_ready {
            return EventTasks { dispatch: false, fetches };
        }
        if !projects_known {
            fetches.push(Fetch::Projects);
        }
        let dispatch = self.queue.drain_one();
        if self.queue.in_flight.is_none() {
            let mut more = self.route_fetches();
            fetches.append(&mut more);
            if let Route::UniverseDetail { universe_id } = &self.route {
                if stale(&self.loaded_snapshots_universe, universe_id) {
                    self.loaded_snapshots_universe = Some(universe_id.clone());
                }
                self.loaded_forge_universe = Some(universe_id.clone());
            }
        }
        EventTasks { dispatch, fetches }
    }

    /// A read of `f` came back successfully (its data is stored by the
    /// caller). Records which universe the creatures, locations or timeline
    /// now on hand belong to, when the page shows that universe's list; a
    /// finished integrity check clears the busy flag.
    pub fn mark_fetched(&mut self, f: &Fetch)
        requires
            old(self).wf(),
        ensures
            final(self).wf(),
            final(self).route == old(self).route,
            final(self).queue == old(self).queue,
            final(self).notifications == old(self).notifications,
            final(self).pm_data == old(self).pm_data,
            final(self).loaded_snapshots_universe == old(self).loaded_snapshots_universe,
            final(self).loaded_forge_universe == old(self).loaded_forge_universe,
            final(self).loaded_creatures_universe == match (f, old(self).route) {
                (Fetch::Creatures(_), Route::Bestiary { universe_id }) => Some(universe_id),
                _ => old(self).loaded_creatures_universe,
            },
            final(self).loaded_locations_universe == match (f, old(self).route) {
                (Fetch::Locations(_), Route::Locations { universe_id }) => Some(universe_id),
                _ => old(self).loaded_locations_universe,
            },
            final(self).loaded_timeline_universe == match (f, old(self).route) {
                (Fetch::Timeline(_), Route::Timeline { universe_id }) => Some(universe_id),
                _ => old(self).loaded_timeline_universe,
            },
            final(self).integrity_busy == (old(self).integrity_busy && !(f is Integrity)),
    {
        match (f, &self.route) {
            (Fetch::Creatures(_), Route::Bestiary { universe_id }) => {
                self.loaded_creatures_universe = Some(universe_id.clone());
            },
            (Fetch::Locations(_), Route::Locations { universe_id }) => {
                self.loaded_locations_universe = Some(universe_id.clone());
            },
            (Fetch::Timeline(_), Route::Timeline { universe_id }) => {
                self.loaded_timeline_universe = Some(universe_id.clone());
            },
            (Fetch::Integrity(_), _) => {
                self.integrity_busy = false;
            },
            _ => {},
        }
    }

    /// A read failed with message `e`: an error toast reports it, and a
    /// pending integrity check is no longer busy.
    pub fn fetch_failed(&mut self, e: &str, now_ms: u64)
        requires
            old(self).wf(),
            old(self).can_post(),
        ensures
            final(self).wf(),
            posted(old(self).notifications, final(self).notifications, "Error loading data: "@ + e@, ToastKind::Error, now_ms),
            !final(self).integrity_busy,
            final(self).queue == old(self).queue,
            same_views(*old(self), *final(self)),
    {
        let mut text = <String as StringExecFns>::from_str("Error loading data: ");
        text.append(e);
        self.notifications.post(text, ToastKind::Error, now_ms);
        self.integrity_busy = false;
    }

    /// The pointer moved to `p` (see `BoardInteraction::pointer_moved`).
    pub fn mouse_moved(&mut self, p: Point)
        ensures
            final(self).board.session == match old(self).board.session {
                crate::drag::DragSession::Idle => crate::drag::DragSession::Idle,
                crate::drag::DragSession::Dragging { card, source_container, press_point, armed, .. } =>
                    crate::drag::DragSession::Dragging {
                        card,
                        source_container,
                        press_point,
                        live_pointer: p,
                        armed: armed || crate::drag::beyond_threshold(press_point, p),
                    },
            },
            final(self).board.hovered_column == old(self).board.hovered_column,
            final(self).board.hovered_card == old(self).board.hovered_card,
            final(self).board.clicks == old(self).board.clicks,
            *final(self) == (AppState { board: final(self).board, ..*old(self) }),
    {
        self.board.pointer_moved(p);
    }

    /// The pointer was released: an armed drag over a column of the loaded
    /// board enqueues its move, and a rebalance when flagged (see
    /// `BoardInteraction::release`).
    pub fn mouse_released(&mut self)
        requires
            old(self).wf(),
        ensures
            final(self).wf(),
            final(self).board.session is Idle,
            final(self).board.hovered_column is None,
            final(self).board.hovered_card is None,
            final(self).queue.pending@ == old(self).queue.pending@ + crate::drag::release_commands(
                old(self).board.session,
                old(self).board.hovered_column,
                old(self).board.hovered_card,
                old(self).pm_data,
            ),
            final(self).queue.in_flight == old(self).queue.in_flight,
            final(self).queue.completed@ == old(self).queue.completed@,
            final(self).notifications == old(self).notifications,
            same_views(*old(self), *final(self)),
    {
        self.board.release(self.pm_data.as_ref(), &mut self.queue);
    }

    /// Drops the toasts that have expired at `now_ms`.
    pub fn tick(&mut self, now_ms: u64)
        requires
            old(self).wf(),
        ensures
            final(self).wf(),
            final(self).notifications.toasts@ == old(self).notifications.toasts@.filter(crate::toast::live_at(now_ms)),
            final(self).notifications.counter == old(self).notifications.counter,
            final(self).queue == old(self).queue,
            rest_same(*old(self), *final(self)),
    {
        self.notifications.tick(now_ms);
    }

    /// Dismisses toast `id`.
    pub fn dismiss_toast(&mut self, id: u64)
        requires
            old(self).wf(),
        ensures
            final(self).wf(),
            final(self).notifications.toasts@ == old(self).notifications.toasts@.filter(crate::toast::other_than(id)),
            final(self).notifications.counter == old(self).notifications.counter,
            final(self).queue == old(self).queue,
            rest_same(*old(self), *final(self)),
    {
        self.notifications.dismiss(id);
    }

    /// Global pointer events are captured only during a drag, and the toast
    /// tick runs only while a toast is up.
    pub fn subscriptions(&self) -> (r: Subscriptions)
        ensures
            r.pointer_capture == self.board.session is Dragging,
            r.toast_tick == (self.notifications.toasts@.len() > 0),
    {
        let pointer_capture = match &self.board.session {
            crate::drag::DragSession::Dragging { .. } => true,
            crate::drag::DragSession::Idle => false,
        };
        Subscriptions { pointer_capture, toast_tick: self.notifications.toasts.len() > 0 }
    }

    /// The reads the current page needs (see `route_fetches`).
    pub fn route_fetches(&self) -> (r: Vec<Fetch>)
        ensures
            r@ == route_fetches(*self),
    {
        let mut out: Vec<Fetch> = Vec::new();
        match &self.route {
            Route::UniverseList => {
                out.push(Fetch::Universes);
            },
            Route::PmList => {
                out.push(Fetch::Boards);
            },
            Route::PmBoard { board_id } => {
                let need = match &self.pm_data {
                    Some(d) => d.board.id != *board_id,
                    None => true,
                };
                if need {
                    out.push(Fetch::KanbanBoard(board_id.clone()));
                }
            },
            Route::Bestiary { universe_id } => {
                if stale(&self.loaded_creatures_universe, universe_id) {
                    out.push(Fetch::Creatures(universe_id.clone()));
                }
                out.push(Fetch::Locations(universe_id.clone()));
            },
            Route::Locations { universe_id } => {
                if stale(&self.loaded_locations_universe, universe_id) {
                    out.push(Fetch::Locations(universe_id.clone()));
                }
            },
            Route::Timeline { universe_id } => {
                if stale(&self.loaded_timeline_universe, universe_id) {
                    out.push(Fetch::Timeline(universe_id.clone()));
                }
                out.push(Fetch::Locations(universe_id.clone()));
            },
            Route::Forge => {
                if let Some(u) = &self.loaded_forge_universe {
                    out.push(Fetch::Stories(u.clone()));
                    if let Some(st) = &self.active_story_id {
                        out.push(Fetch::Scenes(st.clone()));
                    }
                }
            },
            Route::UniverseDetail { universe_id } => {
                if self.debug_overlay_open && self.debug_schema_version.is_none() {
                    out.push(Fetch::SchemaVersion);
                }
                if stale(&self.loaded_snapshots_universe, universe_id) {
                    out.push(Fetch::Snapshots(universe_id.clone()));
                }
                if self.integrity_busy {
                    out.push(Fetch::Integrity(universe_id.clone()));
                }
            },
            _ => {},
        }
        assert(out@ =~= route_fetches(*self));
        out
    }
}

} // verus!
