use vstd::prelude::*;

use crate::click::{completes_double, ClickRecord, Gesture};
use crate::ids::new_id;
use crate::locations::{find_loaded, loaded_location};
use crate::model::{Location, TimelineEra, TimelineEvent};
use crate::queue::DbAction;
use crate::studio::{rest_same, same_views, AppState, Route};
use crate::text::{blank, decimal_text, i64_text, is_blank, parse_i64, parsed_i64, trim, trimmed};
use crate::toast::{posted, ToastKind};
use crate::universe::queued;

verus! {

/// The event editor's content; `year_input` is the year as typed.
#[derive(Debug, Clone)]
pub struct EventDraft {
    pub id: Option<String>,
    pub title: String,
    pub year_input: String,
    pub display_date: String,
    pub importance: String,
    pub kind: String,
    pub color: String,
    pub location_id: Option<String>,
    pub description: String,
}

/// The era editor's content; years as typed, an empty end for an open era.
#[derive(Debug, Clone)]
pub struct EraDraft {
    pub id: Option<String>,
    pub name: String,
    pub start_input: String,
    pub end_input: String,
    pub color: String,
    pub description: String,
}

/// A typed year, or 0 when it does not parse.
pub open spec fn year_or_zero(s: Seq<char>) -> i64 {
    match parsed_i64(s) {
        Some(v) => v,
        None => 0,
    }
}

/// The universe a timeline entry is saved into: the timeline's on screen,
/// else none (empty id).
pub open spec fn timeline_universe(route: Route) -> Seq<char> {
    match route {
        Route::Timeline { universe_id } => universe_id@,
        _ => Seq::empty(),
    }
}

pub open spec fn saved_event(d: EventDraft, e: TimelineEvent, route: Route) -> bool {
    &&& (d.id matches Some(id) ==> e.id == id)
    &&& (d.id is None ==> e.id@.len() == 36)
    &&& e.universe_id@ == timeline_universe(route)
    &&& e.title@ == trimmed(d.title@)
    &&& e.description == d.description
    &&& e.year == year_or_zero(d.year_input@)
    &&& e.display_date@ == trimmed(d.display_date@)
    &&& e.importance == d.importance
    &&& e.kind == d.kind
    &&& e.color == d.color
    &&& e.location_id == d.location_id
}

pub open spec fn saved_era(d: EraDraft, e: TimelineEra, route: Route) -> bool {
    &&& (d.id matches Some(id) ==> e.id == id)
    &&& (d.id is None ==> e.id@.len() == 36)
    &&& e.universe_id@ == timeline_universe(route)
    &&& e.name@ == trimmed(d.name@)
    &&& e.start_year == year_or_zero(d.start_input@)
    &&& e.end_year == if blank(d.end_input@) {
        None
    } else {
        parsed_i64(d.end_input@)
    }
    &&& e.description == d.description
    &&& e.color == d.color
}

/// Index `i` holds the first event of `events` with id `id`.
pub open spec fn first_event(events: Seq<TimelineEvent>, id: Seq<char>, i: int) -> bool {
    &&& 0 <= i < events.len()
    &&& events[i].id@ == id
    &&& forall|j: int| 0 <= j < i ==> #[trigger] events[j].id@ != id
}

/// The index of the first event with id `id`, if any.
pub open spec fn event_index(events: Seq<TimelineEvent>, id: Seq<char>) -> Option<int> {
    if exists|i: int| first_event(events, id, i) {
        Some(choose|i: int| first_event(events, id, i))
    } else {
        None
    }
}

/// `d` is the editor's content for event `e`: its fields, the year written
/// in decimal, and its location when that location is loaded.
pub open spec fn is_event_draft_of(d: EventDraft, e: TimelineEvent, locs: Seq<Location>) -> bool {
    &&& d.id == Some(e.id)
    &&& d.title == e.title
    &&& d.year_input@ == decimal_text(e.year)
    &&& d.display_date == e.display_date
    &&& d.importance == e.importance
    &&& d.kind == e.kind
    &&& d.color == e.color
    &&& d.location_id == loaded_location(e.location_id, locs)
    &&& d.description == e.description
}

fn find_event(events: &Vec<TimelineEvent>, id: &String) -> (r: Option<usize>)
    ensures
        match r {
            Some(i) => event_index(events@, id@) == Some(i as int),
            None => event_index(events@, id@) is None,
        },
{
    let mut i: usize = 0;
    while i < events.len()
        invariant
            0 <= i <= events@.len(),
            forall|j: int| 0 <= j < i ==> #[trigger] events@[j].id@ != id@,
        decreases events@.len() - i,
    {
        if events[i].id == *id {
            proof {
                assert(first_event(events@, id@, i as int));
                let c = choose|c: int| first_event(events@, id@, c);
                if c < i {
                    assert(events@[c].id@ != id@);
                } else if c > i {
                    assert(events@[i as int].id@ != id@);
                }
            }
            return Some(i);
        }
        i += 1;
    }
    None
}

fn universe_of(route: &Route) -> (r: String)
    ensures
        r@ == timeline_universe(*route),
{
    match route {
        Route::Timeline { universe_id } => universe_id.clone(),
        _ => String::new(),
    }
}

impl AppState {
    /// An event card of the timeline was clicked; a double click opens the
    /// event in the editor. The timeline's click record follows
    /// `ClickDisambiguator::register`; nothing else changes.
    pub fn timeline_card_clicked(&mut self, event_id: String, now_ms: u64) -> (g: Gesture)
        ensures
            g == (if completes_double(old(self).timeline_clicks.last, event_id@, now_ms) {
                Gesture::Double
            } else {
                Gesture::Single
            }),
            g == Gesture::Double ==> final(self).timeline_clicks.last is None
                && match event_index(old(self).timeline_events@, event_id@) {
                    Some(i) => final(self).event_editor matches Some(d)
                        && is_event_draft_of(d, old(self).timeline_events@[i], old(self).locations@),
                    None => final(self).event_editor == old(self).event_editor,
                },
            g == Gesture::Single ==> final(self).timeline_clicks.last == Some(ClickRecord { item_id: event_id, at_ms: now_ms })
                && final(self).event_editor == old(self).event_editor,
            *final(self) == (AppState {
                timeline_clicks: final(self).timeline_clicks,
                event_editor: final(self).event_editor,
                ..*old(self)
            }),
    {
        let g = self.timeline_clicks.register(event_id.clone(), now_ms);
        if g == Gesture::Double {
            if let Some(i) = find_event(&self.timeline_events, &event_id) {
                let e = &self.timeline_events[i];
                let location_id = find_loaded(&e.location_id, &self.locations);
                self.event_editor = Some(EventDraft {
                    id: Some(e.id.clone()),
                    title: e.title.clone(),
                    year_input: i64_text(e.year),
                    display_date: e.display_date.clone(),
                    importance: e.importance.clone(),
                    kind: e.kind.clone(),
                    color: e.color.clone(),
                    location_id,
                    description: e.description.clone(),
                });
            }
        }
        g
    }

    /// Saves the event editor's draft; a draft without a title stays open.
    pub fn save_event(&mut self, now_ms: u64)
        requires
            old(self).wf(),
            old(self).can_post(),
        ensures
            final(self).wf(),
            same_views(*old(self), *final(self)),
            final(self).era_editor == old(self).era_editor,
            final(self).queue.in_flight == old(self).queue.in_flight,
            final(self).queue.completed@ == old(self).queue.completed@,
            match old(self).event_editor {
                Some(d) => if !blank(d.title@) {
                    &&& final(self).event_editor is None
                    &&& exists|e: TimelineEvent| #![auto] saved_event(d, e, old(self).route)
                        && queued(old(self).queue, final(self).queue, DbAction::SaveEvent(e))
                    &&& posted(old(self).notifications, final(self).notifications, "Event saved"@, ToastKind::Success, now_ms)
                } else {
                    &&& final(self).event_editor == Some(d)
                    &&& final(self).queue == old(self).queue
                    &&& final(self).notifications == old(self).notifications
                },
                None => final(self).queue == old(self).queue
                    && final(self).notifications == old(self).notifications
                    && final(self).event_editor is None,
            },
    {
        let editor = self.event_editor.take();
        if let Some(d) = editor {
            if is_blank(d.title.as_str()) {
                self.event_editor = Some(d);
                return;
            }
            let year = match parse_i64(d.year_input.as_str()) {
                Some(y) => y,
                None => 0,
            };
            let id = match d.id {
                Some(id) => id,
                None => new_id(),
            };
            let e = TimelineEvent {
                id,
                universe_id: universe_of(&self.route),
                title: trim(d.title.as_str()).to_owned(),
                description: d.description,
                year,
                display_date: trim(d.display_date.as_str()).to_owned(),
                importance: d.importance,
                kind: d.kind,
                color: d.color,
                location_id: d.location_id,
            };
            let ghost ge = e;
            self.queue(DbAction::SaveEvent(e));
            self.show_toast("Event saved", ToastKind::Success, now_ms);
            assert(saved_event(d, ge, old(self).route));
        }
    }

    /// Saves the era editor's draft; a draft without a name stays open.
    pub fn save_era(&mut self, now_ms: u64)
        requires
            old(self).wf(),
            old(self).can_post(),
        ensures
            final(self).wf(),
            same_views(*old(self), *final(self)),
            final(self).event_editor == old(self).event_editor,
            final(self).queue.in_flight == old(self).queue.in_flight,
            final(self).queue.completed@ == old(self).queue.completed@,
            match old(self).era_editor {
                Some(d) => if !blank(d.name@) {
                    &&& final(self).era_editor is None
                    &&& exists|e: TimelineEra| #![auto] saved_era(d, e, old(self).route)
                        && queued(old(self).queue, final(self).queue, DbAction::SaveEra(e))
                    &&& posted(old(self).notifications, final(self).notifications, "Era saved"@, ToastKind::Success, now_ms)
                } else {
                    &&& final(self).era_editor == Some(d)
                    &&& final(self).queue == old(self).queue
                    &&& final(self).notifications == old(self).notifications
                },
                None => final(self).queue == old(self).queue
                    && final(self).notifications == old(self).notifications
                    && final(self).era_editor is None,
            },
    {
        let editor = self.era_editor.take();
        if let Some(d) = editor {
            if is_blank(d.name.as_str()) {
                self.era_editor = Some(d);
                return;
            }
            let start = match parse_i64(d.start_input.as_str()) {
                Some(y) => y,
                None => 0,
            };
            let end = if is_blank(d.end_input.as_str()) {
                None
            } else {
                parse_i64(d.end_input.as_str())
            };
            let id = match d.id {
                Some(id) => id,
                None => new_id(),
            };
            let e = TimelineEra {
                id,
                universe_id: universe_of(&self.route),
                name: trim(d.name.as_str()).to_owned(),
                start_year: start,
                end_year: end,
                description: d.description,
                color: d.color,
            };
            let ghost ge = e;
            self.queue(DbAction::SaveEra(e));
            self.show_toast("Era saved", ToastKind::Success, now_ms);
            assert(saved_era(d, ge, old(self).route));
        }
    }

    /// Deletes timeline event `id`.
    pub fn delete_event(&mut self, id: String)
        requires
            old(self).wf(),
        ensures
            final(self).wf(),
            rest_same(*old(self), *final(self)),
            final(self).notifications == old(self).notifications,
            queued(old(self).queue, final(self).queue, DbAction::DeleteEvent(id)),
    {
        self.queue(DbAction::DeleteEvent(id));
    }

    /// Deletes timeline era `id`.
    pub fn delete_era(&mut self, id: String)
        requires
            old(self).wf(),
        ensures
            final(self).wf(),
            rest_same(*old(self), *final(self)),
            final(self).notifications == old(self).notifications,
            queued(old(self).queue, final(self).queue, DbAction::DeleteEra(id)),
    {
        self.queue(DbAction::DeleteEra(id));
    }
}

} // verus!
