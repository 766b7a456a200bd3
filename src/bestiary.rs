use vstd::prelude::*;

use crate::click::{completes_double, ClickRecord, Gesture};
use crate::ids::new_id;
use crate::locations::{find_loaded, loaded_location};
use crate::model::{Creature, Location};
use crate::queue::DbAction;
use crate::studio::{rest_same, same_views, AppState, Route};
use crate::text::{blank, is_blank, trim, trimmed};
use crate::toast::{posted, ToastKind};
use crate::universe::queued;

verus! {

/// The creature editor's content; `id` is `None` for a new creature.
#[derive(Debug, Clone)]
pub struct CreatureDraft {
    pub id: Option<String>,
    pub name: String,
    pub kind: String,
    pub habitat: String,
    pub description: String,
    pub danger: String,
    pub home_location_id: Option<String>,
}

/// Whether some creature with id `id` is archived; the first with that id
/// decides.
pub open spec fn archived_flag(creatures: Seq<Creature>, id: Seq<char>) -> bool {
    if exists|i: int| first_creature(creatures, id, i) {
        creatures[choose|i: int| first_creature(creatures, id, i)].archived
    } else {
        false
    }
}

pub open spec fn first_creature(creatures: Seq<Creature>, id: Seq<char>, i: int) -> bool {
    &&& 0 <= i < creatures.len()
    &&& creatures[i].id@ == id
    &&& forall|j: int| 0 <= j < i ==> #[trigger] creatures[j].id@ != id
}

/// `c` is what `d` saves as: text fields trimmed, the description as
/// typed, and the archived flag of the stored creature with the same id.
pub open spec fn saved_creature(d: CreatureDraft, c: Creature, creatures: Seq<Creature>) -> bool {
    &&& (d.id matches Some(id) ==> c.id == id)
    &&& (d.id is None ==> c.id@.len() == 36)
    &&& c.name@ == trimmed(d.name@)
    &&& c.kind@ == trimmed(d.kind@)
    &&& c.habitat@ == trimmed(d.habitat@)
    &&& c.description == d.description
    &&& c.danger@ == trimmed(d.danger@)
    &&& c.home_location_id == d.home_location_id
    &&& c.archived == archived_flag(creatures, c.id@)
}

/// The index of the first creature with id `id`, if any.
pub open spec fn creature_index(creatures: Seq<Creature>, id: Seq<char>) -> Option<int> {
    if exists|i: int| first_creature(creatures, id, i) {
        Some(choose|i: int| first_creature(creatures, id, i))
    } else {
        None
    }
}

/// The editor's content for creature `c`.
pub open spec fn creature_draft_of(c: Creature, locs: Seq<Location>) -> CreatureDraft {
    CreatureDraft {
        id: Some(c.id),
        name: c.name,
        kind: c.kind,
        habitat: c.habitat,
        description: c.description,
        danger: c.danger,
        home_location_id: loaded_location(c.home_location_id, locs),
    }
}

fn find_creature(creatures: &Vec<Creature>, id: &String) -> (r: Option<usize>)
    ensures
        match r {
            Some(i) => creature_index(creatures@, id@) == Some(i as int),
            None => creature_index(creatures@, id@) is None,
        },
{
    let mut i: usize = 0;
    while i < creatures.len()
        invariant
            0 <= i <= creatures@.len(),
            forall|j: int| 0 <= j < i ==> #[trigger] creatures@[j].id@ != id@,
        decreases creatures@.len() - i,
    {
        if creatures[i].id == *id {
            proof {
                assert(first_creature(creatures@, id@, i as int));
                let c = choose|c: int| first_creature(creatures@, id@, c);
                if c < i {
                    assert(creatures@[c].id@ != id@);
                } else if c > i {
                    assert(creatures@[i as int].id@ != id@);
                }
            }
            return Some(i);
        }
        i += 1;
    }
    None
}

fn find_archived(creatures: &Vec<Creature>, id: &String) -> (r: bool)
    ensures
        r == archived_flag(creatures@, id@),
{
    let mut i: usize = 0;
    while i < creatures.len()
        invariant
            0 <= i <= creatures@.len(),
            forall|j: int| 0 <= j < i ==> #[trigger] creatures@[j].id@ != id@,
        decreases creatures@.len() - i,
    {
        if creatures[i].id == *id {
            proof {
                assert(first_creature(creatures@, id@, i as int));
                let c = choose|c: int| first_creature(creatures@, id@, c);
                if c < i {
                    assert(creatures@[c].id@ != id@);
                } else if c > i {
                    assert(creatures@[i as int].id@ != id@);
                }
            }
            return creatures[i].archived;
        }
        i += 1;
    }
    false
}

impl AppState {
    /// A creature card of the bestiary grid was clicked, keyed by the
    /// creature's stable id; a double click opens the creature in the
    /// editor. The grid's click record follows `ClickDisambiguator::register`;
    /// nothing else changes.
    pub fn bestiary_card_clicked(&mut self, creature_id: String, now_ms: u64) -> (g: Gesture)
        ensures
            g == (if completes_double(old(self).bestiary_clicks.last, creature_id@, now_ms) {
                Gesture::Double
            } else {
                Gesture::Single
            }),
            g == Gesture::Double ==> final(self).bestiary_clicks.last is None
                && final(self).creature_editor == match creature_index(old(self).creatures@, creature_id@) {
                    Some(i) => Some(creature_draft_of(old(self).creatures@[i], old(self).locations@)),
                    None => old(self).creature_editor,
                },
            g == Gesture::Single ==> final(self).bestiary_clicks.last == Some(ClickRecord { item_id: creature_id, at_ms: now_ms })
                && final(self).creature_editor == old(self).creature_editor,
            *final(self) == (AppState {
                bestiary_clicks: final(self).bestiary_clicks,
                creature_editor: final(self).creature_editor,
                ..*old(self)
            }),
    {
        let g = self.bestiary_clicks.register(creature_id.clone(), now_ms);
        if g == Gesture::Double {
            if let Some(i) = find_creature(&self.creatures, &creature_id) {
                let c = &self.creatures[i];
                let home = find_loaded(&c.home_location_id, &self.locations);
                self.creature_editor = Some(CreatureDraft {
                    id: Some(c.id.clone()),
                    name: c.name.clone(),
                    kind: c.kind.clone(),
                    habitat: c.habitat.clone(),
                    description: c.description.clone(),
                    danger: c.danger.clone(),
                    home_location_id: home,
                });
            }
        }
        g
    }

    /// Saves the creature editor's draft into the universe of the bestiary
    /// on screen. A blank name keeps the editor open and reports it; off the
    /// bestiary the draft is dropped.
    pub fn save_creature(&mut self, now_ms: u64)
        requires
            old(self).wf(),
            old(self).can_post(),
        ensures
            final(self).wf(),
            same_views(*old(self), *final(self)),
            final(self).creatures == old(self).creatures,
            final(self).queue.in_flight == old(self).queue.in_flight,
            final(self).queue.completed@ == old(self).queue.completed@,
            match (old(self).creature_editor, old(self).route) {
                (Some(d), Route::Bestiary { universe_id }) => if !blank(d.name@) {
                    &&& final(self).creature_editor is None
                    &&& exists|c: Creature| #![auto] saved_creature(d, c, old(self).creatures@)
                        && queued(old(self).queue, final(self).queue, DbAction::SaveCreature(c, universe_id))
                    &&& posted(old(self).notifications, final(self).notifications, "Saving creature..."@, ToastKind::Info, now_ms)
                } else {
                    &&& final(self).creature_editor == Some(d)
                    &&& final(self).queue == old(self).queue
                    &&& posted(old(self).notifications, final(self).notifications, "Name cannot be empty"@, ToastKind::Error, now_ms)
                },
                (Some(d), _) => if !blank(d.name@) {
                    &&& final(self).creature_editor is None
                    &&& final(self).queue == old(self).queue
                    &&& final(self).notifications == old(self).notifications
                } else {
                    &&& final(self).creature_editor == Some(d)
                    &&& final(self).queue == old(self).queue
                    &&& posted(old(self).notifications, final(self).notifications, "Name cannot be empty"@, ToastKind::Error, now_ms)
                },
                (None, _) => final(self).queue == old(self).queue
                    && final(self).notifications == old(self).notifications
                    && final(self).creature_editor is None,
            },
    {
        let editor = self.creature_editor.take();
        if let Some(d) = editor {
            if is_blank(d.name.as_str()) {
                self.creature_editor = Some(d);
                self.show_toast("Name cannot be empty", ToastKind::Error, now_ms);
                return;
            }
            let uid = match &self.route {
                Route::Bestiary { universe_id } => universe_id.clone(),
                _ => return,
            };
            let id = match d.id {
                Some(id) => id,
                None => new_id(),
            };
            let archived = find_archived(&self.creatures, &id);
            let c = Creature {
                id,
                name: trim(d.name.as_str()).to_owned(),
                kind: trim(d.kind.as_str()).to_owned(),
                habitat: trim(d.habitat.as_str()).to_owned(),
                description: d.description,
                danger: trim(d.danger.as_str()).to_owned(),
                home_location_id: d.home_location_id,
                archived,
            };
            let ghost gc = c;
            self.queue(DbAction::SaveCreature(c, uid));
            self.show_toast("Saving creature...", ToastKind::Info, now_ms);
            assert(saved_creature(d, gc, old(self).creatures@));
        }
    }

    /// Deletes creature `id`.
    pub fn delete_creature(&mut self, id: String, now_ms: u64)
        requires
            old(self).wf(),
            old(self).can_post(),
        ensures
            final(self).wf(),
            rest_same(*old(self), *final(self)),
            queued(old(self).queue, final(self).queue, DbAction::DeleteCreature(id)),
            posted(old(self).notifications, final(self).notifications, "Deleting creature..."@, ToastKind::Info, now_ms),
    {
        self.queue(DbAction::DeleteCreature(id));
        self.show_toast("Deleting creature...", ToastKind::Info, now_ms);
    }

    /// Archives creature `id` (`archived`), or restores it.
    pub fn set_creature_archived(&mut self, id: String, archived: bool, now_ms: u64)
        requires
            old(self).wf(),
            old(self).can_post(),
        ensures
            final(self).wf(),
            rest_same(*old(self), *final(self)),
            queued(old(self).queue, final(self).queue, DbAction::ArchiveCreature(id, archived)),
            posted(
                old(self).notifications,
                final(self).notifications,
                if archived { "Creature archived"@ } else { "Creature restored"@ },
                ToastKind::Success,
                now_ms,
            ),
    {
        self.queue(DbAction::ArchiveCreature(id, archived));
        if archived {
            self.show_toast("Creature archived", ToastKind::Success, now_ms);
        } else {
            self.show_toast("Creature restored", ToastKind::Success, now_ms);
        }
    }
}

} // verus!
