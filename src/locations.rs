use vstd::prelude::*;

use crate::click::{completes_double, ClickRecord, Gesture};
use crate::ids::new_id;
use crate::model::Location;
use crate::queue::DbAction;
use crate::studio::{rest_same, same_views, AppState, Route};
use crate::text::{blank, is_blank, trim, trimmed};
use crate::toast::{posted, ToastKind};
use crate::universe::queued;

verus! {

/// The location editor's content; `id` is `None` for a new location.
#[derive(Debug, Clone)]
pub struct LocationDraft {
    pub id: Option<String>,
    pub parent_id: Option<String>,
    pub name: String,
    pub kind: String,
    pub description: String,
}

/// `l` is what `d` saves as in universe `uid`: name and kind trimmed.
pub open spec fn saved_location(d: LocationDraft, l: Location, uid: String) -> bool {
    &&& (d.id matches Some(id) ==> l.id == id)
    &&& (d.id is None ==> l.id@.len() == 36)
    &&& l.universe_id == uid
    &&& l.parent_id == d.parent_id
    &&& l.name@ == trimmed(d.name@)
    &&& l.description == d.description
    &&& l.kind@ == trimmed(d.kind@)
}

/// Longest chain of parents followed when revealing a location.
pub const MAX_REVEAL_DEPTH: usize = 51;

/// The ids of an expanded-locations list, as a set.
pub open spec fn id_set(ids: Seq<String>) -> Set<Seq<char>> {
    Set::new(|v: Seq<char>| exists|i: int| 0 <= i < ids.len() && #[trigger] ids[i]@ == v)
}

/// Index `i` holds the first location of `locs` with id `id`.
pub open spec fn first_location_match(locs: Seq<Location>, id: Seq<char>, i: int) -> bool {
    &&& 0 <= i < locs.len()
    &&& locs[i].id@ == id
    &&& forall|j: int| 0 <= j < i ==> #[trigger] locs[j].id@ != id
}

/// The index of the first location with id `id`, if any.
pub open spec fn location_index(locs: Seq<Location>, id: Seq<char>) -> Option<int> {
    if exists|i: int| first_location_match(locs, id, i) {
        Some(choose|i: int| first_location_match(locs, id, i))
    } else {
        None
    }
}

/// A location reference as an editor offers it: the id of the loaded
/// location it names, or none when that location is not loaded.
pub open spec fn loaded_location(home: Option<String>, locs: Seq<Location>) -> Option<String> {
    match home {
        Some(lid) => match location_index(locs, lid@) {
            Some(k) => Some(locs[k].id),
            None => None,
        },
        None => None,
    }
}

/// The editor's content for location `l`.
pub open spec fn location_draft_of(l: Location) -> LocationDraft {
    LocationDraft {
        id: Some(l.id),
        parent_id: l.parent_id,
        name: l.name,
        kind: l.kind,
        description: l.description,
    }
}

/// The parent of the first location with id `id`, if both exist.
pub open spec fn parent_of(locs: Seq<Location>, id: Seq<char>) -> Option<String> {
    if exists|i: int| first_location_match(locs, id, i) {
        locs[choose|i: int| first_location_match(locs, id, i)].parent_id
    } else {
        None
    }
}

/// The ancestors of `id` reached in at most `fuel` steps up the parent chain.
pub open spec fn ancestors(locs: Seq<Location>, id: Option<String>, fuel: nat) -> Set<Seq<char>>
    decreases fuel,
{
    if fuel == 0 {
        Set::empty()
    } else {
        match id {
            Some(i) => match parent_of(locs, i@) {
                Some(p) => ancestors(locs, Some(p), (fuel - 1) as nat).insert(p@),
                None => Set::empty(),
            },
            None => Set::empty(),
        }
    }
}

pub(crate) fn contains_id(ids: &Vec<String>, id: &String) -> (r: bool)
    ensures
        r == id_set(ids@).contains(id@),
{
    let mut i: usize = 0;
    while i < ids.len()
        invariant
            0 <= i <= ids@.len(),
            forall|j: int| 0 <= j < i ==> #[trigger] ids@[j]@ != id@,
        decreases ids@.len() - i,
    {
        if ids[i] == *id {
            assert(id_set(ids@).contains(id@));
            return true;
        }
        i += 1;
    }
    false
}

/// Adds `id` to the list unless it is there already.
fn insert_id(ids: &mut Vec<String>, id: String)
    ensures
        id_set(final(ids)@) == id_set(old(ids)@).insert(id@),
{
    if !contains_id(ids, &id) {
        let ghost before = ids@;
        ids.push(id);
        assert(id_set(ids@) =~= id_set(before).insert(id@)) by {
            assert(ids@[before.len() as int] == id);
            assert forall|v: Seq<char>| id_set(before).contains(v) implies id_set(ids@).contains(v) by {
                let k = choose|k: int| 0 <= k < before.len() && before[k]@ == v;
                assert(ids@[k] == before[k]);
            }
            assert forall|v: Seq<char>| id_set(ids@).contains(v) implies #[trigger] id_set(before).insert(id@).contains(v) by {
                let k = choose|k: int| 0 <= k < ids@.len() && ids@[k]@ == v;
                if k < before.len() {
                    assert(before[k] == ids@[k]);
                }
            }
        }
    } else {
        assert(id_set(ids@) =~= id_set(ids@).insert(id@));
    }
}

/// Removes every copy of `id` from the list.
fn remove_id(ids: &mut Vec<String>, id: &String)
    ensures
        id_set(final(ids)@) == id_set(old(ids)@).remove(id@),
{
    let ghost orig = ids@;
    let mut kept: Vec<String> = Vec::new();
    let mut src: Vec<String> = Vec::new();
    std::mem::swap(&mut src, ids);
    let n = src.len();
    let mut i: usize = 0;
    while i < n
        invariant
            orig.len() == n,
            0 <= i <= n,
            src@ == orig.subrange(i as int, n as int),
            id_set(kept@) == id_set(orig.subrange(0, i as int)).remove(id@),
        decreases n - i,
    {
        let s = src.remove(0);
        let ghost prefix = orig.subrange(0, i as int);
        let ghost next = orig.subrange(0, i + 1);
        assert(next[i as int] == s);
        assert(id_set(next) =~= id_set(prefix).insert(s@)) by {
            assert forall|v: Seq<char>| id_set(prefix).contains(v) implies id_set(next).contains(v) by {
                let k = choose|k: int| 0 <= k < prefix.len() && prefix[k]@ == v;
                assert(next[k] == prefix[k]);
            }
            assert forall|v: Seq<char>| id_set(next).contains(v) implies #[trigger] id_set(prefix).insert(s@).contains(v) by {
                let k = choose|k: int| 0 <= k < next.len() && next[k]@ == v;
                if k < prefix.len() {
                    assert(prefix[k] == next[k]);
                }
            }
        }
        if s != *id {
            insert_id(&mut kept, s);
            assert(id_set(kept@) =~= id_set(next).remove(id@));
        } else {
            assert(id_set(kept@) =~= id_set(next).remove(id@));
        }
        assert(src@ =~= orig.subrange(i + 1, n as int));
        i += 1;
    }
    assert(orig.subrange(0, n as int) =~= orig);
    *ids = kept;
}

pub(crate) fn copy_opt(s: &Option<String>) -> (r: Option<String>)
    ensures
        r == *s,
{
    match s {
        Some(v) => Some(v.clone()),
        None => None,
    }
}

pub(crate) fn find_loaded(home: &Option<String>, locs: &Vec<Location>) -> (r: Option<String>)
    ensures
        r == loaded_location(*home, locs@),
{
    match home {
        Some(lid) => match find_location(locs, lid) {
            Some(k) => Some(locs[k].id.clone()),
            None => None,
        },
        None => None,
    }
}

/// Finds the first location with id `id`.
pub(crate) fn find_location(locs: &Vec<Location>, id: &String) -> (r: Option<usize>)
    ensures
        match r {
            Some(i) => location_index(locs@, id@) == Some(i as int),
            None => location_index(locs@, id@) is None,
        },
{
    let mut i: usize = 0;
    while i < locs.len()
        invariant
            0 <= i <= locs@.len(),
            forall|j: int| 0 <= j < i ==> #[trigger] locs@[j].id@ != id@,
        decreases locs@.len() - i,
    {
        if locs[i].id == *id {
            proof {
                assert(first_location_match(locs@, id@, i as int));
                let c = choose|c: int| first_location_match(locs@, id@, c);
                if c < i {
                    assert(locs@[c].id@ != id@);
                } else if c > i {
                    assert(locs@[i as int].id@ != id@);
                }
            }
            return Some(i);
        }
        i += 1;
    }
    None
}

/// The parent of the first location with id `id`.
fn find_parent(locs: &Vec<Location>, id: &String) -> (r: Option<String>)
    ensures
        r == parent_of(locs@, id@),
{
    let mut i: usize = 0;
    while i < locs.len()
        invariant
            0 <= i <= locs@.len(),
            forall|j: int| 0 <= j < i ==> #[trigger] locs@[j].id@ != id@,
        decreases locs@.len() - i,
    {
        if locs[i].id == *id {
            proof {
                assert(first_location_match(locs@, id@, i as int));
                let c = choose|c: int| first_location_match(locs@, id@, c);
                if c < i {
                    assert(locs@[c].id@ != id@);
                } else if c > i {
                    assert(locs@[i as int].id@ != id@);
                }
            }
            return match &locs[i].parent_id {
                Some(p) => Some(p.clone()),
                None => None,
            };
        }
        i += 1;
    }
    None
}

impl AppState {
    /// A location of the tree was clicked: it becomes the selection, and a
    /// double click opens it in the editor. The tree's click record follows
    /// `ClickDisambiguator::register`; nothing else changes.
    pub fn location_clicked(&mut self, location_id: String, now_ms: u64) -> (g: Gesture)
        ensures
            g == (if completes_double(old(self).location_clicks.last, location_id@, now_ms) {
                Gesture::Double
            } else {
                Gesture::Single
            }),
            final(self).selected_location == Some(location_id),
            g == Gesture::Double ==> final(self).location_clicks.last is None
                && final(self).location_editor == match location_index(old(self).locations@, location_id@) {
                    Some(i) => Some(location_draft_of(old(self).locations@[i])),
                    None => old(self).location_editor,
                },
            g == Gesture::Single ==> final(self).location_clicks.last == Some(ClickRecord { item_id: location_id, at_ms: now_ms })
                && final(self).location_editor == old(self).location_editor,
            *final(self) == (AppState {
                location_clicks: final(self).location_clicks,
                selected_location: final(self).selected_location,
                location_editor: final(self).location_editor,
                ..*old(self)
            }),
    {
        self.selected_location = Some(location_id.clone());
        let g = self.location_clicks.register(location_id.clone(), now_ms);
        if g == Gesture::Double {
            if let Some(i) = find_location(&self.locations, &location_id) {
                let l = &self.locations[i];
                self.location_editor = Some(LocationDraft {
                    id: Some(l.id.clone()),
                    parent_id: copy_opt(&l.parent_id),
                    name: l.name.clone(),
                    kind: l.kind.clone(),
                    description: l.description.clone(),
                });
            }
        }
        g
    }

    /// Saves the location editor's draft into the universe of the locations
    /// page on screen and expands its parent. A blank name keeps the editor
    /// open and reports it; off the locations page the draft is dropped.
    pub fn save_location(&mut self, now_ms: u64)
        requires
            old(self).wf(),
            old(self).can_post(),
        ensures
            final(self).wf(),
            same_views(*old(self), *final(self)),
            final(self).locations == old(self).locations,
            final(self).queue.in_flight == old(self).queue.in_flight,
            final(self).queue.completed@ == old(self).queue.completed@,
            match (old(self).location_editor, old(self).route) {
                (Some(d), Route::Locations { universe_id }) => if !blank(d.name@) {
                    &&& final(self).location_editor is None
                    &&& exists|l: Location| #![auto] saved_location(d, l, universe_id)
                        && queued(old(self).queue, final(self).queue, DbAction::SaveLocation(l))
                    &&& posted(old(self).notifications, final(self).notifications, "Location saved"@, ToastKind::Success, now_ms)
                    &&& id_set(final(self).expanded_locations@) == match d.parent_id {
                        Some(p) => id_set(old(self).expanded_locations@).insert(p@),
                        None => id_set(old(self).expanded_locations@),
                    }
                } else {
                    &&& final(self).location_editor == Some(d)
                    &&& final(self).queue == old(self).queue
                    &&& posted(old(self).notifications, final(self).notifications, "Name cannot be empty"@, ToastKind::Error, now_ms)
                },
                (Some(d), _) => if !blank(d.name@) {
                    &&& final(self).location_editor is None
                    &&& final(self).queue == old(self).queue
                    &&& final(self).notifications == old(self).notifications
                } else {
                    &&& final(self).location_editor == Some(d)
                    &&& final(self).queue == old(self).queue
                    &&& posted(old(self).notifications, final(self).notifications, "Name cannot be empty"@, ToastKind::Error, now_ms)
                },
                (None, _) => final(self).queue == old(self).queue
                    && final(self).notifications == old(self).notifications
                    && final(self).location_editor is None,
            },
    {
        let editor = self.location_editor.take();
        if let Some(d) = editor {
            if is_blank(d.name.as_str()) {
                self.location_editor = Some(d);
                self.show_toast("Name cannot be empty", ToastKind::Error, now_ms);
                return;
            }
            let uid = match &self.route {
                Route::Locations { universe_id } => universe_id.clone(),
                _ => return,
            };
            let id = match d.id {
                Some(id) => id,
                None => new_id(),
            };
            let l = Location {
                id,
                universe_id: uid,
                parent_id: d.parent_id,
                name: trim(d.name.as_str()).to_owned(),
                description: d.description,
                kind: trim(d.kind.as_str()).to_owned(),
            };
            match &l.parent_id {
                Some(p) => insert_id(&mut self.expanded_locations, p.clone()),
                None => {},
            }
            let ghost gl = l;
            self.queue(DbAction::SaveLocation(l));
            self.show_toast("Location saved", ToastKind::Success, now_ms);
            assert(saved_location(d, gl, old(self).route->Locations_universe_id));
        }
    }

    /// Deletes location `id`.
    pub fn delete_location(&mut self, id: String, now_ms: u64)
        requires
            old(self).wf(),
            old(self).can_post(),
        ensures
            final(self).wf(),
            rest_same(*old(self), *final(self)),
            queued(old(self).queue, final(self).queue, DbAction::DeleteLocation(id)),
            posted(old(self).notifications, final(self).notifications, "Location deleted"@, ToastKind::Info, now_ms),
    {
        self.queue(DbAction::DeleteLocation(id));
        self.show_toast("Location deleted", ToastKind::Info, now_ms);
    }

    /// Expands location `id` in the tree, or collapses it when expanded.
    pub fn toggle_expand(&mut self, id: String)
        ensures
            id_set(final(self).expanded_locations@) == if id_set(old(self).expanded_locations@).contains(id@) {
                id_set(old(self).expanded_locations@).remove(id@)
            } else {
                id_set(old(self).expanded_locations@).insert(id@)
            },
            final(self).locations == old(self).locations,
            final(self).queue == old(self).queue,
            final(self).notifications == old(self).notifications,
            crate::studio::same_views(*old(self), *final(self)),
    {
        if contains_id(&self.expanded_locations, &id) {
            remove_id(&mut self.expanded_locations, &id);
        } else {
            insert_id(&mut self.expanded_locations, id);
        }
    }

    /// Opens the locations page of `universe_id` on `location_id`: selects it
    /// and expands its ancestors, following at most `MAX_REVEAL_DEPTH`
    /// parents so that a cycle in the data cannot hang the page.
    pub fn go_to_location(&mut self, universe_id: String, location_id: String)
        ensures
            final(self).route == (Route::Locations { universe_id }),
            final(self).selected_location == Some(location_id),
            id_set(final(self).expanded_locations@) == id_set(old(self).expanded_locations@).union(
                ancestors(old(self).locations@, Some(location_id), MAX_REVEAL_DEPTH as nat),
            ),
            final(self).locations == old(self).locations,
            final(self).queue == old(self).queue,
            final(self).notifications == old(self).notifications,
    {
        self.route = Route::Locations { universe_id };
        self.selected_location = Some(location_id.clone());
        let ghost target = ancestors(self.locations@, Some(location_id), MAX_REVEAL_DEPTH as nat);
        let ghost start = id_set(self.expanded_locations@);
        let mut current: Option<String> = Some(location_id);
        let mut steps: usize = 0;
        while steps < MAX_REVEAL_DEPTH && current.is_some()
            invariant
                0 <= steps <= MAX_REVEAL_DEPTH,
                self.locations == old(self).locations,
                self.route == (Route::Locations { universe_id }),
                self.selected_location == Some(location_id),
                self.queue == old(self).queue,
                self.notifications == old(self).notifications,
                id_set(self.expanded_locations@).union(
                    ancestors(self.locations@, current, (MAX_REVEAL_DEPTH - steps) as nat),
                ) == start.union(target),
            decreases MAX_REVEAL_DEPTH - steps,
        {
            let cur = current.unwrap();
            let ghost left = (MAX_REVEAL_DEPTH - steps) as nat;
            steps += 1;
            match find_parent(&self.locations, &cur) {
                Some(p) => {
                    let ghost before = id_set(self.expanded_locations@);
                    let ghost rest = ancestors(self.locations@, Some(p), (left - 1) as nat);
                    assert(ancestors(self.locations@, Some(cur), left) == rest.insert(p@));
                    insert_id(&mut self.expanded_locations, p.clone());
                    assert(id_set(self.expanded_locations@).union(rest) =~= before.union(rest.insert(p@)));
                    current = Some(p);
                },
                None => {
                    assert(ancestors(self.locations@, Some(cur), left) == Set::<Seq<char>>::empty());
                    assert(id_set(self.expanded_locations@).union(Set::empty()) =~= id_set(self.expanded_locations@));
                    current = None;
                },
            }
        }
        proof {
            assert(ancestors(self.locations@, current, (MAX_REVEAL_DEPTH - steps) as nat) == Set::<Seq<char>>::empty());
            assert(id_set(self.expanded_locations@).union(Set::empty()) =~= id_set(self.expanded_locations@));
        }
    }
}

} // verus!
