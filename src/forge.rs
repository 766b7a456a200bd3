use vstd::prelude::*;

use crate::model::{Scene, Story};
use crate::queue::DbAction;
use crate::studio::{AppState, Route};
use crate::toast::{posted, ToastKind};
use crate::universe::queued;

verus! {

/// Index `i` holds the first story of `stories` with id `id`.
pub open spec fn first_story(stories: Seq<Story>, id: Seq<char>, i: int) -> bool {
    &&& 0 <= i < stories.len()
    &&& stories[i].id@ == id
    &&& forall|j: int| 0 <= j < i ==> #[trigger] stories[j].id@ != id
}

pub open spec fn story_index(stories: Seq<Story>, id: Seq<char>) -> Option<int> {
    if exists|i: int| first_story(stories, id, i) {
        Some(choose|i: int| first_story(stories, id, i))
    } else {
        None
    }
}

/// Index `i` holds the first scene of `scenes` with id `id`.
pub open spec fn first_scene(scenes: Seq<Scene>, id: Seq<char>, i: int) -> bool {
    &&& 0 <= i < scenes.len()
    &&& scenes[i].id@ == id
    &&& forall|j: int| 0 <= j < i ==> #[trigger] scenes[j].id@ != id
}

pub open spec fn scene_index(scenes: Seq<Scene>, id: Seq<char>) -> Option<int> {
    if exists|i: int| first_scene(scenes, id, i) {
        Some(choose|i: int| first_scene(scenes, id, i))
    } else {
        None
    }
}

/// The Forge shows nothing: no stories, scenes, selection or text.
pub open spec fn forge_cleared(s: AppState) -> bool {
    &&& s.stories@.len() == 0
    &&& s.active_story_id is None
    &&& s.active_story_scenes@.len() == 0
    &&& s.active_scene_id is None
    &&& s.forge_content@.len() == 0
}

/// The Forge's stories, scenes, selection and text are those of `before`.
pub open spec fn forge_same(before: AppState, after: AppState) -> bool {
    &&& after.stories == before.stories
    &&& after.active_story_id == before.active_story_id
    &&& after.active_story_scenes == before.active_story_scenes
    &&& after.active_scene_id == before.active_scene_id
    &&& after.forge_content == before.forge_content
}

fn find_story(stories: &Vec<Story>, id: &String) -> (r: Option<usize>)
    ensures
        match r {
            Some(i) => story_index(stories@, id@) == Some(i as int),
            None => story_index(stories@, id@) is None,
        },
{
    let mut i: usize = 0;
    while i < stories.len()
        invariant
            0 <= i <= stories@.len(),
            forall|j: int| 0 <= j < i ==> #[trigger] stories@[j].id@ != id@,
        decreases stories@.len() - i,
    {
        if stories[i].id == *id {
            proof {
                assert(first_story(stories@, id@, i as int));
                let c = choose|c: int| first_story(stories@, id@, c);
                if c < i {
                    assert(stories@[c].id@ != id@);
                } else if c > i {
                    assert(stories@[i as int].id@ != id@);
                }
            }
            return Some(i);
        }
        i += 1;
    }
    None
}

fn find_scene(scenes: &Vec<Scene>, id: &String) -> (r: Option<usize>)
    ensures
        match r {
            Some(i) => scene_index(scenes@, id@) == Some(i as int),
            None => scene_index(scenes@, id@) is None,
        },
{
    let mut i: usize = 0;
    while i < scenes.len()
        invariant
            0 <= i <= scenes@.len(),
            forall|j: int| 0 <= j < i ==> #[trigger] scenes@[j].id@ != id@,
        decreases scenes@.len() - i,
    {
        if scenes[i].id == *id {
            proof {
                assert(first_scene(scenes@, id@, i as int));
                let c = choose|c: int| first_scene(scenes@, id@, c);
                if c < i {
                    assert(scenes@[c].id@ != id@);
                } else if c > i {
                    assert(scenes@[i as int].id@ != id@);
                }
            }
            return Some(i);
        }
        i += 1;
    }
    None
}

fn copy_story(s: &Story) -> (r: Story)
    ensures
        r == *s,
{
    Story {
        id: s.id.clone(),
        universe_id: s.universe_id.clone(),
        title: s.title.clone(),
        synopsis: s.synopsis.clone(),
        status: s.status.clone(),
    }
}

fn copy_scene(s: &Scene) -> (r: Scene)
    ensures
        r == *s,
{
    Scene {
        id: s.id.clone(),
        story_id: s.story_id.clone(),
        title: s.title.clone(),
        body: s.body.clone(),
        position: s.position,
        status: s.status.clone(),
        word_count: s.word_count,
    }
}

/// Whether the Forge's universe is not `target`.
fn forge_stale(loaded: &Option<String>, target: &String) -> (r: bool)
    ensures
        r == match loaded {
            Some(u) => u@ != target@,
            None => true,
        },
{
    match loaded {
        Some(u) => *u != *target,
        None => true,
    }
}

impl AppState {
    fn clear_forge(&mut self)
        ensures
            forge_cleared(*final(self)),
            final(self).queue == old(self).queue,
            final(self).notifications == old(self).notifications,
            final(self).route == old(self).route,
            final(self).loaded_forge_universe == old(self).loaded_forge_universe,
            final(self).data_dirty == old(self).data_dirty,
    {
        self.stories = Vec::new();
        self.active_story_id = None;
        self.active_story_scenes = Vec::new();
        self.active_scene_id = None;
        self.forge_content = String::new();
    }

    /// Opens the Forge on `universe_id`; an empty id keeps the Forge's
    /// universe, or starts a standalone one. Switching universe clears
    /// what the Forge shows.
    pub fn forge_open(&mut self, universe_id: String)
        ensures
            final(self).route is Forge,
            final(self).queue == old(self).queue,
            final(self).notifications == old(self).notifications,
            ({
                let target = if universe_id@.len() == 0 {
                    match old(self).loaded_forge_universe {
                        Some(c) => c@,
                        None => "u-standalone"@,
                    }
                } else {
                    universe_id@
                };
                if old(self).loaded_forge_universe matches Some(u) && u@ == target {
                    final(self).loaded_forge_universe == old(self).loaded_forge_universe
                        && forge_same(*old(self), *final(self))
                } else {
                    final(self).loaded_forge_universe matches Some(u) && u@ == target
                        && forge_cleared(*final(self))
                }
            }),
    {
        self.route = Route::Forge;
        let target = if universe_id.as_str().is_empty() {
            match &self.loaded_forge_universe {
                Some(c) => c.clone(),
                None => <String as StringExecFns>::from_str("u-standalone"),
            }
        } else {
            universe_id
        };
        if forge_stale(&self.loaded_forge_universe, &target) {
            self.loaded_forge_universe = Some(target);
            self.clear_forge();
        }
    }

    /// Switches the Forge to universe `id`, clearing what it shows unless
    /// it is already there.
    pub fn forge_universe_changed(&mut self, id: String)
        ensures
            final(self).route == old(self).route,
            final(self).queue == old(self).queue,
            final(self).notifications == old(self).notifications,
            if old(self).loaded_forge_universe matches Some(u) && u@ == id@ {
                final(self).loaded_forge_universe == old(self).loaded_forge_universe
                    && forge_same(*old(self), *final(self))
            } else {
                final(self).loaded_forge_universe == Some(id) && forge_cleared(*final(self))
            },
    {
        if forge_stale(&self.loaded_forge_universe, &id) {
            self.loaded_forge_universe = Some(id);
            self.clear_forge();
        }
    }

    /// Creates a story in the Forge's universe, if it has one.
    pub fn create_story(&mut self)
        requires
            old(self).wf(),
        ensures
            final(self).wf(),
            final(self).notifications == old(self).notifications,
            forge_same(*old(self), *final(self)),
            match old(self).loaded_forge_universe {
                Some(uid) => exists|title: String| #![auto] title@ == "New Story"@
                    && queued(old(self).queue, final(self).queue, DbAction::CreateStory(uid, title)),
                None => final(self).queue == old(self).queue,
            },
    {
        if let Some(uid) = &self.loaded_forge_universe {
            let title = <String as StringExecFns>::from_str("New Story");
            let ghost t = title;
            let cmd = DbAction::CreateStory(uid.clone(), title);
            self.queue(cmd);
            assert(queued(old(self).queue, self.queue, DbAction::CreateStory(old(self).loaded_forge_universe->Some_0, t)));
        }
    }

    /// Deletes story `id`; when it is the open story, the Forge closes it.
    pub fn delete_story(&mut self, id: String)
        requires
            old(self).wf(),
        ensures
            final(self).wf(),
            final(self).notifications == old(self).notifications,
            final(self).stories == old(self).stories,
            queued(old(self).queue, final(self).queue, DbAction::DeleteStory(id)),
            if old(self).active_story_id matches Some(a) && a@ == id@ {
                &&& final(self).active_story_id is None
                &&& final(self).active_story_scenes@.len() == 0
                &&& final(self).active_scene_id is None
                &&& final(self).forge_content@.len() == 0
            } else {
                forge_same(*old(self), *final(self))
            },
    {
        let open = match &self.active_story_id {
            Some(a) => *a == id,
            None => false,
        };
        self.queue(DbAction::DeleteStory(id));
        if open {
            self.active_story_id = None;
            self.active_story_scenes = Vec::new();
            self.active_scene_id = None;
            self.forge_content = String::new();
        }
    }

    /// Opens story `id` with no scene selected.
    pub fn select_story(&mut self, id: String)
        ensures
            final(self).active_story_id == Some(id),
            final(self).active_scene_id is None,
            final(self).forge_content@.len() == 0,
            final(self).stories == old(self).stories,
            final(self).active_story_scenes == old(self).active_story_scenes,
            final(self).queue == old(self).queue,
            final(self).notifications == old(self).notifications,
    {
        self.active_story_id = Some(id);
        self.active_scene_id = None;
        self.forge_content = String::new();
    }

    /// Creates a scene in the open story; without one, reports it.
    pub fn create_scene(&mut self, now_ms: u64)
        requires
            old(self).wf(),
            old(self).can_post(),
        ensures
            final(self).wf(),
            forge_same(*old(self), *final(self)),
            match old(self).active_story_id {
                Some(sid) => {
                    &&& exists|title: String| #![auto] title@ == "New Scene"@
                        && queued(old(self).queue, final(self).queue, DbAction::CreateScene(sid, title))
                    &&& final(self).notifications == old(self).notifications
                },
                None => {
                    &&& final(self).queue == old(self).queue
                    &&& posted(old(self).notifications, final(self).notifications, "Select a Story first"@, ToastKind::Error, now_ms)
                },
            },
    {
        match &self.active_story_id {
            Some(sid) => {
                let title = <String as StringExecFns>::from_str("New Scene");
                let ghost t = title;
                let cmd = DbAction::CreateScene(sid.clone(), title);
                self.queue(cmd);
                assert(queued(old(self).queue, self.queue, DbAction::CreateScene(old(self).active_story_id->Some_0, t)));
            },
            None => {
                self.show_toast("Select a Story first", ToastKind::Error, now_ms);
            },
        }
    }

    /// Deletes scene `id`; when it is the open scene, the editor empties.
    pub fn delete_scene(&mut self, id: String)
        requires
            old(self).wf(),
        ensures
            final(self).wf(),
            final(self).notifications == old(self).notifications,
            final(self).stories == old(self).stories,
            final(self).active_story_id == old(self).active_story_id,
            final(self).active_story_scenes == old(self).active_story_scenes,
            queued(old(self).queue, final(self).queue, DbAction::DeleteScene(id)),
            if old(self).active_scene_id matches Some(a) && a@ == id@ {
                final(self).active_scene_id is None && final(self).forge_content@.len() == 0
            } else {
                final(self).active_scene_id == old(self).active_scene_id
                    && final(self).forge_content == old(self).forge_content
            },
    {
        let open = match &self.active_scene_id {
            Some(a) => *a == id,
            None => false,
        };
        self.queue(DbAction::DeleteScene(id));
        if open {
            self.active_scene_id = None;
            self.forge_content = String::new();
        }
    }

    /// Opens scene `id`; its body fills the editor when the scene is loaded.
    pub fn select_scene(&mut self, id: String)
        ensures
            final(self).active_scene_id == Some(id),
            final(self).forge_content == match scene_index(old(self).active_story_scenes@, id@) {
                Some(i) => old(self).active_story_scenes@[i].body,
                None => old(self).forge_content,
            },
            final(self).stories == old(self).stories,
            final(self).active_story_id == old(self).active_story_id,
            final(self).active_story_scenes == old(self).active_story_scenes,
            final(self).queue == old(self).queue,
            final(self).notifications == old(self).notifications,
    {
        if let Some(i) = find_scene(&self.active_story_scenes, &id) {
            self.forge_content = self.active_story_scenes[i].body.clone();
        }
        self.active_scene_id = Some(id);
    }

    /// Renames the open story and saves it.
    pub fn story_title_changed(&mut self, title: String)
        requires
            old(self).wf(),
        ensures
            final(self).wf(),
            final(self).notifications == old(self).notifications,
            final(self).active_story_id == old(self).active_story_id,
            final(self).active_story_scenes == old(self).active_story_scenes,
            final(self).active_scene_id == old(self).active_scene_id,
            final(self).forge_content == old(self).forge_content,
            match old(self).active_story_id {
                Some(sid) => match story_index(old(self).stories@, sid@) {
                    Some(i) => {
                        let renamed = Story { title, ..old(self).stories@[i] };
                        &&& final(self).stories@ == old(self).stories@.update(i, renamed)
                        &&& queued(old(self).queue, final(self).queue, DbAction::UpdateStory(renamed))
                    },
                    None => final(self).stories == old(self).stories && final(self).queue == old(self).queue,
                },
                None => final(self).stories == old(self).stories && final(self).queue == old(self).queue,
            },
    {
        let found = match &self.active_story_id {
            Some(sid) => find_story(&self.stories, sid),
            None => None,
        };
        if let Some(i) = found {
            self.stories[i].title = title;
            let copy = copy_story(&self.stories[i]);
            self.queue(DbAction::UpdateStory(copy));
        }
    }

    /// Renames the open scene and saves it.
    pub fn scene_title_changed(&mut self, title: String)
        requires
            old(self).wf(),
        ensures
            final(self).wf(),
            final(self).notifications == old(self).notifications,
            final(self).stories == old(self).stories,
            final(self).active_story_id == old(self).active_story_id,
            final(self).active_scene_id == old(self).active_scene_id,
            final(self).forge_content == old(self).forge_content,
            match old(self).active_scene_id {
                Some(sid) => match scene_index(old(self).active_story_scenes@, sid@) {
                    Some(i) => {
                        let renamed = Scene { title, ..old(self).active_story_scenes@[i] };
                        &&& final(self).active_story_scenes@ == old(self).active_story_scenes@.update(i, renamed)
                        &&& queued(old(self).queue, final(self).queue, DbAction::UpdateScene(renamed))
                    },
                    None => final(self).active_story_scenes == old(self).active_story_scenes
                        && final(self).queue == old(self).queue,
                },
                None => final(self).active_story_scenes == old(self).active_story_scenes
                    && final(self).queue == old(self).queue,
            },
    {
        let found = match &self.active_scene_id {
            Some(sid) => find_scene(&self.active_story_scenes, sid),
            None => None,
        };
        if let Some(i) = found {
            self.active_story_scenes[i].title = title;
            let copy = copy_scene(&self.active_story_scenes[i]);
            self.queue(DbAction::UpdateScene(copy));
        }
    }

    /// The scene text was edited; cached views count as stale.
    pub fn scene_body_changed(&mut self, text: String)
        ensures
            final(self).forge_content == text,
            final(self).data_dirty,
            final(self).stories == old(self).stories,
            final(self).active_story_scenes == old(self).active_story_scenes,
            final(self).active_scene_id == old(self).active_scene_id,
            final(self).queue == old(self).queue,
            final(self).notifications == old(self).notifications,
    {
        self.forge_content = text;
        self.data_dirty = true;
    }

    /// Writes the editor's text into the open scene, saves it and confirms.
    pub fn save_current_scene(&mut self, now_ms: u64)
        requires
            old(self).wf(),
            old(self).can_post(),
        ensures
            final(self).wf(),
            final(self).stories == old(self).stories,
            final(self).active_story_id == old(self).active_story_id,
            final(self).active_scene_id == old(self).active_scene_id,
            final(self).forge_content == old(self).forge_content,
            match old(self).active_scene_id {
                Some(sid) => match scene_index(old(self).active_story_scenes@, sid@) {
                    Some(i) => {
                        let saved = Scene { body: old(self).forge_content, ..old(self).active_story_scenes@[i] };
                        &&& final(self).active_story_scenes@ == old(self).active_story_scenes@.update(i, saved)
                        &&& queued(old(self).queue, final(self).queue, DbAction::UpdateScene(saved))
                        &&& posted(old(self).notifications, final(self).notifications, "Scene saved"@, ToastKind::Success, now_ms)
                    },
                    None => final(self).active_story_scenes == old(self).active_story_scenes
                        && final(self).queue == old(self).queue
                        && final(self).notifications == old(self).notifications,
                },
                None => final(self).active_story_scenes == old(self).active_story_scenes
                    && final(self).queue == old(self).queue
                    && final(self).notifications == old(self).notifications,
            },
    {
        let found = match &self.active_scene_id {
            Some(sid) => find_scene(&self.active_story_scenes, sid),
            None => None,
        };
        if let Some(i) = found {
            let body = self.forge_content.clone();
            self.active_story_scenes[i].body = body;
            let copy = copy_scene(&self.active_story_scenes[i]);
            self.queue(DbAction::UpdateScene(copy));
            self.show_toast("Scene saved", ToastKind::Success, now_ms);
        }
    }
}

} // verus!
