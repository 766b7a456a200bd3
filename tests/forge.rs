use tas::model::{Scene, Story};
use tas::queue::DbAction;
use tas::studio::{AppState, Route};
use tas::toast::ToastKind;

fn story(id: &str) -> Story {
    Story {
        id: id.to_string(),
        universe_id: "u1".to_string(),
        title: format!("Story {id}"),
        synopsis: String::new(),
        status: "Draft".to_string(),
    }
}

fn scene(id: &str, body: &str) -> Scene {
    Scene {
        id: id.to_string(),
        story_id: "s1".to_string(),
        title: format!("Scene {id}"),
        body: body.to_string(),
        position: 1,
        status: "Draft".to_string(),
        word_count: 0,
    }
}

fn pending(s: &AppState) -> Vec<DbAction> {
    s.queue.pending.iter().cloned().collect()
}

#[test]
fn forge_open_picks_universe_and_clears_on_switch() {
    let mut s = AppState::new();
    s.forge_open(String::new());
    assert!(matches!(s.route, Route::Forge));
    assert_eq!(s.loaded_forge_universe, Some("u-standalone".to_string()));
    s.stories = vec![story("s1")];
    s.forge_open(String::new());
    assert_eq!(s.stories.len(), 1);
    s.forge_open("u1".to_string());
    assert_eq!(s.loaded_forge_universe, Some("u1".to_string()));
    assert!(s.stories.is_empty());
    s.stories = vec![story("s1")];
    s.forge_universe_changed("u1".to_string());
    assert_eq!(s.stories.len(), 1);
    s.forge_universe_changed("u2".to_string());
    assert!(s.stories.is_empty());
}

#[test]
fn stories_and_scenes_are_created_in_context() {
    let mut s = AppState::new();
    s.create_story();
    s.create_scene(0);
    assert!(pending(&s).is_empty());
    assert_eq!(s.notifications.toasts[0].message, "Select a Story first");
    assert_eq!(s.notifications.toasts[0].kind, ToastKind::Error);
    s.forge_open("u1".to_string());
    s.create_story();
    s.select_story("s1".to_string());
    s.create_scene(0);
    assert_eq!(
        pending(&s),
        vec![
            DbAction::CreateStory("u1".to_string(), "New Story".to_string()),
            DbAction::CreateScene("s1".to_string(), "New Scene".to_string()),
        ]
    );
}

#[test]
fn scene_editing_round_trip() {
    let mut s = AppState::new();
    s.stories = vec![story("s1"), story("s2")];
    s.select_story("s1".to_string());
    s.active_story_scenes = vec![scene("a", "first body"), scene("b", "second body")];
    s.select_scene("b".to_string());
    assert_eq!(s.forge_content, "second body");
    s.scene_body_changed("rewritten".to_string());
    assert!(s.data_dirty);
    s.save_current_scene(7);
    assert_eq!(s.active_story_scenes[1].body, "rewritten");
    assert_eq!(pending(&s), vec![DbAction::UpdateScene(scene("b", "rewritten"))]);
    assert_eq!(s.notifications.toasts[0].message, "Scene saved");
    s.scene_title_changed("Climax".to_string());
    assert_eq!(s.active_story_scenes[1].title, "Climax");
    s.story_title_changed("Saga".to_string());
    assert_eq!(s.stories[0].title, "Saga");
    let mut renamed = story("s1");
    renamed.title = "Saga".to_string();
    assert_eq!(pending(&s)[2], DbAction::UpdateStory(renamed));
    s.select_scene("missing".to_string());
    assert_eq!(s.forge_content, "rewritten");
    s.save_current_scene(8);
    assert_eq!(pending(&s).len(), 3);
}

#[test]
fn deleting_open_story_or_scene_closes_it() {
    let mut s = AppState::new();
    s.select_story("s1".to_string());
    s.active_story_scenes = vec![scene("a", "x")];
    s.select_scene("a".to_string());
    s.delete_scene("zzz".to_string());
    assert_eq!(s.active_scene_id, Some("a".to_string()));
    s.delete_scene("a".to_string());
    assert!(s.active_scene_id.is_none());
    assert!(s.forge_content.is_empty());
    s.delete_story("s1".to_string());
    assert!(s.active_story_id.is_none());
    assert!(s.active_story_scenes.is_empty());
    assert_eq!(
        pending(&s),
        vec![
            DbAction::DeleteScene("zzz".to_string()),
            DbAction::DeleteScene("a".to_string()),
            DbAction::DeleteStory("s1".to_string()),
        ]
    );
}
