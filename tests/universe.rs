use tas::click::Gesture;
use tas::model::{Project, ProjectKind};
use tas::queue::{DbAction, DemoResetScope};
use tas::studio::{AppState, Route};
use tas::toast::ToastKind;
use tas::universe::{scope_label, UniverseMessage, WorkspaceMessage};

fn last_toast(s: &AppState) -> Option<(String, ToastKind)> {
    s.notifications.toasts.last().map(|t| (t.message.clone(), t.kind))
}

fn pending(s: &AppState) -> Vec<DbAction> {
    s.queue.pending.iter().cloned().collect()
}

#[test]
fn create_universe_from_form() {
    let mut s = AppState::new();
    s.update_universe(UniverseMessage::NameChanged("Arhelis".to_string()), 0);
    s.update_universe(UniverseMessage::DescChanged("A world".to_string()), 0);
    s.update_universe(UniverseMessage::Create, 1);
    assert_eq!(pending(&s), vec![DbAction::CreateUniverse("Arhelis".to_string(), "A world".to_string())]);
    assert_eq!(s.new_universe_name, "");
    assert_eq!(s.new_universe_desc, "");
    assert_eq!(last_toast(&s), Some(("Creating universe...".to_string(), ToastKind::Info)));
}

#[test]
fn blank_universe_name_creates_nothing() {
    let mut s = AppState::new();
    s.update_universe(UniverseMessage::NameChanged(" \t ".to_string()), 0);
    s.update_universe(UniverseMessage::Create, 1);
    assert!(pending(&s).is_empty());
    assert_eq!(s.new_universe_name, " \t ");
    assert!(s.notifications.toasts.is_empty());
}

#[test]
fn demo_reset_needs_confirmation() {
    let mut s = AppState::new();
    s.update_universe(UniverseMessage::ResetDemoConfirm, 0);
    assert!(pending(&s).is_empty());
    s.update_universe(UniverseMessage::ResetDemoPrompt("u1".to_string(), DemoResetScope::Bestiary), 0);
    s.update_universe(UniverseMessage::ResetDemoCancel, 0);
    s.update_universe(UniverseMessage::ResetDemoConfirm, 0);
    assert!(pending(&s).is_empty());
    s.update_universe(UniverseMessage::ResetDemoPrompt("u1".to_string(), DemoResetScope::Bestiary), 0);
    s.update_universe(UniverseMessage::ResetDemoConfirm, 0);
    assert_eq!(pending(&s), vec![DbAction::ResetDemoDataScoped("u1".to_string(), DemoResetScope::Bestiary)]);
    assert!(s.pending_demo_reset.is_none());
    assert_eq!(last_toast(&s), Some(("Resetting demo data...".to_string(), ToastKind::Info)));
}

#[test]
fn snapshot_name_is_trimmed() {
    let mut s = AppState::new();
    s.update_universe(UniverseMessage::SnapshotNameChanged("  before war  ".to_string()), 0);
    s.update_universe(UniverseMessage::SnapshotCreate("u1".to_string()), 0);
    assert_eq!(
        pending(&s),
        vec![DbAction::SnapshotCreate { universe_id: "u1".to_string(), name: "before war".to_string() }]
    );
    assert_eq!(s.snapshot_name, "");
    s.update_universe(UniverseMessage::SnapshotNameChanged("   ".to_string()), 0);
    s.update_universe(UniverseMessage::SnapshotCreate("u1".to_string()), 0);
    assert_eq!(pending(&s).len(), 1);
}

#[test]
fn snapshot_refresh_and_navigation() {
    let mut s = AppState::new();
    s.loaded_snapshots_universe = Some("u1".to_string());
    s.update_universe(UniverseMessage::SnapshotRefresh("u1".to_string()), 0);
    assert!(s.loaded_snapshots_universe.is_none());
    assert!(matches!(&s.route, Route::UniverseDetail { universe_id } if universe_id == "u1"));
    s.update_universe(UniverseMessage::Open("u2".to_string()), 0);
    assert!(matches!(&s.route, Route::UniverseDetail { universe_id } if universe_id == "u2"));
    s.update_universe(UniverseMessage::SnapshotRestore("s1".to_string()), 0);
    s.update_universe(UniverseMessage::SnapshotDelete("s2".to_string()), 0);
    s.update_universe(UniverseMessage::Delete("u3".to_string()), 0);
    s.update_universe(UniverseMessage::InjectDemoData("u2".to_string()), 0);
    assert_eq!(
        pending(&s),
        vec![
            DbAction::SnapshotRestore { snapshot_id: "s1".to_string() },
            DbAction::SnapshotDelete { snapshot_id: "s2".to_string() },
            DbAction::DeleteUniverse("u3".to_string()),
            DbAction::InjectDemoData("u2".to_string()),
        ]
    );
    assert_eq!(s.notifications.toasts.len(), 5);
}

#[test]
fn panel_toggles_and_validation() {
    let mut s = AppState::new();
    s.debug_schema_version = Some(3);
    let panel = s.dev_panel_open;
    s.update_universe(UniverseMessage::ToggleDeveloperPanel, 0);
    assert_eq!(s.dev_panel_open, !panel);
    s.update_universe(UniverseMessage::ToggleDebugOverlay, 0);
    assert!(s.debug_overlay_open);
    assert!(s.debug_schema_version.is_none());
    s.update_universe(UniverseMessage::ValidateUniverse("u1".to_string()), 0);
    assert!(s.integrity_busy);
    assert!(pending(&s).is_empty());
}

#[test]
fn workspace_form() {
    let mut s = AppState::new();
    s.update_workspace(&WorkspaceMessage::NameChanged("draft".to_string()));
    s.update_workspace(&WorkspaceMessage::CreateStart);
    assert!(s.is_creating_project);
    assert_eq!(s.new_project_name, "");
    s.update_workspace(&WorkspaceMessage::NameChanged("Novel".to_string()));
    assert_eq!(s.new_project_name, "Novel");
    s.update_workspace(&WorkspaceMessage::CreateCancel);
    assert!(!s.is_creating_project);
}

#[test]
fn scope_labels() {
    assert_eq!(scope_label(DemoResetScope::All), "ALL");
    assert_eq!(scope_label(DemoResetScope::PmTools), "PM Tools");
    assert_eq!(scope_label(DemoResetScope::Timeline), "Timeline");
}

#[test]
fn project_kind_from_extension() {
    let p = |path: &str| Project {
        id: "p".to_string(),
        name: "n".to_string(),
        path: path.to_string(),
        last_opened_ms: 0,
        created_at_ms: 0,
    };
    assert_eq!(p("/data/story.novel").get_kind(), ProjectKind::Novel);
    assert_eq!(p("/data/tasks.pmboard").get_kind(), ProjectKind::Board);
    assert_eq!(p("/data/world.universe").get_kind(), ProjectKind::Universe);
    assert_eq!(p("novel").get_kind(), ProjectKind::Universe);
    assert_eq!(ProjectKind::default(), ProjectKind::Universe);
}

#[test]
fn surfaces_disambiguate_independently() {
    let mut s = AppState::new();
    assert_eq!(s.bestiary_card_clicked("c1".to_string(), 0), Gesture::Single);
    assert_eq!(s.location_clicked("c1".to_string(), 100), Gesture::Single);
    assert_eq!(s.selected_location, Some("c1".to_string()));
    assert_eq!(s.timeline_card_clicked("c1".to_string(), 150), Gesture::Single);
    assert_eq!(s.bestiary_card_clicked("c1".to_string(), 200), Gesture::Double);
    assert_eq!(s.location_clicked("c1".to_string(), 700), Gesture::Single);
    assert_eq!(s.timeline_card_clicked("c1".to_string(), 600), Gesture::Double);
}
