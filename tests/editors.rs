use tas::bestiary::CreatureDraft;
use tas::locations::LocationDraft;
use tas::model::Creature;
use tas::queue::DbAction;
use tas::studio::{AppState, Route};
use tas::timeline::{EraDraft, EventDraft};
use tas::toast::ToastKind;

fn pending(s: &AppState) -> Vec<DbAction> {
    s.queue.pending.iter().cloned().collect()
}

fn creature_draft(id: Option<&str>, name: &str) -> CreatureDraft {
    CreatureDraft {
        id: id.map(|i| i.to_string()),
        name: name.to_string(),
        kind: " Beast ".to_string(),
        habitat: "Caves".to_string(),
        description: "  keeps spaces  ".to_string(),
        danger: "High ".to_string(),
        home_location_id: Some("l1".to_string()),
    }
}

#[test]
fn creature_save_trims_and_keeps_archive_flag() {
    let mut s = AppState::new();
    s.route = Route::Bestiary { universe_id: "u1".to_string() };
    s.creatures = vec![Creature {
        id: "c1".to_string(),
        name: "Old".to_string(),
        kind: String::new(),
        habitat: String::new(),
        description: String::new(),
        danger: String::new(),
        home_location_id: None,
        archived: true,
    }];
    s.creature_editor = Some(creature_draft(Some("c1"), "  Wyrm "));
    s.save_creature(3);
    assert!(s.creature_editor.is_none());
    match pending(&s).first() {
        Some(DbAction::SaveCreature(c, uid)) => {
            assert_eq!(uid, "u1");
            assert_eq!(c.id, "c1");
            assert_eq!(c.name, "Wyrm");
            assert_eq!(c.kind, "Beast");
            assert_eq!(c.danger, "High");
            assert_eq!(c.description, "  keeps spaces  ");
            assert_eq!(c.home_location_id, Some("l1".to_string()));
            assert!(c.archived);
        }
        other => panic!("unexpected command {other:?}"),
    }
    assert_eq!(s.notifications.toasts[0].message, "Saving creature...");
}

#[test]
fn new_creature_gets_fresh_id() {
    let mut s = AppState::new();
    s.route = Route::Bestiary { universe_id: "u1".to_string() };
    s.creature_editor = Some(creature_draft(None, "Imp"));
    s.save_creature(3);
    match pending(&s).first() {
        Some(DbAction::SaveCreature(c, _)) => {
            assert_eq!(c.id.len(), 36);
            assert!(!c.archived);
        }
        other => panic!("unexpected command {other:?}"),
    }
}

#[test]
fn creature_without_name_stays_in_editor() {
    let mut s = AppState::new();
    s.route = Route::Bestiary { universe_id: "u1".to_string() };
    s.creature_editor = Some(creature_draft(None, "  "));
    s.save_creature(3);
    assert!(s.creature_editor.is_some());
    assert!(pending(&s).is_empty());
    assert_eq!(s.notifications.toasts[0].message, "Name cannot be empty");
    assert_eq!(s.notifications.toasts[0].kind, ToastKind::Error);
}

#[test]
fn creature_actions_queue_writes() {
    let mut s = AppState::new();
    s.delete_creature("c1".to_string(), 0);
    s.set_creature_archived("c2".to_string(), true, 0);
    s.set_creature_archived("c2".to_string(), false, 0);
    assert_eq!(
        pending(&s),
        vec![
            DbAction::DeleteCreature("c1".to_string()),
            DbAction::ArchiveCreature("c2".to_string(), true),
            DbAction::ArchiveCreature("c2".to_string(), false),
        ]
    );
    let msgs: Vec<&str> = s.notifications.toasts.iter().map(|t| t.message.as_str()).collect();
    assert_eq!(msgs, vec!["Deleting creature...", "Creature archived", "Creature restored"]);
}

#[test]
fn location_save_expands_parent() {
    let mut s = AppState::new();
    s.route = Route::Locations { universe_id: "u1".to_string() };
    s.location_editor = Some(LocationDraft {
        id: Some("l2".to_string()),
        parent_id: Some("l1".to_string()),
        name: " Harbor ".to_string(),
        kind: " Town".to_string(),
        description: "docks".to_string(),
    });
    s.save_location(0);
    match pending(&s).first() {
        Some(DbAction::SaveLocation(l)) => {
            assert_eq!(l.id, "l2");
            assert_eq!(l.universe_id, "u1");
            assert_eq!(l.name, "Harbor");
            assert_eq!(l.kind, "Town");
            assert_eq!(l.parent_id, Some("l1".to_string()));
        }
        other => panic!("unexpected command {other:?}"),
    }
    assert_eq!(s.expanded_locations, vec!["l1".to_string()]);
    s.delete_location("l2".to_string(), 0);
    assert_eq!(pending(&s)[1], DbAction::DeleteLocation("l2".to_string()));
    let msgs: Vec<&str> = s.notifications.toasts.iter().map(|t| t.message.as_str()).collect();
    assert_eq!(msgs, vec!["Location saved", "Location deleted"]);
}

#[test]
fn location_save_off_page_drops_draft() {
    let mut s = AppState::new();
    s.location_editor = Some(LocationDraft {
        id: None,
        parent_id: None,
        name: "Harbor".to_string(),
        kind: "Town".to_string(),
        description: String::new(),
    });
    s.save_location(0);
    assert!(s.location_editor.is_none());
    assert!(pending(&s).is_empty());
}

fn event_draft(title: &str, year: &str) -> EventDraft {
    EventDraft {
        id: Some("e1".to_string()),
        title: title.to_string(),
        year_input: year.to_string(),
        display_date: " Spring ".to_string(),
        importance: "Normal".to_string(),
        kind: "General".to_string(),
        color: "#A1A1AA".to_string(),
        location_id: None,
        description: String::new(),
    }
}

#[test]
fn event_save_parses_year() {
    let mut s = AppState::new();
    s.route = Route::Timeline { universe_id: "u1".to_string() };
    s.event_editor = Some(event_draft(" Founding ", "-120"));
    s.save_event(0);
    s.event_editor = Some(event_draft("Fall", "12x"));
    s.save_event(0);
    s.event_editor = Some(event_draft("Rise", "+7"));
    s.save_event(0);
    let years: Vec<(String, i64, String)> = pending(&s)
        .into_iter()
        .map(|a| match a {
            DbAction::SaveEvent(e) => (e.title, e.year, e.display_date),
            other => panic!("unexpected command {other:?}"),
        })
        .collect();
    assert_eq!(
        years,
        vec![
            ("Founding".to_string(), -120, "Spring".to_string()),
            ("Fall".to_string(), 0, "Spring".to_string()),
            ("Rise".to_string(), 7, "Spring".to_string()),
        ]
    );
}

#[test]
fn event_without_title_stays_in_editor() {
    let mut s = AppState::new();
    s.event_editor = Some(event_draft("", "1"));
    s.save_event(0);
    assert!(s.event_editor.is_some());
    assert!(pending(&s).is_empty());
    assert!(s.notifications.toasts.is_empty());
}

#[test]
fn era_save_handles_open_end() {
    let mut s = AppState::new();
    s.route = Route::Timeline { universe_id: "u9".to_string() };
    let era = |end: &str| EraDraft {
        id: None,
        name: "Age of Ash".to_string(),
        start_input: "100".to_string(),
        end_input: end.to_string(),
        color: "#6366F1".to_string(),
        description: String::new(),
    };
    s.era_editor = Some(era("  "));
    s.save_era(0);
    s.era_editor = Some(era("250"));
    s.save_era(0);
    s.era_editor = Some(era("later"));
    s.save_era(0);
    let ends: Vec<(i64, Option<i64>, String)> = pending(&s)
        .into_iter()
        .map(|a| match a {
            DbAction::SaveEra(e) => {
                assert_eq!(e.id.len(), 36);
                (e.start_year, e.end_year, e.universe_id)
            }
            other => panic!("unexpected command {other:?}"),
        })
        .collect();
    assert_eq!(
        ends,
        vec![(100, None, "u9".to_string()), (100, Some(250), "u9".to_string()), (100, None, "u9".to_string())]
    );
    s.delete_event("e1".to_string());
    s.delete_era("r1".to_string());
    assert_eq!(pending(&s)[3], DbAction::DeleteEvent("e1".to_string()));
    assert_eq!(pending(&s)[4], DbAction::DeleteEra("r1".to_string()));
}

fn location(id: &str, parent: Option<&str>) -> tas::model::Location {
    tas::model::Location {
        id: id.to_string(),
        universe_id: "u1".to_string(),
        parent_id: parent.map(|p| p.to_string()),
        name: format!("Place {id}"),
        description: "old docks".to_string(),
        kind: "Town".to_string(),
    }
}

#[test]
fn double_click_opens_event_editor() {
    let mut s = AppState::new();
    s.locations = vec![location("l1", None)];
    s.timeline_events = vec![tas::model::TimelineEvent {
        id: "5".to_string(),
        universe_id: "u1".to_string(),
        title: "Founding".to_string(),
        description: "the first stone".to_string(),
        year: -120,
        display_date: "Spring".to_string(),
        importance: "High".to_string(),
        kind: "General".to_string(),
        color: "#A1A1AA".to_string(),
        location_id: Some("l1".to_string()),
    }];
    assert_eq!(s.timeline_card_clicked("5".to_string(), 1_000), tas::click::Gesture::Single);
    assert!(s.event_editor.is_none());
    assert_eq!(s.timeline_clicks.last.as_ref().unwrap().at_ms, 1_000);
    assert_eq!(s.timeline_card_clicked("5".to_string(), 1_300), tas::click::Gesture::Double);
    assert!(s.timeline_clicks.last.is_none());
    let d = s.event_editor.clone().unwrap();
    assert_eq!(d.id, Some("5".to_string()));
    assert_eq!(d.year_input, "-120");
    assert_eq!(d.title, "Founding");
    assert_eq!(d.location_id, Some("l1".to_string()));
}

#[test]
fn double_click_on_unknown_event_opens_nothing() {
    let mut s = AppState::new();
    s.timeline_card_clicked("9".to_string(), 0);
    assert_eq!(s.timeline_card_clicked("9".to_string(), 100), tas::click::Gesture::Double);
    assert!(s.event_editor.is_none());
}

#[test]
fn double_click_opens_location_editor() {
    let mut s = AppState::new();
    s.locations = vec![location("l1", None), location("l2", Some("l1"))];
    s.location_clicked("l2".to_string(), 0);
    assert!(s.location_editor.is_none());
    assert_eq!(s.location_clicked("l2".to_string(), 300), tas::click::Gesture::Double);
    assert!(s.location_clicks.last.is_none());
    let d = s.location_editor.clone().unwrap();
    assert_eq!(d.id, Some("l2".to_string()));
    assert_eq!(d.parent_id, Some("l1".to_string()));
    assert_eq!(d.name, "Place l2");
    assert_eq!(d.kind, "Town");
    assert_eq!(s.selected_location, Some("l2".to_string()));
}

#[test]
fn double_click_opens_creature_editor() {
    let mut s = AppState::new();
    s.locations = vec![location("l1", None)];
    let mk = |id: &str, home: &str| Creature {
        id: id.to_string(),
        name: format!("Beast {id}"),
        kind: "Beast".to_string(),
        habitat: "Caves".to_string(),
        description: String::new(),
        danger: "High".to_string(),
        home_location_id: Some(home.to_string()),
        archived: false,
    };
    s.creatures = vec![mk("c1", "l1"), mk("c2", "gone")];
    s.bestiary_card_clicked("c1".to_string(), 0);
    s.bestiary_card_clicked("c1".to_string(), 500);
    let d = s.creature_editor.clone().unwrap();
    assert_eq!(d.id, Some("c1".to_string()));
    assert_eq!(d.home_location_id, Some("l1".to_string()));
    s.bestiary_card_clicked("c2".to_string(), 2_000);
    s.bestiary_card_clicked("c2".to_string(), 2_100);
    let d = s.creature_editor.clone().unwrap();
    assert_eq!(d.name, "Beast c2");
    // the home is not loaded, so the editor offers none
    assert_eq!(d.home_location_id, None);
}
