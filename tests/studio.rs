use tas::log::{error, info, note, warn};
use tas::model::{Board, KanbanBoardData};
use tas::pm::{CardDraft, SAVED_CARD_POSITION};
use tas::queue::{DbAction, DemoResetScope, MutationQueue};
use tas::studio::{AppState, Fetch, Route};
use tas::toast::{NotificationCenter, ToastKind, TOAST_TTL_SECS};

fn draft(title: &str) -> CardDraft {
    CardDraft {
        card_id: None,
        column_id: "col-todo".to_string(),
        title: title.to_string(),
        description: String::new(),
        priority: "Medium".to_string(),
    }
}

fn messages(s: &AppState) -> Vec<(String, ToastKind)> {
    s.notifications.toasts.iter().map(|t| (t.message.clone(), t.kind)).collect()
}

#[test]
fn queue_is_single_flight_and_fifo() {
    let mut q = MutationQueue::new();
    q.enqueue(DbAction::DeleteCard("a".to_string()));
    q.enqueue(DbAction::DeleteCard("b".to_string()));
    q.enqueue(DbAction::DeleteCard("c".to_string()));
    assert_eq!(q.queue_depth(), 3);
    assert!(q.drain_one());
    assert!(q.is_busy());
    // a second drain while busy is a no-op
    assert!(!q.drain_one());
    assert_eq!(q.queue_depth(), 2);
    assert_eq!(q.in_flight, Some(DbAction::DeleteCard("a".to_string())));
    let mut done = Vec::new();
    while let Some(c) = q.complete() {
        done.push(c);
        q.drain_one();
    }
    assert_eq!(
        done,
        vec![
            DbAction::DeleteCard("a".to_string()),
            DbAction::DeleteCard("b".to_string()),
            DbAction::DeleteCard("c".to_string()),
        ]
    );
    assert_eq!(q.queue_depth(), 0);
    assert!(!q.is_busy());
    assert!(!q.drain_one());
    assert_eq!(q.complete(), None);
}

#[test]
fn toast_expires_after_its_ttl() {
    let mut n = NotificationCenter::new();
    let t0 = 50_000;
    let id = n.post("Saved".to_string(), ToastKind::Success, t0);
    assert_eq!(id, 1);
    assert_eq!(n.toasts[0].ttl_secs, TOAST_TTL_SECS);
    n.tick(t0 + 3_900);
    assert_eq!(n.toasts.len(), 1);
    n.tick(t0 + 4_000);
    assert_eq!(n.toasts.len(), 1);
    n.tick(t0 + 4_100);
    assert!(n.toasts.is_empty());
}

#[test]
fn toasts_get_increasing_ids_and_can_be_dismissed() {
    let mut n = NotificationCenter::new();
    let a = n.post("a".to_string(), ToastKind::Info, 0);
    let b = n.post("a".to_string(), ToastKind::Info, 0);
    let c = n.post("c".to_string(), ToastKind::Error, 2_000);
    assert_eq!((a, b, c), (1, 2, 3));
    n.dismiss(b);
    let ids: Vec<u64> = n.toasts.iter().map(|t| t.id).collect();
    assert_eq!(ids, vec![1, 3]);
    n.dismiss(42);
    assert_eq!(n.toasts.len(), 2);
    // only the older toast has expired
    n.tick(4_500);
    let ids: Vec<u64> = n.toasts.iter().map(|t| t.id).collect();
    assert_eq!(ids, vec![3]);
}

#[test]
fn two_cards_saved_back_to_back_run_in_order() {
    let mut s = AppState::new();
    s.save_card(draft("Task A"), 0);
    s.save_card(draft("Task B"), 10);
    assert_eq!(s.queue.queue_depth(), 2);

    let step = s.post_event_tasks(true, true);
    assert!(step.dispatch);
    let first = s.queue.in_flight.clone();
    match &first {
        Some(DbAction::SaveCard(c)) => {
            assert_eq!(c.title, "Task A");
            assert_eq!(c.id.len(), 36);
            assert_eq!(c.position, SAVED_CARD_POSITION);
        }
        other => panic!("unexpected in-flight command {other:?}"),
    }
    // still running: nothing else starts
    let step = s.post_event_tasks(true, true);
    assert!(!step.dispatch);
    assert_eq!(s.queue.queue_depth(), 1);

    s.handle_action_done(&Ok(()), 100);
    let step = s.post_event_tasks(true, true);
    assert!(step.dispatch);
    match &s.queue.in_flight {
        Some(DbAction::SaveCard(c)) => assert_eq!(c.title, "Task B"),
        other => panic!("unexpected in-flight command {other:?}"),
    }
    s.handle_action_done(&Ok(()), 200);
    assert!(s.queue.in_flight.is_none());
    assert_eq!(s.queue.queue_depth(), 0);
    assert_eq!(
        messages(&s),
        vec![
            ("Task saved".to_string(), ToastKind::Success),
            ("Task saved".to_string(), ToastKind::Success),
        ]
    );
}

#[test]
fn saving_keeps_existing_card_id() {
    let mut s = AppState::new();
    let mut d = draft("Edit me");
    d.card_id = Some("card-7".to_string());
    s.save_card(d, 0);
    match s.queue.pending.front() {
        Some(DbAction::SaveCard(c)) => assert_eq!(c.id, "card-7"),
        other => panic!("unexpected command {other:?}"),
    }
}

#[test]
fn blank_draft_is_not_saved() {
    let mut s = AppState::new();
    s.save_card_with_id(draft("   "), "id-1".to_string(), 0);
    let mut no_column = draft("Title");
    no_column.column_id = String::new();
    s.save_card_with_id(no_column, "id-2".to_string(), 0);
    assert_eq!(s.queue.queue_depth(), 0);
    assert!(s.notifications.toasts.is_empty());
    s.save_card_with_id(draft("  padded  "), "id-3".to_string(), 0);
    match s.queue.pending.front() {
        Some(DbAction::SaveCard(c)) => {
            assert_eq!(c.id, "id-3");
            assert_eq!(c.title, "  padded  ");
        }
        other => panic!("unexpected command {other:?}"),
    }
}

#[test]
fn failed_write_reports_and_keeps_caches() {
    let mut s = AppState::new();
    s.loaded_creatures_universe = Some("u1".to_string());
    s.queue(DbAction::DeleteCreature("c1".to_string()));
    s.post_event_tasks(true, true);
    s.handle_action_done(&Err("disk full".to_string()), 5);
    assert!(s.queue.in_flight.is_none());
    assert_eq!(s.loaded_creatures_universe, Some("u1".to_string()));
    assert!(!s.data_dirty);
    assert_eq!(messages(&s), vec![("Action failed: disk full".to_string(), ToastKind::Error)]);
}

#[test]
fn successful_write_invalidates_every_view() {
    let mut s = AppState::new();
    s.loaded_creatures_universe = Some("u1".to_string());
    s.loaded_locations_universe = Some("u1".to_string());
    s.loaded_timeline_universe = Some("u1".to_string());
    s.loaded_snapshots_universe = Some("u1".to_string());
    s.pm_data = Some(KanbanBoardData {
        board: Board { id: "b".to_string(), name: "B".to_string(), kind: "k".to_string() },
        columns: vec![],
    });
    s.queue(DbAction::ArchiveCreature("c1".to_string(), true));
    s.post_event_tasks(true, true);
    s.handle_action_done(&Ok(()), 5);
    assert!(s.data_dirty);
    assert!(s.loaded_creatures_universe.is_none());
    assert!(s.loaded_locations_universe.is_none());
    assert!(s.loaded_timeline_universe.is_none());
    assert!(s.loaded_snapshots_universe.is_none());
    assert!(s.pm_data.is_none());
    assert!(s.notifications.toasts.is_empty());
}

#[test]
fn bulk_commands_earn_success_toasts() {
    let mut s = AppState::new();
    s.queue(DbAction::ResetDemoDataScoped("u1".to_string(), DemoResetScope::Timeline));
    s.queue(DbAction::InjectDemoData("u1".to_string()));
    s.post_event_tasks(true, true);
    s.handle_action_done(&Ok(()), 1);
    s.post_event_tasks(true, true);
    s.handle_action_done(&Ok(()), 2);
    assert_eq!(
        messages(&s),
        vec![
            ("Timeline reset complete: 5 eras / 15 events".to_string(), ToastKind::Success),
            ("Demo data injected".to_string(), ToastKind::Success),
        ]
    );
}

#[test]
fn completion_with_nothing_in_flight_only_refreshes() {
    let mut s = AppState::new();
    s.handle_action_done(&Ok(()), 1);
    assert!(s.data_dirty);
    assert!(s.queue.in_flight.is_none());
}

#[test]
fn no_store_means_no_work() {
    let mut s = AppState::new();
    s.queue(DbAction::DeleteBoard("b".to_string()));
    let step = s.post_event_tasks(false, false);
    assert!(!step.dispatch);
    assert!(step.fetches.is_empty());
    assert_eq!(s.queue.queue_depth(), 1);
}

#[test]
fn reads_wait_for_writes() {
    let mut s = AppState::new();
    s.route = Route::UniverseList;
    s.queue(DbAction::DeleteBoard("b".to_string()));
    let step = s.post_event_tasks(true, false);
    assert!(step.dispatch);
    assert_eq!(step.fetches, vec![Fetch::Projects]);
    s.handle_action_done(&Ok(()), 0);
    let step = s.post_event_tasks(true, true);
    assert!(!step.dispatch);
    assert_eq!(step.fetches, vec![Fetch::Universes]);
}

#[test]
fn fetch_plan_follows_route_and_caches() {
    let mut s = AppState::new();
    s.route = Route::Bestiary { universe_id: "u1".to_string() };
    assert_eq!(
        s.post_event_tasks(true, true).fetches,
        vec![Fetch::Creatures("u1".to_string()), Fetch::Locations("u1".to_string())]
    );
    s.mark_fetched(&Fetch::Creatures("u1".to_string()));
    assert_eq!(s.loaded_creatures_universe, Some("u1".to_string()));
    assert_eq!(s.post_event_tasks(true, true).fetches, vec![Fetch::Locations("u1".to_string())]);

    s.route = Route::Timeline { universe_id: "u2".to_string() };
    assert_eq!(
        s.post_event_tasks(true, true).fetches,
        vec![Fetch::Timeline("u2".to_string()), Fetch::Locations("u2".to_string())]
    );
    s.mark_fetched(&Fetch::Timeline("u2".to_string()));
    assert_eq!(s.post_event_tasks(true, true).fetches, vec![Fetch::Locations("u2".to_string())]);

    s.route = Route::Locations { universe_id: "u2".to_string() };
    assert_eq!(s.post_event_tasks(true, true).fetches, vec![Fetch::Locations("u2".to_string())]);
    s.mark_fetched(&Fetch::Locations("u2".to_string()));
    assert!(s.post_event_tasks(true, true).fetches.is_empty());

    s.route = Route::PmBoard { board_id: "b1".to_string() };
    assert_eq!(s.post_event_tasks(true, true).fetches, vec![Fetch::KanbanBoard("b1".to_string())]);
    s.pm_data = Some(KanbanBoardData {
        board: Board { id: "b1".to_string(), name: "B".to_string(), kind: "k".to_string() },
        columns: vec![],
    });
    assert!(s.post_event_tasks(true, true).fetches.is_empty());

    s.route = Route::Forge;
    assert!(s.post_event_tasks(true, true).fetches.is_empty());
}

#[test]
fn universe_page_visit_records_snapshots_and_forge_context() {
    let mut s = AppState::new();
    s.route = Route::UniverseDetail { universe_id: "u1".to_string() };
    s.debug_overlay_open = true;
    s.integrity_busy = true;
    assert_eq!(
        s.post_event_tasks(true, true).fetches,
        vec![Fetch::SchemaVersion, Fetch::Snapshots("u1".to_string()), Fetch::Integrity("u1".to_string())]
    );
    assert_eq!(s.loaded_snapshots_universe, Some("u1".to_string()));
    assert_eq!(s.loaded_forge_universe, Some("u1".to_string()));
    s.mark_fetched(&Fetch::Integrity("u1".to_string()));
    assert!(!s.integrity_busy);
    assert_eq!(s.post_event_tasks(true, true).fetches, vec![Fetch::SchemaVersion]);

    s.route = Route::Forge;
    s.active_story_id = Some("s1".to_string());
    assert_eq!(
        s.post_event_tasks(true, true).fetches,
        vec![Fetch::Stories("u1".to_string()), Fetch::Scenes("s1".to_string())]
    );
}

#[test]
fn failed_read_reports_error() {
    let mut s = AppState::new();
    s.integrity_busy = true;
    s.fetch_failed("no such table", 9);
    assert!(!s.integrity_busy);
    assert_eq!(messages(&s), vec![("Error loading data: no such table".to_string(), ToastKind::Error)]);
}

#[test]
fn app_state_ticks_and_dismisses_toasts() {
    let mut s = AppState::new();
    let a = s.show_toast("first", ToastKind::Info, 0);
    let b = s.show_toast("second", ToastKind::Info, 3_000);
    s.dismiss_toast(b);
    assert_eq!(s.notifications.toasts.len(), 1);
    s.tick(3_999);
    assert_eq!(s.notifications.toasts[0].id, a);
    s.tick(4_001);
    assert!(s.notifications.toasts.is_empty());
}

#[test]
fn header_titles() {
    assert_eq!(Route::Overview.header_title(), "Overview");
    assert_eq!(Route::Bestiary { universe_id: "u".to_string() }.header_title(), "Universe");
    assert_eq!(Route::PmBoard { board_id: "b".to_string() }.header_title(), "PM Tools");
    assert_eq!(Route::Forge.header_title(), "The Forge");
    assert_eq!(Route::Account.header_title(), "Account");
}

#[test]
fn log_lines() {
    assert_eq!(note("PANIC", "boom"), "[PANIC] boom");
    assert_eq!(info("started"), "[INFO] started");
    assert_eq!(warn("careful"), "[WARN] careful");
    assert_eq!(error(""), "[ERROR] ");
}

#[test]
fn subscriptions_follow_need() {
    let mut s = AppState::new();
    let subs = s.subscriptions();
    assert!(!subs.pointer_capture);
    assert!(!subs.toast_tick);
    s.show_toast("hello", ToastKind::Info, 0);
    s.press_card(
        tas::model::Card {
            id: "k".to_string(),
            column_id: "c".to_string(),
            title: String::new(),
            description: String::new(),
            position: 1,
            priority: String::new(),
        },
        tas::drag::Point { x: 0, y: 0 },
        0,
    );
    let subs = s.subscriptions();
    assert!(subs.pointer_capture);
    assert!(subs.toast_tick);
    s.mouse_released();
    s.tick(10_000);
    let subs = s.subscriptions();
    assert!(!subs.pointer_capture);
    assert!(!subs.toast_tick);
}

#[test]
fn default_state_is_empty() {
    let s = AppState::default();
    assert_eq!(s.notifications.counter, 0);
    assert!(s.board.hovered_column.is_none());
    assert!(s.board.clicks.last.is_none());
    assert!(s.timeline_clicks.last.is_none());
    assert_eq!(s.queue.queue_depth(), 0);
}
