use vstd::prelude::*;

use crate::queue::{DbAction, DemoResetScope, MutationQueue};
use crate::studio::{AppState, Route};
use crate::text::{blank, is_blank, trim, trimmed};
use crate::toast::{posted, ToastKind};

verus! {

/// What the universe pages ask for.
#[derive(Debug, Clone)]
pub enum UniverseMessage {
    NameChanged(String),
    DescChanged(String),
    Create,
    Delete(String),
    Open(String),
    InjectDemoData(String),
    ResetDemoPrompt(String, DemoResetScope),
    ResetDemoConfirm,
    ResetDemoCancel,
    ToggleDeveloperPanel,
    ToggleDebugOverlay,
    SnapshotNameChanged(String),
    SnapshotCreate(String),
    SnapshotRefresh(String),
    SnapshotRestore(String),
    SnapshotDelete(String),
    ValidateUniverse(String),
}

/// What the workspace launcher asks for.
#[derive(Debug, Clone)]
pub enum WorkspaceMessage {
    CreateStart,
    CreateCancel,
    NameChanged(String),
    CreateConfirm,
    Open(String),
    CloseProject,
    RefreshList,
    Delete(String),
}

/// The label of a demo-data reset scope.
pub open spec fn scope_label_of(scope: DemoResetScope) -> Seq<char> {
    match scope {
        DemoResetScope::All => "ALL"@,
        DemoResetScope::Timeline => "Timeline"@,
        DemoResetScope::Locations => "Locations"@,
        DemoResetScope::Bestiary => "Bestiary"@,
        DemoResetScope::PmTools => "PM Tools"@,
    }
}

pub fn scope_label(scope: DemoResetScope) -> (r: &'static str)
    ensures
        r@ == scope_label_of(scope),
{
    match scope {
        DemoResetScope::All => "ALL",
        DemoResetScope::Timeline => "Timeline",
        DemoResetScope::Locations => "Locations",
        DemoResetScope::Bestiary => "Bestiary",
        DemoResetScope::PmTools => "PM Tools",
    }
}

/// `after` is `before` with `cmd` appended to the backlog.
pub open spec fn queued(before: MutationQueue, after: MutationQueue, cmd: DbAction) -> bool {
    &&& after.pending@ == before.pending@.push(cmd)
    &&& after.enqueued@ == before.enqueued@.push(cmd)
    &&& after.in_flight == before.in_flight
    &&& after.completed@ == before.completed@
}

/// The write a universe message enqueues, other than a snapshot (whose name
/// is trimmed first).
pub open spec fn universe_command(s: AppState, msg: UniverseMessage) -> Option<DbAction> {
    match msg {
        UniverseMessage::Create => if !blank(s.new_universe_name@) {
            Some(DbAction::CreateUniverse(s.new_universe_name, s.new_universe_desc))
        } else {
            None
        },
        UniverseMessage::Delete(id) => Some(DbAction::DeleteUniverse(id)),
        UniverseMessage::InjectDemoData(id) => Some(DbAction::InjectDemoData(id)),
        UniverseMessage::ResetDemoConfirm => match s.pending_demo_reset {
            Some((uid, scope)) => Some(DbAction::ResetDemoDataScoped(uid, scope)),
            None => None,
        },
        UniverseMessage::SnapshotRestore(id) => Some(DbAction::SnapshotRestore { snapshot_id: id }),
        UniverseMessage::SnapshotDelete(id) => Some(DbAction::SnapshotDelete { snapshot_id: id }),
        _ => None,
    }
}

/// Whether a snapshot message names a snapshot to create.
pub open spec fn creates_snapshot(s: AppState, msg: UniverseMessage) -> bool {
    msg is SnapshotCreate && trimmed(s.snapshot_name@).len() > 0
}

/// The informational toast a universe message posts.
pub open spec fn universe_toast(s: AppState, msg: UniverseMessage) -> Option<Seq<char>> {
    match msg {
        UniverseMessage::Create => if !blank(s.new_universe_name@) {
            Some("Creating universe..."@)
        } else {
            None
        },
        UniverseMessage::Delete(_) => Some("Universe deleted"@),
        UniverseMessage::InjectDemoData(_) => Some("Injecting demo data..."@),
        UniverseMessage::ResetDemoConfirm => if s.pending_demo_reset is Some {
            Some("Resetting demo data..."@)
        } else {
            None
        },
        UniverseMessage::SnapshotCreate(_) => if creates_snapshot(s, msg) {
            Some("Creating snapshot..."@)
        } else {
            None
        },
        UniverseMessage::SnapshotRefresh(_) => Some("Refreshing snapshots..."@),
        UniverseMessage::SnapshotRestore(_) => Some("Restoring snapshot..."@),
        UniverseMessage::SnapshotDelete(_) => Some("Deleting snapshot..."@),
        _ => None,
    }
}

impl AppState {
    /// Handles a message of the universe pages: form edits, navigation, and
    /// the writes they ask for, each confirmed by an informational toast.
    pub fn update_universe(&mut self, msg: UniverseMessage, now_ms: u64)
        requires
            old(self).wf(),
            old(self).can_post(),
        ensures
            final(self).wf(),
            match universe_command(*old(self), msg) {
                Some(cmd) => queued(old(self).queue, final(self).queue, cmd),
                None => if creates_snapshot(*old(self), msg) {
                    exists|name: String| #![auto] {
                        &&& name@ == trimmed(old(self).snapshot_name@)
                        &&& queued(
                            old(self).queue,
                            final(self).queue,
                            DbAction::SnapshotCreate { universe_id: msg->SnapshotCreate_0, name },
                        )
                    }
                } else {
                    final(self).queue == old(self).queue
                },
            },
            match universe_toast(*old(self), msg) {
                Some(m) => posted(old(self).notifications, final(self).notifications, m, ToastKind::Info, now_ms),
                None => final(self).notifications == old(self).notifications,
            },
            final(self).route == match msg {
                UniverseMessage::Open(id) => Route::UniverseDetail { universe_id: id },
                UniverseMessage::SnapshotRefresh(id) => Route::UniverseDetail { universe_id: id },
                _ => old(self).route,
            },
            final(self).new_universe_name@ == match msg {
                UniverseMessage::NameChanged(v) => v@,
                UniverseMessage::Create => if !blank(old(self).new_universe_name@) {
                    Seq::empty()
                } else {
                    old(self).new_universe_name@
                },
                _ => old(self).new_universe_name@,
            },
            final(self).new_universe_desc@ == match msg {
                UniverseMessage::DescChanged(v) => v@,
                UniverseMessage::Create => if !blank(old(self).new_universe_name@) {
                    Seq::empty()
                } else {
                    old(self).new_universe_desc@
                },
                _ => old(self).new_universe_desc@,
            },
            final(self).pending_demo_reset == match msg {
                UniverseMessage::ResetDemoPrompt(uid, scope) => Some((uid, scope)),
                UniverseMessage::ResetDemoCancel | UniverseMessage::ResetDemoConfirm => None,
                _ => old(self).pending_demo_reset,
            },
            final(self).dev_panel_open == (old(self).dev_panel_open != (msg is ToggleDeveloperPanel)),
            final(self).debug_overlay_open == (old(self).debug_overlay_open != (msg is ToggleDebugOverlay)),
            final(self).debug_schema_version == if msg is ToggleDebugOverlay {
                None
            } else {
                old(self).debug_schema_version
            },
            final(self).snapshot_name@ == match msg {
                UniverseMessage::SnapshotNameChanged(v) => v@,
                UniverseMessage::SnapshotCreate(_) => if creates_snapshot(*old(self), msg) {
                    Seq::empty()
                } else {
                    old(self).snapshot_name@
                },
                _ => old(self).snapshot_name@,
            },
            final(self).loaded_snapshots_universe == if msg is SnapshotRefresh {
                None
            } else {
                old(self).loaded_snapshots_universe
            },
            final(self).integrity_busy == (old(self).integrity_busy || msg is ValidateUniverse),
            final(self).data_dirty == old(self).data_dirty,
            final(self).pm_data == old(self).pm_data,
            final(self).loaded_creatures_universe == old(self).loaded_creatures_universe,
            final(self).loaded_locations_universe == old(self).loaded_locations_universe,
            final(self).loaded_timeline_universe == old(self).loaded_timeline_universe,
            final(self).loaded_forge_universe == old(self).loaded_forge_universe,
    {
        match msg {
            UniverseMessage::NameChanged(v) => {
                self.new_universe_name = v;
            },
            UniverseMessage::DescChanged(v) => {
                self.new_universe_desc = v;
            },
            UniverseMessage::Create => {
                if !is_blank(self.new_universe_name.as_str()) {
                    let cmd = DbAction::CreateUniverse(self.new_universe_name.clone(), self.new_universe_desc.clone());
                    self.queue(cmd);
                    self.new_universe_name = String::new();
                    self.new_universe_desc = String::new();
                    self.show_toast("Creating universe...", ToastKind::Info, now_ms);
                }
            },
            UniverseMessage::Delete(id) => {
                self.queue(DbAction::DeleteUniverse(id));
                self.show_toast("Universe deleted", ToastKind::Info, now_ms);
            },
            UniverseMessage::Open(id) => {
                self.route = Route::UniverseDetail { universe_id: id };
            },
            UniverseMessage::InjectDemoData(id) => {
                self.queue(DbAction::InjectDemoData(id));
                self.show_toast("Injecting demo data...", ToastKind::Info, now_ms);
            },
            UniverseMessage::ResetDemoPrompt(uid, scope) => {
                self.pending_demo_reset = Some((uid, scope));
            },
            UniverseMessage::ResetDemoCancel => {
                self.pending_demo_reset = None;
            },
            UniverseMessage::ResetDemoConfirm => {
                if let Some((uid, scope)) = self.pending_demo_reset.take() {
                    self.queue(DbAction::ResetDemoDataScoped(uid, scope));
                    self.show_toast("Resetting demo data...", ToastKind::Info, now_ms);
                }
            },
            UniverseMessage::ToggleDeveloperPanel => {
                self.dev_panel_open = !self.dev_panel_open;
            },
            UniverseMessage::ToggleDebugOverlay => {
                self.debug_overlay_open = !self.debug_overlay_open;
                self.debug_schema_version = None;
            },
            UniverseMessage::SnapshotNameChanged(v) => {
                self.snapshot_name = v;
            },
            UniverseMessage::SnapshotCreate(universe_id) => {
                let name = trim(self.snapshot_name.as_str()).to_owned();
                if !name.as_str().is_empty() {
                    let ghost n = name;
                    self.queue(DbAction::SnapshotCreate { universe_id, name });
                    self.snapshot_name = String::new();
                    self.show_toast("Creating snapshot...", ToastKind::Info, now_ms);
                    assert(n@ == trimmed(old(self).snapshot_name@));
                    assert(queued(
                        old(self).queue,
                        self.queue,
                        DbAction::SnapshotCreate { universe_id: msg->SnapshotCreate_0, name: n },
                    ));
                }
            },
            UniverseMessage::SnapshotRefresh(universe_id) => {
                self.loaded_snapshots_universe = None;
                self.show_toast("Refreshing snapshots...", ToastKind::Info, now_ms);
                self.route = Route::UniverseDetail { universe_id };
            },
            UniverseMessage::SnapshotRestore(snapshot_id) => {
                self.queue(DbAction::SnapshotRestore { snapshot_id });
                self.show_toast("Restoring snapshot...", ToastKind::Info, now_ms);
            },
            UniverseMessage::SnapshotDelete(snapshot_id) => {
                self.queue(DbAction::SnapshotDelete { snapshot_id });
                self.show_toast("Deleting snapshot...", ToastKind::Info, now_ms);
            },
            UniverseMessage::ValidateUniverse(_) => {
                self.integrity_busy = true;
            },
        }
    }

    /// Handles the launcher's project form; the other workspace messages
    /// act on files and are left to the caller.
    pub fn update_workspace(&mut self, msg: &WorkspaceMessage)
        ensures
            final(self).is_creating_project == match msg {
                WorkspaceMessage::CreateStart => true,
                WorkspaceMessage::CreateCancel => false,
                _ => old(self).is_creating_project,
            },
            final(self).new_project_name@ == match msg {
                WorkspaceMessage::CreateStart => Seq::empty(),
                WorkspaceMessage::NameChanged(v) => v@,
                _ => old(self).new_project_name@,
            },
            final(self).queue == old(self).queue,
            final(self).notifications == old(self).notifications,
            crate::studio::same_views(*old(self), *final(self)),
    {
        match msg {
            WorkspaceMessage::CreateStart => {
                self.is_creating_project = true;
                self.new_project_name = String::new();
            },
            WorkspaceMessage::CreateCancel => {
                self.is_creating_project = false;
            },
            WorkspaceMessage::NameChanged(v) => {
                self.new_project_name = v.clone();
            },
            _ => {},
        }
    }
}

} // verus!
