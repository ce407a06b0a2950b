use elcarax::asset_index::{AssetIndex, AssetSelection};
use elcarax::asset_record::AssetRecord;
use elcarax::asset_scan::AssetScan;
use elcarax::asset_state::{AssetState, AssetStep};
use elcarax::asset_watch::{AssetWatchError, AssetWatchEvent, AssetWatchEventKind, AssetWatchStatus};
use elcarax::assets::{stable_asset_id_from_path, AssetDiagnostic, AssetKind};
use elcarax::editor_commands::{
    ASSET_CLEAR_SELECTION_COMMAND, ASSET_REFRESH_COMMAND, ASSET_REVEAL_ROOT_COMMAND,
    ASSET_SCAN_COMMAND, ASSET_SHOW_SELECTED_COMMAND, ASSET_START_WATCHING_COMMAND,
    ASSET_STOP_WATCHING_COMMAND,
};
use elcarax::editor_display::{
    asset_ui_snapshot_with_scroll, AssetScanStatus, AssetUiState, MAX_VISIBLE_ASSET_ROWS,
};

fn fixture_scan() -> AssetScan {
    AssetScan {
        root: Some("fixtures/assets".to_string()),
        request: None,
        index: AssetIndex::from_records(vec![
            AssetRecord::from_parts(
                stable_asset_id_from_path("README.md"),
                "README.md",
                "README.md",
                AssetKind::Text,
            ),
            AssetRecord::from_parts(
                stable_asset_id_from_path("models/hero.glb"),
                "hero.glb",
                "models/hero.glb",
                AssetKind::Model,
            ),
            AssetRecord::from_parts(
                stable_asset_id_from_path("scenes/level.scene"),
                "level.scene",
                "scenes/level.scene",
                AssetKind::Scene,
            ),
        ]),
        diagnostics: Vec::new(),
    }
}

fn done_message(step: Option<AssetStep>) -> Option<String> {
    match step {
        Some(AssetStep::Done(result)) | Some(AssetStep::StopWatcher(result)) => {
            Some(result.message().to_string())
        }
        _ => None,
    }
}

#[test]
fn fixture_scan_kind_summary_is_stable() {
    let mut state = AssetState::default();
    state.load_fixture_scan(fixture_scan());
    assert_eq!(state.kind_summary(), "Model=1, Scene=1, Text=1");
}

#[test]
fn asset_scan_without_root_reports_empty_state() {
    let mut state = AssetState::default();
    let result = state.execute_command_id(ASSET_SCAN_COMMAND, true);
    assert_eq!(done_message(result).as_deref(), Some("No asset root loaded"));
    assert_eq!(state.index().len(), 0);
}

#[test]
fn asset_scan_without_project_returns_clear_result() {
    let mut state = AssetState::default();
    let result = state.execute_command_id(ASSET_SCAN_COMMAND, false);
    assert_eq!(done_message(result).as_deref(), Some("No project open"));
    assert!(state.index().is_empty());
}

#[test]
fn watch_events_mark_index_dirty() {
    let mut state = AssetState::default();
    state.on_project_opened("project", "project/assets");
    state.apply_watch_events(&[AssetWatchEvent::synthetic_change("project/assets/new.txt")]);
    assert!(state.is_dirty());
    assert_eq!(state.scan_status(), AssetScanStatus::Dirty);
}

#[test]
fn asset_show_selected_reports_selected_asset() {
    let mut state = AssetState::default();
    state.load_fixture_scan(fixture_scan());
    assert!(state.select_row(0));
    let result = state.execute_command_id(ASSET_SHOW_SELECTED_COMMAND, true);
    assert_eq!(done_message(result).as_deref(), Some("Selected asset: README.md"));
}

#[test]
fn asset_reveal_root_reports_root() {
    let mut state = AssetState::default();
    state.on_project_opened("project", "project/assets");
    let result = state.execute_command_id(ASSET_REVEAL_ROOT_COMMAND, true);
    assert_eq!(done_message(result).as_deref(), Some("Asset root: project/assets"));
}

#[test]
fn asset_clear_selection_clears_selection() {
    let mut state = AssetState::default();
    state.load_fixture_scan(fixture_scan());
    assert!(state.select_row(0));
    let _ = state.execute_command_id(ASSET_CLEAR_SELECTION_COMMAND, true);
    assert_eq!(state.selection().selected(), None);
}

#[test]
fn asset_snapshot_uses_scroll_offset_window() {
    let records: Vec<_> = (0..(MAX_VISIBLE_ASSET_ROWS + 2))
        .map(|index| {
            let path = format!("asset-{index}.txt");
            AssetRecord::from_parts(
                stable_asset_id_from_path(&path),
                &format!("asset-{index}.txt"),
                &path,
                AssetKind::Text,
            )
        })
        .collect();
    let index = AssetIndex::from_records(records);
    let snapshot = asset_ui_snapshot_with_scroll(
        &index,
        &AssetSelection::none(),
        AssetUiState {
            project_loaded: true,
            scan_status: AssetScanStatus::Ready,
            watch_status: &AssetWatchStatus::Stopped,
            diagnostics: &[],
            last_command_message: None,
            dirty: false,
            scanned: true,
        },
        2,
    );
    assert_eq!(snapshot.scroll_offset, 2);
    assert_eq!(snapshot.total_rows, MAX_VISIBLE_ASSET_ROWS + 2);
    assert!(snapshot.asset_row_labels[0].contains("asset-2.txt"));
    assert!(snapshot.asset_row_labels[MAX_VISIBLE_ASSET_ROWS - 1].contains("asset-9.txt"));
}

#[test]
fn scroll_offset_is_clamped_to_last_window() {
    let records: Vec<_> = (0..10)
        .map(|index| {
            let path = format!("asset-{index}.txt");
            AssetRecord::from_parts(stable_asset_id_from_path(&path), &path, &path, AssetKind::Text)
        })
        .collect();
    let index = AssetIndex::from_records(records);
    let state = AssetUiState {
        project_loaded: true,
        scan_status: AssetScanStatus::Ready,
        watch_status: &AssetWatchStatus::Stopped,
        diagnostics: &[],
        last_command_message: None,
        dirty: false,
        scanned: true,
    };
    let snapshot = asset_ui_snapshot_with_scroll(&index, &AssetSelection::none(), state, 50);
    assert_eq!(snapshot.scroll_offset, 2);
    assert_eq!(snapshot.asset_row_labels.len(), MAX_VISIBLE_ASSET_ROWS);
    assert_eq!(snapshot.asset_row_labels[0], "asset-2.txt - asset-2.txt (Text)");
    assert_eq!(snapshot.asset_count, "Assets: 10 | Text=10 | Watch: stopped");
    assert_eq!(snapshot.asset_selected_summary, "Selected: None");
}

#[test]
fn scan_step_names_project_roots_and_finish_reports_count() {
    let mut state = AssetState::default();
    state.on_project_opened("/work/project", "/work/project/assets");
    match state.execute_command_id(ASSET_SCAN_COMMAND, true) {
        Some(AssetStep::RunScan { request, refresh }) => {
            assert!(!refresh);
            assert_eq!(request.root().project_root(), "/work/project");
            assert_eq!(request.root().asset_root(), "/work/project/assets");
        }
        _ => panic!("scan should ask for a scan"),
    }
    assert_eq!(state.scan_status(), AssetScanStatus::Scanning);
    let result = state.finish_scan(false, fixture_scan());
    assert_eq!(result.command_id(), ASSET_SCAN_COMMAND);
    assert_eq!(result.message(), "Scanned 3 asset(s)");
    assert_eq!(state.scanned_asset_count(), Some(3));
    assert_eq!(state.scan_status(), AssetScanStatus::Ready);
}

#[test]
fn refresh_clears_dirty_and_reports_first_diagnostic() {
    let mut state = AssetState::default();
    state.on_project_opened("project", "project/assets");
    state.apply_watch_events(&[AssetWatchEvent::synthetic_change("project/assets/a.txt")]);
    assert!(matches!(
        state.execute_command_id(ASSET_REFRESH_COMMAND, true),
        Some(AssetStep::RunScan { refresh: true, .. })
    ));
    let mut scan = fixture_scan();
    scan.diagnostics.push(AssetDiagnostic::error("root", "Asset root is not a directory: x"));
    let result = state.finish_scan(true, scan);
    assert_eq!(result.command_id(), ASSET_REFRESH_COMMAND);
    assert_eq!(
        result.message(),
        "Refreshed 3 asset(s); root: Asset root is not a directory: x"
    );
    assert!(!state.is_dirty());
    assert_eq!(state.scan_status(), AssetScanStatus::Error);
}

#[test]
fn scan_keeps_selection_only_while_asset_remains() {
    let mut state = AssetState::default();
    state.load_fixture_scan(fixture_scan());
    assert!(state.select_row(1));
    let kept = state.selection().selected();
    let _ = state.finish_scan(true, fixture_scan());
    assert_eq!(state.selection().selected(), kept);
    let empty = AssetScan { root: None, request: None, index: AssetIndex::new(), diagnostics: Vec::new() };
    let _ = state.finish_scan(true, empty);
    assert_eq!(state.selection().selected(), None);
}

#[test]
fn start_watching_asks_for_watcher_and_records_outcome() {
    let mut state = AssetState::default();
    state.on_project_opened("project", "project/assets");
    match state.execute_command_id(ASSET_START_WATCHING_COMMAND, true) {
        Some(AssetStep::StartWatcher(root)) => assert_eq!(root, "project/assets"),
        _ => panic!("start watching should ask for a watcher"),
    }
    let result =
        state.finish_start_watching(Ok(AssetWatchStatus::Watching("project/assets".to_string())));
    assert_eq!(result.message(), "Started asset watcher");
    assert!(state.is_watching());
    let stopped = state.execute_command_id(ASSET_STOP_WATCHING_COMMAND, true);
    assert_eq!(done_message(stopped).as_deref(), Some("Stopped asset watcher"));
    assert!(!state.is_watching());
    assert_eq!(state.watch_status(), &AssetWatchStatus::Stopped);
}

#[test]
fn failed_watcher_start_is_reported_as_error() {
    let mut state = AssetState::default();
    state.on_project_opened("project", "project/assets");
    let result =
        state.finish_start_watching(Err(AssetWatchError::StartFailed("no inotify".to_string())));
    assert_eq!(result.message(), "asset watcher start failed: no inotify");
    assert_eq!(
        state.watch_status(),
        &AssetWatchStatus::Error("asset watcher start failed: no inotify".to_string())
    );
    assert_eq!(state.scan_status(), AssetScanStatus::Error);
    let snapshot = state.ui_snapshot();
    assert_eq!(snapshot.asset_count, "Asset error: watch: asset watcher start failed: no inotify");
}

#[test]
fn watch_error_events_become_diagnostics() {
    let mut state = AssetState::default();
    state.on_project_opened("project", "project/assets");
    state.apply_watch_events(&[AssetWatchEvent {
        kind: AssetWatchEventKind::Error("queue overflow".to_string()),
        paths: Vec::new(),
    }]);
    assert!(!state.is_dirty());
    assert_eq!(state.scan_status(), AssetScanStatus::Error);
    assert_eq!(state.watch_status(), &AssetWatchStatus::Error("queue overflow".to_string()));
    assert_eq!(state.ui_snapshot().status_asset_suffix, "Asset: watch: queue overflow");
}

#[test]
fn unknown_and_non_asset_commands_are_not_handled() {
    let mut state = AssetState::default();
    assert!(state.execute_command_id("asset.unknown", true).is_none());
    assert!(state.execute_command_id("scene.load", true).is_none());
}

#[test]
fn project_close_clears_roots_and_index() {
    let mut state = AssetState::default();
    state.load_fixture_scan(fixture_scan());
    state.on_project_closed();
    assert!(state.index().is_empty());
    assert_eq!(state.scanned_asset_count(), None);
    assert_eq!(state.scan_status(), AssetScanStatus::UnavailableNoProject);
    assert_eq!(state.ui_snapshot().asset_count, "Assets unavailable - no project open");
}
