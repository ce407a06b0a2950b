use elcarax::asset_demo::{demo_asset_index, scan_demo_assets};
use elcarax::asset_index::{AssetIndex, AssetSelection};
use elcarax::asset_record::{AssetMetadata, AssetRecord};
use elcarax::asset_scan::{
    apply_selection_after_scan, project_relative_path, should_skip_path, AssetRoot, AssetRootState,
    AssetScan, AssetScanRequest, DirectoryListing, FileFacts, ScanStep, ScannedEntry,
};
use elcarax::asset_watch::{coalesce_events, AssetWatchEvent, AssetWatchEventKind};
use elcarax::assets::{
    detect_kind_from_extension, detect_kind_from_path, normalized_asset_path_string,
    stable_asset_id, stable_asset_id_from_path, AssetError, AssetKind, AssetName, AssetPath,
};

fn fixture_asset_index() -> AssetIndex {
    AssetIndex::from_records(vec![
        AssetRecord::from_parts(
            stable_asset_id_from_path("README.md"),
            "README.md",
            "README.md",
            AssetKind::Text,
        ),
        AssetRecord::from_parts(
            stable_asset_id_from_path("assets/models/cube.glb"),
            "cube.glb",
            "assets/models/cube.glb",
            AssetKind::Model,
        ),
    ])
}

#[test]
fn empty_asset_index_is_valid() {
    let index = AssetIndex::new();
    assert!(index.is_empty());
    assert_eq!(index.len(), 0);
    assert_eq!(index.kind_summary(), "none");
}

#[test]
fn extension_detection_maps_known_types() {
    assert_eq!(detect_kind_from_extension(Some("scene")), AssetKind::Scene);
    assert_eq!(detect_kind_from_extension(Some("png")), AssetKind::Image);
    assert_eq!(detect_kind_from_extension(Some("wav")), AssetKind::Audio);
    assert_eq!(detect_kind_from_extension(Some("glb")), AssetKind::Model);
    assert_eq!(detect_kind_from_extension(Some("rs")), AssetKind::Script);
    assert_eq!(detect_kind_from_extension(Some("material")), AssetKind::Material);
    assert_eq!(detect_kind_from_extension(Some("md")), AssetKind::Text);
}

#[test]
fn unknown_extension_maps_to_unknown() {
    assert_eq!(detect_kind_from_extension(Some("xyz")), AssetKind::Unknown);
    assert_eq!(detect_kind_from_extension(None), AssetKind::Unknown);
}

#[test]
fn extension_detection_ignores_ascii_case() {
    assert_eq!(detect_kind_from_extension(Some("PNG")), AssetKind::Image);
    assert_eq!(detect_kind_from_path("models/Hero.GLB", false), AssetKind::Model);
    assert_eq!(detect_kind_from_path("models", true), AssetKind::Folder);
    assert_eq!(detect_kind_from_path(".gitignore", false), AssetKind::Unknown);
}

#[test]
fn path_normalization_uses_forward_slashes_for_ids() {
    let windows = "assets\\models\\hero.glb";
    let portable = "assets/models/hero.glb";
    assert_eq!(normalized_asset_path_string(windows), "assets/models/hero.glb");
    assert_eq!(
        stable_asset_id_from_path(windows),
        stable_asset_id_from_path(portable)
    );
}

#[test]
fn normalization_drops_dots_and_repeated_separators() {
    assert_eq!(normalized_asset_path_string("./assets//a/../b.txt"), "assets/a/../b.txt");
    assert_eq!(normalized_asset_path_string("/root/x"), "root/x");
}

#[test]
fn stable_id_is_fnv_of_the_normalized_path() {
    let id = stable_asset_id_from_path("a");
    assert_eq!(id.get(), 0xaf63dc4c8601ec8c);
    assert_eq!(stable_asset_id(0).get(), 1);
}

#[test]
fn selecting_first_asset_works() {
    let index = fixture_asset_index();
    let mut selection = AssetSelection::none();
    assert!(selection.select_first(&index));
    let selected = match selection.selected() {
        Some(id) => id,
        None => panic!("first asset should be selected"),
    };
    assert_eq!(
        index.find(selected).map(|record| record.path.display()),
        Some("README.md".to_string())
    );
}

#[test]
fn clearing_selection_works() {
    let index = fixture_asset_index();
    let mut selection = AssetSelection::none();
    assert!(selection.select_first(&index));
    selection.clear();
    assert_eq!(selection.selected(), None);
}

#[test]
fn asset_index_selection_by_id_works() {
    let index = fixture_asset_index();
    let first = match index.first() {
        Some(record) => record.id,
        None => panic!("fixture index should contain records"),
    };
    assert_eq!(
        index.find(first).map(|record| record.path.display()),
        Some("README.md".to_string())
    );
}

#[test]
fn lib_missing_root_returns_diagnostic_not_panic() {
    let mut scanner = AssetScan::scan_root("definitely/missing/root");
    assert_eq!(scanner.start(AssetRootState::Missing), ScanStep::Finished);
    let scan = scanner.into_scan();
    assert!(scan.index.is_empty());
    assert!(!scan.diagnostics.is_empty());
}

#[test]
fn scan_missing_root_returns_diagnostic_not_panic() {
    let mut scanner = AssetScan::scan_root("missing/asset/root/for/elcarax");
    let _ = scanner.start(AssetRootState::Missing);
    let scan = scanner.into_scan();
    assert!(scan.index.is_empty());
    assert_eq!(scan.diagnostics.len(), 1);
    assert_eq!(scan.diagnostics[0].field(), "root");
}

#[test]
fn root_that_is_a_file_is_an_error() {
    let mut scanner = AssetScan::scan(AssetScanRequest::new("project", "assets"));
    let _ = scanner.start(AssetRootState::NotDirectory);
    let scan = scanner.into_scan();
    assert_eq!(
        scan.diagnostics[0].summary(),
        "root: Asset root is not a directory: project/assets"
    );
}

#[test]
fn demo_scan_has_expected_count() {
    let scan = scan_demo_assets();
    assert_eq!(scan.asset_count(), 7);
}

#[test]
fn demo_index_kind_counts_are_correct() {
    let index = demo_asset_index();
    let counts = index.kind_counts();
    assert_eq!(counts.get(&AssetKind::Scene), Some(1));
    assert_eq!(counts.get(&AssetKind::Image), Some(1));
    assert_eq!(counts.get(&AssetKind::Unknown), None);
}

#[test]
fn demo_kind_summary_lists_kinds_in_order() {
    let index = demo_asset_index();
    assert_eq!(
        index.kind_summary(),
        "Audio=1, Image=1, Material=1, Model=1, Scene=1, Script=1, Text=1"
    );
}

#[test]
fn synthetic_event_has_path() {
    let event = AssetWatchEvent::synthetic_change("assets/hero.glb");
    assert_eq!(event.kind, AssetWatchEventKind::Changed);
    assert_eq!(event.paths, vec!["assets/hero.glb".to_string()]);
}

#[test]
fn coalescing_merges_paths() {
    let events = coalesce_events(vec![
        AssetWatchEvent::synthetic_change("assets/a.txt"),
        AssetWatchEvent::synthetic_change("assets/b.txt"),
    ]);
    assert_eq!(events.len(), 1);
    assert_eq!(events[0].paths.len(), 2);
}

#[test]
fn coalescing_keeps_each_path_once_in_order_and_reports_errors() {
    let events = coalesce_events(vec![
        AssetWatchEvent::synthetic_change("assets/b.txt"),
        AssetWatchEvent { kind: AssetWatchEventKind::Error("lost".to_string()), paths: vec![] },
        AssetWatchEvent::synthetic_change("assets//b.txt"),
        AssetWatchEvent::synthetic_change("assets/a.txt"),
    ]);
    assert_eq!(events.len(), 1);
    assert_eq!(events[0].kind, AssetWatchEventKind::Error("lost".to_string()));
    assert_eq!(events[0].paths, vec!["assets/a.txt".to_string(), "assets/b.txt".to_string()]);
}

#[test]
fn names_and_paths_are_validated() {
    assert_eq!(AssetName::new("  hero.glb ").map(|n| n.as_str().to_string()), Ok("hero.glb".to_string()));
    assert_eq!(AssetName::new("   ").err(), Some(AssetError::EmptyAssetName));
    assert_eq!(AssetPath::new("").err(), Some(AssetError::EmptyAssetPath));
    assert_eq!(AssetError::Io("disk".to_string()).message(), "asset io error: disk");
    assert_eq!(AssetName::from_path("assets/models/hero.glb").map(|n| n.as_str().to_string()), Ok("hero.glb".to_string()));
}

#[test]
fn record_takes_its_name_from_the_path() {
    let id = stable_asset_id(9);
    let record = match AssetRecord::with_detected_kind(id, "assets\\audio\\click.WAV", false) {
        Ok(r) => r,
        Err(e) => panic!("record should be made: {}", e.message()),
    };
    assert_eq!(record.name.as_str(), "click.WAV");
    assert_eq!(record.path.display(), "assets/audio/click.WAV");
    assert_eq!(record.kind, AssetKind::Audio);
    let with_meta = record.with_metadata(AssetMetadata::empty().with_file_size(Some(12)));
    assert_eq!(with_meta.file_size, Some(12));
}

#[test]
fn index_orders_records_by_path() {
    let mut index = AssetIndex::from_records(vec![
        AssetRecord::from_parts(stable_asset_id(2), "z.txt", "assets/z.txt", AssetKind::Text),
        AssetRecord::from_parts(stable_asset_id(1), "a.txt", "assets/a.txt", AssetKind::Text),
    ]);
    index.insert(AssetRecord::from_parts(stable_asset_id(3), "m.txt", "assets/m.txt", AssetKind::Text));
    index.insert(AssetRecord::from_parts(stable_asset_id(4), "up", "../up", AssetKind::Folder));
    let paths: Vec<String> = index.records().iter().map(|r| r.path.display()).collect();
    assert_eq!(paths, vec!["../up", "assets/a.txt", "assets/m.txt", "assets/z.txt"]);
}

#[test]
fn selection_is_kept_only_while_the_asset_exists() {
    let scan = scan_demo_assets();
    let mut selection = AssetSelection::none();
    selection.select(stable_asset_id(5));
    apply_selection_after_scan(&scan, &mut selection);
    assert_eq!(selection.selected().map(|id| id.get()), Some(5));
    selection.select(stable_asset_id(99));
    apply_selection_after_scan(&scan, &mut selection);
    assert_eq!(selection.selected(), None);
}

#[test]
fn roots_resolve_against_the_project() {
    let root = AssetRoot::new("project", "assets");
    assert_eq!(root.asset_root(), "project/assets");
    let absolute = AssetRoot::new("project", "/data/assets");
    assert_eq!(absolute.asset_root(), "/data/assets");
    let from_root = AssetRoot::from_asset_root("game/assets");
    assert_eq!(from_root.project_root(), "game");
    let bare = AssetRoot::from_asset_root("assets");
    assert_eq!(bare.project_root(), "");
}

#[test]
fn relative_paths_and_hidden_entries() {
    assert_eq!(project_relative_path("/p", "/p/assets/a.txt"), "assets/a.txt");
    assert_eq!(project_relative_path("/p", "/q/a.txt"), "/q/a.txt");
    assert!(should_skip_path("assets/.elcarax"));
    assert!(should_skip_path("assets/.secret.txt"));
    assert!(!should_skip_path("assets/visible.txt"));
}

fn file(path: &str, size: u64) -> Result<ScannedEntry, String> {
    Ok(ScannedEntry {
        path: path.to_string(),
        is_directory: false,
        metadata: Ok(FileFacts { file_size: size, modified_time: Some(7) }),
    })
}

fn dir(path: &str) -> Result<ScannedEntry, String> {
    Ok(ScannedEntry {
        path: path.to_string(),
        is_directory: true,
        metadata: Ok(FileFacts { file_size: 0, modified_time: None }),
    })
}

fn listing_for(path: &str) -> DirectoryListing {
    match path {
        "root/assets" => DirectoryListing::Read(vec![
            file("root/assets/z.txt", 1),
            dir("root/assets/models"),
            file("root/assets/.secret.txt", 1),
            dir("root/assets/.elcarax"),
            Err("permission denied".to_string()),
        ]),
        "root/assets/models" => DirectoryListing::Read(vec![file("root/assets/models/hero.glb", 5)]),
        _ => DirectoryListing::Failed("not found".to_string()),
    }
}

#[test]
fn scanner_walks_the_tree_in_path_order() {
    let mut scanner = AssetScan::scan(AssetScanRequest::new("root", "assets"));
    let mut step = scanner.start(AssetRootState::Directory);
    let mut reads = Vec::new();
    loop {
        step = match step {
            ScanStep::ReadDirectory(path) => {
                reads.push(path.clone());
                scanner.on_listing(listing_for(&path))
            }
            ScanStep::Continue => scanner.advance(),
            ScanStep::Finished => break,
        };
    }
    assert_eq!(reads, vec!["root/assets".to_string(), "root/assets/models".to_string()]);
    let scan = scanner.into_scan();
    let paths: Vec<String> = scan.index.records().iter().map(|r| r.path.display()).collect();
    assert_eq!(paths, vec!["assets/models", "assets/models/hero.glb", "assets/z.txt"]);
    assert_eq!(scan.index.records()[0].kind, AssetKind::Folder);
    assert_eq!(scan.index.records()[1].file_size, Some(5));
    assert_eq!(scan.index.records()[0].file_size, None);
    assert_eq!(scan.diagnostics.len(), 1);
    assert_eq!(
        scan.diagnostics[0].summary(),
        "scan: Failed to read entry in root/assets: permission denied"
    );
}

#[test]
fn stable_asset_ids_survive_repeated_scans() {
    let run = || {
        let mut scanner = AssetScan::scan(AssetScanRequest::new("root", "assets"));
        let mut step = scanner.start(AssetRootState::Directory);
        loop {
            step = match step {
                ScanStep::ReadDirectory(path) => scanner.on_listing(listing_for(&path)),
                ScanStep::Continue => scanner.advance(),
                ScanStep::Finished => break,
            };
        }
        scanner.into_scan()
    };
    let first = run();
    let second = run();
    assert_eq!(first.index.records()[0].id, second.index.records()[0].id);
}
