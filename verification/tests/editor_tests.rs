use elcarax::app_config::{env_flag, AppEnvironment, AppProjectConfig};
use elcarax::bindings::CommandBindingRegistry;
use elcarax::builtin::built_in_commands;
use elcarax::command::{CommandId, CommandScope, KeyChord, KeyModifier};
use elcarax::editor_commands::{
    AssetCommand, EditorAvailabilityInputs, EditorCommand, EditorCommandRouter,
    ProjectCommand, ViewportCommand, ADAPTER_HANDSHAKE_COMMAND, ASSET_CLEAR_SELECTION_COMMAND,
    ASSET_REFRESH_COMMAND, ASSET_REVEAL_ROOT_COMMAND, ASSET_SCAN_COMMAND,
    ASSET_SHOW_SELECTED_COMMAND, ASSET_START_WATCHING_COMMAND, ASSET_STOP_WATCHING_COMMAND,
    EDIT_REDO_COMMAND, EDIT_UNDO_COMMAND, PROJECT_OPEN_COMMAND, SCENE_LOAD_COMMAND,
    SCENE_SAVE_COMMAND, UNSAVED_SCENE_MESSAGE, VIEWPORT_REQUEST_FRAME_COMMAND,
};
use elcarax::editor_toolbar::{
    command_summary, shortcut_summary, toolbar_snapshot, ToolbarAction, ToolbarButtonState,
};
use elcarax::registry::{CommandRegistry, CommandResult};

fn registry_and_bindings() -> (CommandRegistry, CommandBindingRegistry) {
    let registry = match built_in_commands() {
        Ok(registry) => registry,
        Err(error) => panic!("built-ins should register: {}", error.message()),
    };
    let bindings = CommandBindingRegistry::from_commands(&registry);
    (registry, bindings)
}

fn chord(modifiers: &[KeyModifier], key: &str) -> KeyChord {
    match KeyChord::new(modifiers, key) {
        Ok(chord) => chord,
        Err(error) => panic!("test chord should be valid: {}", error.message()),
    }
}

fn idle_editor() -> EditorAvailabilityInputs {
    EditorAvailabilityInputs {
        project_loaded: false,
        asset_root_is_directory: false,
        scene_loaded: false,
        scene_is_project_document: false,
        scene_has_unsaved_changes: false,
        undo_count: 0,
        redo_count: 0,
        adapter_connected: false,
        adapter_supports_viewport_preview: false,
    }
}

#[test]
fn default_shortcuts_map_to_commands() {
    let (registry, bindings) = registry_and_bindings();
    assert_eq!(
        bindings
            .command_for_chord(&chord(&[KeyModifier::Control], "S"), CommandScope::Global)
            .map(CommandId::as_str),
        Some(SCENE_SAVE_COMMAND)
    );
    assert_eq!(
        bindings
            .command_for_chord(&chord(&[KeyModifier::Control], "O"), CommandScope::Global)
            .map(CommandId::as_str),
        Some(PROJECT_OPEN_COMMAND)
    );
    assert_eq!(
        bindings
            .command_for_chord(&chord(&[KeyModifier::Control], "Z"), CommandScope::Global)
            .map(CommandId::as_str),
        Some(EDIT_UNDO_COMMAND)
    );
    assert_eq!(
        bindings
            .command_for_chord(&chord(&[KeyModifier::Control], "Y"), CommandScope::Global)
            .map(CommandId::as_str),
        Some(EDIT_REDO_COMMAND)
    );
    assert_eq!(
        bindings
            .command_for_chord(
                &chord(&[KeyModifier::Control, KeyModifier::Shift], "Z"),
                CommandScope::Global
            )
            .map(CommandId::as_str),
        Some(EDIT_REDO_COMMAND)
    );
    assert!(registry
        .get(
            &CommandId::new(SCENE_SAVE_COMMAND)
                .unwrap_or_else(|error| panic!("command id should be valid: {}", error.message()))
        )
        .is_some());
}

#[test]
fn asset_commands_are_discoverable_through_registry() {
    let (registry, _) = registry_and_bindings();
    for command_id in [
        ASSET_SCAN_COMMAND,
        ASSET_REFRESH_COMMAND,
        ASSET_START_WATCHING_COMMAND,
        ASSET_STOP_WATCHING_COMMAND,
        ASSET_CLEAR_SELECTION_COMMAND,
        ASSET_SHOW_SELECTED_COMMAND,
        ASSET_REVEAL_ROOT_COMMAND,
    ] {
        let id = match CommandId::new(command_id) {
            Ok(id) => id,
            Err(error) => panic!("asset command ID should be valid: {}", error.message()),
        };
        assert!(matches!(registry.invoke(&id), CommandResult::Invoked(_)));
    }
}

#[test]
fn scene_commands_are_discoverable_through_registry() {
    let (registry, _) = registry_and_bindings();
    for command_id in [SCENE_LOAD_COMMAND, SCENE_SAVE_COMMAND] {
        let id = match CommandId::new(command_id) {
            Ok(id) => id,
            Err(error) => panic!("scene command ID should be valid: {}", error.message()),
        };
        assert!(matches!(registry.invoke(&id), CommandResult::Invoked(_)));
    }
}

#[test]
fn every_registered_command_has_one_typed_route() {
    let (registry, _) = registry_and_bindings();
    for command in registry.all() {
        assert!(
            EditorCommandRouter::parse(command.id().as_str()).is_some(),
            "missing typed route for {}",
            command.id().as_str()
        );
    }
}

#[test]
fn parse_routes_known_ids_only() {
    assert_eq!(
        EditorCommandRouter::parse("asset.scan"),
        Some(EditorCommand::Asset(AssetCommand::Scan))
    );
    assert_eq!(
        EditorCommandRouter::parse("viewport.request_frame"),
        Some(EditorCommand::Viewport(ViewportCommand::RequestFrame))
    );
    assert_eq!(EditorCommandRouter::parse("asset.scan "), None);
    assert_eq!(EditorCommandRouter::parse(""), None);
}

#[test]
fn disabled_command_reports_reason() {
    let availability = EditorCommandRouter::availability_for_id(SCENE_SAVE_COMMAND, &idle_editor());
    assert!(!availability.is_enabled());
    assert_eq!(availability.disabled_reason(), Some("No project scene loaded"));
}

#[test]
fn unknown_command_is_not_routable() {
    let availability = EditorCommandRouter::availability_for_id("no.such", &idle_editor());
    assert_eq!(availability.disabled_reason(), Some("Command is not routable"));
}

#[test]
fn unsaved_scene_blocks_project_switch() {
    let mut inputs = idle_editor();
    inputs.scene_has_unsaved_changes = true;
    let open = EditorCommandRouter::availability_for(
        EditorCommand::Project(ProjectCommand::Open),
        &inputs,
    );
    assert_eq!(open.disabled_reason(), Some(UNSAVED_SCENE_MESSAGE));
    let close = EditorCommandRouter::availability_for(
        EditorCommand::Project(ProjectCommand::Close),
        &inputs,
    );
    assert_eq!(close.disabled_reason(), Some("No project open"));
    inputs.project_loaded = true;
    let close = EditorCommandRouter::availability_for(
        EditorCommand::Project(ProjectCommand::Close),
        &inputs,
    );
    assert_eq!(close.disabled_reason(), Some(UNSAVED_SCENE_MESSAGE));
}

#[test]
fn viewport_request_needs_a_previewing_adapter() {
    let mut inputs = idle_editor();
    let r = EditorCommandRouter::availability_for_id(VIEWPORT_REQUEST_FRAME_COMMAND, &inputs);
    assert_eq!(r.disabled_reason(), Some("No adapter connected"));
    inputs.adapter_connected = true;
    let r = EditorCommandRouter::availability_for_id(VIEWPORT_REQUEST_FRAME_COMMAND, &inputs);
    assert_eq!(r.disabled_reason(), Some("Adapter does not support viewport preview"));
    inputs.adapter_supports_viewport_preview = true;
    let r = EditorCommandRouter::availability_for_id(VIEWPORT_REQUEST_FRAME_COMMAND, &inputs);
    assert!(r.is_enabled());
    let h = EditorCommandRouter::availability_for_id(ADAPTER_HANDSHAKE_COMMAND, &inputs);
    assert!(h.is_enabled());
}

#[test]
fn undo_availability_follows_history() {
    let mut inputs = idle_editor();
    let undo = EditorCommandRouter::availability_for_id(EDIT_UNDO_COMMAND, &inputs);
    assert_eq!(undo.disabled_reason(), Some("Nothing to undo"));
    inputs.undo_count = 1;
    let undo = EditorCommandRouter::availability_for_id(EDIT_UNDO_COMMAND, &inputs);
    assert!(undo.is_enabled());
}

#[test]
fn toolbar_snapshot_reflects_no_project_state() {
    let (registry, bindings) = registry_and_bindings();
    let snapshot = toolbar_snapshot(&registry, &bindings, &idle_editor());
    let save = snapshot
        .action_for_command(SCENE_SAVE_COMMAND)
        .unwrap_or_else(|| panic!("save action should exist"));
    assert!(!save.state.is_enabled());
    assert_eq!(save.state.disabled_reason(), Some("No project scene loaded"));
    assert!(!snapshot.has_unsaved_scene);
}

#[test]
fn toolbar_snapshot_reflects_loaded_project_state() {
    let (registry, bindings) = registry_and_bindings();
    let mut inputs = idle_editor();
    inputs.project_loaded = true;
    inputs.scene_loaded = true;
    inputs.scene_is_project_document = true;
    let snapshot = toolbar_snapshot(&registry, &bindings, &inputs);
    let save = snapshot
        .action_for_command(SCENE_SAVE_COMMAND)
        .unwrap_or_else(|| panic!("save action should exist"));
    assert!(save.state.is_enabled());
}

#[test]
fn toolbar_sections_hold_one_category_each() {
    let (registry, bindings) = registry_and_bindings();
    let snapshot = toolbar_snapshot(&registry, &bindings, &idle_editor());
    assert!(!snapshot.sections.is_empty());
    for (i, a) in snapshot.sections.iter().enumerate() {
        for b in snapshot.sections.iter().skip(i + 1) {
            assert_ne!(a.category, b.category);
        }
    }
}

#[test]
fn button_label_shows_short_shortcuts_only() {
    let short = ToolbarAction {
        command_id: "scene.save".to_string(),
        title: "Save Scene".to_string(),
        label: "Save".to_string(),
        shortcut: Some("Ctrl+S".to_string()),
        state: ToolbarButtonState::Enabled,
    };
    assert_eq!(short.button_label(), "Save Ctrl+S");
    let long = ToolbarAction {
        shortcut: Some("Ctrl+Shift+Z".to_string()),
        ..short.clone()
    };
    assert_eq!(long.button_label(), "Save");
    let none = ToolbarAction { shortcut: None, ..short };
    assert_eq!(none.button_label(), "Save");
}

#[test]
fn summaries_count_bindings_and_commands() {
    let (registry, bindings) = registry_and_bindings();
    let shortcuts = shortcut_summary(&registry, &bindings);
    assert!(shortcuts.starts_with("Shortcuts: "));
    assert!(shortcuts.contains(" 0 conflict(s): "));
    assert!(shortcuts.contains("Ctrl+S="));
    let commands = command_summary(&registry, &bindings);
    assert!(commands.starts_with("Commands: 36 command(s), 0 conflicted binding(s): "));
    assert!(commands.contains("Project=6"));
}

#[test]
fn parses_project_cli_argument() {
    let args = vec![
        "elcarax_app".to_string(),
        "--project".to_string(),
        "/tmp/project".to_string(),
    ];
    let config = AppProjectConfig::from_env_and_args(&AppEnvironment::default(), &args);
    assert_eq!(config.open_path, Some("/tmp/project".to_string()));
}

#[test]
fn parses_create_project_cli_arguments() {
    let args = vec![
        "elcarax_app".to_string(),
        "--create-project".to_string(),
        "/tmp/new-project".to_string(),
        "--project-name".to_string(),
        "Named Project".to_string(),
    ];
    let config = AppProjectConfig::from_env_and_args(&AppEnvironment::default(), &args);
    assert_eq!(config.create_root, Some("/tmp/new-project".to_string()));
    assert_eq!(config.create_name(), "Named Project");
}

#[test]
fn parses_adapter_cli_arguments() {
    let args = vec![
        "elcarax_app".to_string(),
        "--adapter".to_string(),
        "/tmp/adapter".to_string(),
        "--adapter-project".to_string(),
        "/tmp/game/assets".to_string(),
    ];
    let config = AppProjectConfig::from_env_and_args(&AppEnvironment::default(), &args);
    assert_eq!(config.adapter_executable, Some("/tmp/adapter".to_string()));
    assert_eq!(config.adapter_project_path, Some("/tmp/game/assets".to_string()));
    assert!(config.auto_connect_adapter);
}

#[test]
fn trailing_option_without_value_is_ignored() {
    let env = AppEnvironment {
        project_path: Some("/env/project".to_string()),
        ..AppEnvironment::default()
    };
    let args = vec!["elcarax_app".to_string(), "--project".to_string()];
    let config = AppProjectConfig::from_env_and_args(&env, &args);
    assert_eq!(config.open_path, Some("/env/project".to_string()));
    assert_eq!(config.create_name(), "My Elcarax Project");
    assert_eq!(config.recent_store_path(), ".elcarax/recent-projects.toml");
    assert_eq!(config.create_root_or_open_parent(), Some("/env".to_string()));
}

#[test]
fn adapter_in_environment_turns_on_auto_connect() {
    let env = AppEnvironment {
        adapter_exe: Some("/bin/adapter".to_string()),
        ..AppEnvironment::default()
    };
    let config = AppProjectConfig::from_env_and_args(&env, &["app".to_string()]);
    assert!(config.auto_connect_adapter);
    assert!(env_flag(Some("YES")));
    assert!(!env_flag(Some("Yes")));
    assert!(!env_flag(None));
}
