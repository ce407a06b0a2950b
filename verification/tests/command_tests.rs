use elcarax::bindings::{CommandBindingDiagnostic, CommandBindingRegistry};
use elcarax::builtin::built_in_commands;
use elcarax::command::{
    CommandCategory, CommandDescription, CommandId, CommandRegistryError, CommandScope,
    CommandShortcut, CommandTitle, KeyBinding, KeyChord, KeyModifier,
};
use elcarax::registry::{CommandRegistry, CommandResult, RegisteredCommand};

fn registered(
    id: &str,
    title: &str,
    description: &str,
    category: CommandCategory,
) -> Result<RegisteredCommand, CommandRegistryError> {
    Ok(RegisteredCommand::new(
        CommandId::new(id)?,
        CommandTitle::new(title)?,
        Some(CommandDescription::new(description)),
        category,
    ))
}

fn global_shortcut(
    modifiers: &[KeyModifier],
    key: &str,
) -> Result<CommandShortcut, CommandRegistryError> {
    Ok(CommandShortcut::new(KeyBinding::global(KeyChord::new(
        modifiers, key,
    )?)))
}

fn command(id: &str, title: &str) -> RegisteredCommand {
    match registered(id, title, "description", CommandCategory::Status) {
        Ok(command) => command,
        Err(error) => panic!("test command should be valid: {}", error.message()),
    }
}

fn chord(modifiers: &[KeyModifier], key: &str) -> KeyChord {
    match KeyChord::new(modifiers, key) {
        Ok(chord) => chord,
        Err(error) => panic!("test chord should be valid: {}", error.message()),
    }
}

fn built_ins() -> CommandRegistry {
    match built_in_commands() {
        Ok(registry) => registry,
        Err(error) => panic!("built-ins should register: {}", error.message()),
    }
}

#[test]
fn command_metadata_creation_preserves_fields() {
    let command = command("elcarax.test", "Test Command").with_shortcut(
        global_shortcut(&[KeyModifier::Control], "T")
            .unwrap_or_else(|error| panic!("shortcut should be valid: {}", error.message())),
    );
    assert_eq!(command.id().as_str(), "elcarax.test");
    assert_eq!(command.title().as_str(), "Test Command");
    assert_eq!(command.category(), CommandCategory::Status);
    assert_eq!(
        command.shortcut().map(CommandShortcut::display_label),
        Some("Ctrl+T".to_string())
    );
}

#[test]
fn command_registration_preserves_lookup() {
    let mut registry = CommandRegistry::new();
    let id = match CommandId::new("elcarax.test") {
        Ok(id) => id,
        Err(error) => panic!("test ID should be valid: {}", error.message()),
    };
    assert!(registry.register(command(id.as_str(), "Test Command")).is_ok());
    assert_eq!(
        registry.get(&id).map(|command| command.title().as_str()),
        Some("Test Command")
    );
}

#[test]
fn duplicate_command_ids_are_rejected() {
    let mut registry = CommandRegistry::new();
    assert!(registry.register(command("elcarax.test", "One")).is_ok());
    assert!(matches!(
        registry.register(command("elcarax.test", "Two")),
        Err(CommandRegistryError::DuplicateCommandId(_))
    ));
}

#[test]
fn duplicate_registration_keeps_the_first_command() {
    let mut registry = CommandRegistry::new();
    assert!(registry.register(command("elcarax.test", "One")).is_ok());
    let _ = registry.register(command("elcarax.test", "Two"));
    let id = CommandId::new("elcarax.test").unwrap_or_else(|_| panic!("id should be valid"));
    assert_eq!(registry.get(&id).map(|c| c.title().as_str()), Some("One"));
    assert_eq!(registry.all().len(), 1);
}

#[test]
fn categories_cover_editor_domains() {
    let labels = [
        CommandCategory::Project.label(),
        CommandCategory::Asset.label(),
        CommandCategory::Scene.label(),
        CommandCategory::Edit.label(),
        CommandCategory::Viewport.label(),
        CommandCategory::Adapter.label(),
        CommandCategory::Window.label(),
        CommandCategory::Help.label(),
        CommandCategory::Developer.label(),
    ];
    assert_eq!(
        labels,
        [
            "Project",
            "Asset",
            "Scene",
            "Edit",
            "Viewport",
            "Adapter",
            "Window",
            "Help",
            "Developer"
        ]
    );
}

#[test]
fn shortcut_display_format_is_stable() {
    assert_eq!(
        chord(&[KeyModifier::Shift, KeyModifier::Control], "z").display_label(),
        "Ctrl+Shift+Z"
    );
}

#[test]
fn unsupported_shortcut_key_is_rejected() {
    assert!(matches!(
        KeyChord::new(&[KeyModifier::Control], "F13"),
        Err(CommandRegistryError::UnsupportedKeyName(_))
    ));
}

#[test]
fn blank_command_title_is_rejected() {
    assert!(CommandTitle::new("   ").is_err());
    assert!(CommandId::new("").is_err());
}

#[test]
fn default_keybindings_are_conflict_free() {
    let registry = built_ins();
    let bindings = CommandBindingRegistry::from_commands(&registry);
    assert_eq!(bindings.diagnostics(), &[]);
}

#[test]
fn conflict_detection_is_deterministic() {
    let mut registry = CommandRegistry::new();
    assert!(registry
        .register(
            command("a.first", "First").with_shortcut(
                global_shortcut(&[KeyModifier::Control], "A").unwrap_or_else(|error| {
                    panic!("shortcut should be valid: {}", error.message())
                })
            )
        )
        .is_ok());
    assert!(registry
        .register(
            command("b.second", "Second").with_shortcut(
                global_shortcut(&[KeyModifier::Control], "A").unwrap_or_else(|error| {
                    panic!("shortcut should be valid: {}", error.message())
                })
            )
        )
        .is_ok());
    let bindings = CommandBindingRegistry::from_commands(&registry);
    assert_eq!(bindings.diagnostics().len(), 1);
    let CommandBindingDiagnostic::Conflict { command_ids, .. } = &bindings.diagnostics()[0]
    else {
        panic!("expected conflict diagnostic");
    };
    let ids: Vec<_> = command_ids.iter().map(CommandId::as_str).collect();
    assert_eq!(ids, vec!["a.first", "b.second"]);
}

#[test]
fn command_lookup_by_key_chord_uses_defaults() {
    let registry = built_ins();
    let bindings = CommandBindingRegistry::from_commands(&registry);
    let save =
        bindings.command_for_chord(&chord(&[KeyModifier::Control], "S"), CommandScope::Global);
    assert_eq!(save.map(CommandId::as_str), Some("scene.save"));
}

#[test]
fn missing_binding_returns_none() {
    let registry = built_ins();
    let bindings = CommandBindingRegistry::from_commands(&registry);
    assert!(bindings
        .command_for_chord(&chord(&[KeyModifier::Control], "B"), CommandScope::Global)
        .is_none());
}

#[test]
fn command_filtering_uses_query() {
    let registry = built_ins();
    let matches = registry.filter("ready");
    assert_eq!(matches.len(), 1);
    assert_eq!(matches[0].id().as_str(), "elcarax.status.show_ready");
}

#[test]
fn project_commands_are_discoverable() {
    let registry = built_ins();
    let matches = registry.filter("project");
    let ids: Vec<_> = matches
        .into_iter()
        .map(|command| command.id().as_str())
        .collect();
    assert!(ids.contains(&"project.create"));
    assert!(ids.contains(&"project.open"));
    assert!(ids.contains(&"project.validate"));
    assert!(ids.contains(&"project.show_recent"));
    assert!(ids.contains(&"project.reopen_last"));
}

#[test]
fn empty_query_returns_stable_order() {
    let registry = built_ins();
    let ids: Vec<_> = registry
        .filter("")
        .into_iter()
        .map(|command| command.id().as_str())
        .collect();
    assert_eq!(
        ids,
        vec![
            "elcarax.palette.open",
            "elcarax.palette.close",
            "project.create",
            "project.open",
            "project.close",
            "project.validate",
            "project.show_recent",
            "project.reopen_last",
            "asset.scan",
            "asset.refresh",
            "asset.start_watching",
            "asset.stop_watching",
            "asset.clear_selection",
            "asset.show_selected",
            "asset.reveal_root",
            "scene.load",
            "scene.save",
            "scene.clear",
            "scene.clear_selection",
            "inspector.clear",
            "edit.undo",
            "edit.redo",
            "adapter.connect",
            "adapter.handshake",
            "adapter.load_project",
            "adapter.disconnect",
            "adapter.show_status",
            "adapter.show_diagnostics",
            "adapter.load_scene",
            "viewport.request_frame",
            "viewport.clear",
            "viewport.show_status",
            "help.shortcuts",
            "help.commands",
            "elcarax.status.show_renderer_stats",
            "elcarax.status.show_ready"
        ]
    );
}

#[test]
fn disabled_command_does_not_execute() {
    let mut registry = CommandRegistry::new();
    let disabled = command("elcarax.disabled", "Disabled").disabled("disabled");
    let id = disabled.id().clone();
    assert!(registry.register(disabled).is_ok());
    assert_eq!(registry.invoke(&id), CommandResult::Disabled(id));
}

#[test]
fn unknown_command_is_not_found() {
    let registry = built_ins();
    let id = CommandId::new("no.such.command").unwrap_or_else(|_| panic!("id should be valid"));
    assert_eq!(registry.invoke(&id), CommandResult::NotFound(id));
}

#[test]
fn bindings_are_listed_with_their_commands() {
    let registry = built_ins();
    let bindings = CommandBindingRegistry::from_commands(&registry);
    let listed = bindings.bindings();
    let save = listed
        .iter()
        .find(|(id, _)| id.as_str() == "scene.save")
        .map(|(_, b)| b.chord().display_label());
    assert_eq!(save, Some("Ctrl+S".to_string()));
}

#[test]
fn blank_query_keeps_every_command_in_order() {
    let registry = built_ins();
    let all: Vec<_> = registry.all().iter().map(|c| c.id().as_str()).collect();
    let blank: Vec<_> = registry.filter("   ").into_iter().map(|c| c.id().as_str()).collect();
    assert_eq!(blank, all);
}
