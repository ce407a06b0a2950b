//! The editor's commands as typed values: which id names which command,
//! when each command can run, and how the toolbar and summaries show them.
use crate::bindings::CommandBindingRegistry;
use crate::builtin::builtin_command_ids;
use crate::command::{
    category_label, category_rank, CommandAvailability, CommandCategory, CommandId,
};
use crate::registry::CommandRegistry;
use crate::text::{concat2, concat3, str_eq};
use vstd::prelude::*;

verus! {

pub const PROJECT_CREATE_COMMAND: &'static str = "project.create";
pub const PROJECT_OPEN_COMMAND: &'static str = "project.open";
pub const PROJECT_CLOSE_COMMAND: &'static str = "project.close";
pub const PROJECT_VALIDATE_COMMAND: &'static str = "project.validate";
pub const PROJECT_SHOW_RECENT_COMMAND: &'static str = "project.show_recent";
pub const PROJECT_REOPEN_LAST_COMMAND: &'static str = "project.reopen_last";
pub const ASSET_SCAN_COMMAND: &'static str = "asset.scan";
pub const ASSET_REFRESH_COMMAND: &'static str = "asset.refresh";
pub const ASSET_START_WATCHING_COMMAND: &'static str = "asset.start_watching";
pub const ASSET_STOP_WATCHING_COMMAND: &'static str = "asset.stop_watching";
pub const ASSET_CLEAR_SELECTION_COMMAND: &'static str = "asset.clear_selection";
pub const ASSET_SHOW_SELECTED_COMMAND: &'static str = "asset.show_selected";
pub const ASSET_REVEAL_ROOT_COMMAND: &'static str = "asset.reveal_root";
pub const SCENE_LOAD_COMMAND: &'static str = "scene.load";
pub const SCENE_SAVE_COMMAND: &'static str = "scene.save";
pub const SCENE_CLEAR_COMMAND: &'static str = "scene.clear";
pub const SCENE_CLEAR_SELECTION_COMMAND: &'static str = "scene.clear_selection";
pub const INSPECTOR_SHOW_SELECTED_COMMAND: &'static str = "inspector.show_selected";
pub const INSPECTOR_CLEAR_COMMAND: &'static str = "inspector.clear";
pub const INSPECTOR_SHOW_PROPERTY_COUNT_COMMAND: &'static str = "inspector.show_property_count";
pub const EDIT_UNDO_COMMAND: &'static str = "edit.undo";
pub const EDIT_REDO_COMMAND: &'static str = "edit.redo";
pub const ADAPTER_CONNECT_COMMAND: &'static str = "adapter.connect";
pub const ADAPTER_HANDSHAKE_COMMAND: &'static str = "adapter.handshake";
pub const ADAPTER_LOAD_PROJECT_COMMAND: &'static str = "adapter.load_project";
pub const ADAPTER_LOAD_SCENE_COMMAND: &'static str = "adapter.load_scene";
pub const ADAPTER_SHOW_STATUS_COMMAND: &'static str = "adapter.show_status";
pub const ADAPTER_SHOW_DIAGNOSTICS_COMMAND: &'static str = "adapter.show_diagnostics";
pub const ADAPTER_DISCONNECT_COMMAND: &'static str = "adapter.disconnect";
pub const VIEWPORT_REQUEST_FRAME_COMMAND: &'static str = "viewport.request_frame";
pub const VIEWPORT_CLEAR_COMMAND: &'static str = "viewport.clear";
pub const VIEWPORT_SHOW_STATUS_COMMAND: &'static str = "viewport.show_status";
pub const HELP_SHORTCUTS_COMMAND: &'static str = "help.shortcuts";
pub const HELP_COMMANDS_COMMAND: &'static str = "help.commands";
pub const PALETTE_OPEN_COMMAND: &'static str = "elcarax.palette.open";
pub const PALETTE_CLOSE_COMMAND: &'static str = "elcarax.palette.close";
pub const SHOW_RENDERER_STATS_COMMAND: &'static str = "elcarax.status.show_renderer_stats";
pub const SHOW_READY_STATUS_COMMAND: &'static str = "elcarax.status.show_ready";

/// Why project commands that would drop the scene are refused.
pub const UNSAVED_SCENE_MESSAGE: &'static str = "Unsaved scene changes — save with scene.save or reload with scene.load before closing the project";

#[derive(Debug, Clone, Copy, PartialEq, Eq, Structural)]
pub enum ProjectCommand {
    Create,
    Open,
    Close,
    Validate,
    ShowRecent,
    ReopenLast,
}

#[derive(Debug, Clone, Copy, PartialEq, Eq, Structural)]
pub enum AssetCommand {
    Scan,
    Refresh,
    StartWatching,
    StopWatching,
    ClearSelection,
    ShowSelected,
    RevealRoot,
}

#[derive(Debug, Clone, Copy, PartialEq, Eq, Structural)]
pub enum SceneCommand {
    Load,
    Save,
    Clear,
    ClearSelection,
}

#[derive(Debug, Clone, Copy, PartialEq, Eq, Structural)]
pub enum InspectorCommand {
    ShowSelected,
    Clear,
    ShowPropertyCount,
}

#[derive(Debug, Clone, Copy, PartialEq, Eq, Structural)]
pub enum InspectorEditCommand {
    Undo,
    Redo,
}

#[derive(Debug, Clone, Copy, PartialEq, Eq, Structural)]
pub enum AdapterCommand {
    Connect,
    Handshake,
    LoadProject,
    LoadScene,
    ShowStatus,
    ShowDiagnostics,
    Disconnect,
}

#[derive(Debug, Clone, Copy, PartialEq, Eq, Structural)]
pub enum ViewportCommand {
    RequestFrame,
    Clear,
    ShowStatus,
}

#[derive(Debug, Clone, Copy, PartialEq, Eq, Structural)]
pub enum EditorUiCommand {
    HelpShortcuts,
    HelpCommands,
    OpenPalette,
    ClosePalette,
    ShowRendererStats,
    ShowReady,
}

/// A command of the editor, by the subsystem that runs it.
#[derive(Debug, Clone, Copy, PartialEq, Eq, Structural)]
pub enum EditorCommand {
    Project(ProjectCommand),
    Asset(AssetCommand),
    Scene(SceneCommand),
    Inspector(InspectorCommand),
    Edit(InspectorEditCommand),
    Adapter(AdapterCommand),
    Viewport(ViewportCommand),
    Ui(EditorUiCommand),
}

/// The command an id names, if any.
pub open spec fn route(id: Seq<char>) -> Option<EditorCommand> {
    if id == "project.create"@ {
        Some(EditorCommand::Project(ProjectCommand::Create))
    } else if id == "project.open"@ {
        Some(EditorCommand::Project(ProjectCommand::Open))
    } else if id == "project.close"@ {
        Some(EditorCommand::Project(ProjectCommand::Close))
    } else if id == "project.validate"@ {
        Some(EditorCommand::Project(ProjectCommand::Validate))
    } else if id == "project.show_recent"@ {
        Some(EditorCommand::Project(ProjectCommand::ShowRecent))
    } else if id == "project.reopen_last"@ {
        Some(EditorCommand::Project(ProjectCommand::ReopenLast))
    } else if id == "asset.scan"@ {
        Some(EditorCommand::Asset(AssetCommand::Scan))
    } else if id == "asset.refresh"@ {
        Some(EditorCommand::Asset(AssetCommand::Refresh))
    } else if id == "asset.start_watching"@ {
        Some(EditorCommand::Asset(AssetCommand::StartWatching))
    } else if id == "asset.stop_watching"@ {
        Some(EditorCommand::Asset(AssetCommand::StopWatching))
    } else if id == "asset.clear_selection"@ {
        Some(EditorCommand::Asset(AssetCommand::ClearSelection))
    } else if id == "asset.show_selected"@ {
        Some(EditorCommand::Asset(AssetCommand::ShowSelected))
    } else if id == "asset.reveal_root"@ {
        Some(EditorCommand::Asset(AssetCommand::RevealRoot))
    } else if id == "scene.load"@ {
        Some(EditorCommand::Scene(SceneCommand::Load))
    } else if id == "scene.save"@ {
        Some(EditorCommand::Scene(SceneCommand::Save))
    } else if id == "scene.clear"@ {
        Some(EditorCommand::Scene(SceneCommand::Clear))
    } else if id == "scene.clear_selection"@ {
        Some(EditorCommand::Scene(SceneCommand::ClearSelection))
    } else if id == "inspector.clear"@ {
        Some(EditorCommand::Inspector(InspectorCommand::Clear))
    } else if id == "inspector.show_selected"@ {
        Some(EditorCommand::Inspector(InspectorCommand::ShowSelected))
    } else if id == "inspector.show_property_count"@ {
        Some(EditorCommand::Inspector(InspectorCommand::ShowPropertyCount))
    } else if id == "edit.undo"@ {
        Some(EditorCommand::Edit(InspectorEditCommand::Undo))
    } else if id == "edit.redo"@ {
        Some(EditorCommand::Edit(InspectorEditCommand::Redo))
    } else if id == "adapter.connect"@ {
        Some(EditorCommand::Adapter(AdapterCommand::Connect))
    } else if id == "adapter.handshake"@ {
        Some(EditorCommand::Adapter(AdapterCommand::Handshake))
    } else if id == "adapter.load_project"@ {
        Some(EditorCommand::Adapter(AdapterCommand::LoadProject))
    } else if id == "adapter.load_scene"@ {
        Some(EditorCommand::Adapter(AdapterCommand::LoadScene))
    } else if id == "adapter.show_status"@ {
        Some(EditorCommand::Adapter(AdapterCommand::ShowStatus))
    } else if id == "adapter.show_diagnostics"@ {
        Some(EditorCommand::Adapter(AdapterCommand::ShowDiagnostics))
    } else if id == "adapter.disconnect"@ {
        Some(EditorCommand::Adapter(AdapterCommand::Disconnect))
    } else if id == "viewport.request_frame"@ {
        Some(EditorCommand::Viewport(ViewportCommand::RequestFrame))
    } else if id == "viewport.clear"@ {
        Some(EditorCommand::Viewport(ViewportCommand::Clear))
    } else if id == "viewport.show_status"@ {
        Some(EditorCommand::Viewport(ViewportCommand::ShowStatus))
    } else if id == "help.shortcuts"@ {
        Some(EditorCommand::Ui(EditorUiCommand::HelpShortcuts))
    } else if id == "help.commands"@ {
        Some(EditorCommand::Ui(EditorUiCommand::HelpCommands))
    } else if id == "elcarax.palette.open"@ {
        Some(EditorCommand::Ui(EditorUiCommand::OpenPalette))
    } else if id == "elcarax.palette.close"@ {
        Some(EditorCommand::Ui(EditorUiCommand::ClosePalette))
    } else if id == "elcarax.status.show_renderer_stats"@ {
        Some(EditorCommand::Ui(EditorUiCommand::ShowRendererStats))
    } else if id == "elcarax.status.show_ready"@ {
        Some(EditorCommand::Ui(EditorUiCommand::ShowReady))
    } else {
        None
    }
}

/// The identifier that names `command`.
pub open spec fn command_id_text(command: EditorCommand) -> Seq<char> {
    match command {
        EditorCommand::Project(ProjectCommand::Create) => "project.create"@,
        EditorCommand::Project(ProjectCommand::Open) => "project.open"@,
        EditorCommand::Project(ProjectCommand::Close) => "project.close"@,
        EditorCommand::Project(ProjectCommand::Validate) => "project.validate"@,
        EditorCommand::Project(ProjectCommand::ShowRecent) => "project.show_recent"@,
        EditorCommand::Project(ProjectCommand::ReopenLast) => "project.reopen_last"@,
        EditorCommand::Asset(AssetCommand::Scan) => "asset.scan"@,
        EditorCommand::Asset(AssetCommand::Refresh) => "asset.refresh"@,
        EditorCommand::Asset(AssetCommand::StartWatching) => "asset.start_watching"@,
        EditorCommand::Asset(AssetCommand::StopWatching) => "asset.stop_watching"@,
        EditorCommand::Asset(AssetCommand::ClearSelection) => "asset.clear_selection"@,
        EditorCommand::Asset(AssetCommand::ShowSelected) => "asset.show_selected"@,
        EditorCommand::Asset(AssetCommand::RevealRoot) => "asset.reveal_root"@,
        EditorCommand::Scene(SceneCommand::Load) => "scene.load"@,
        EditorCommand::Scene(SceneCommand::Save) => "scene.save"@,
        EditorCommand::Scene(SceneCommand::Clear) => "scene.clear"@,
        EditorCommand::Scene(SceneCommand::ClearSelection) => "scene.clear_selection"@,
        EditorCommand::Inspector(InspectorCommand::Clear) => "inspector.clear"@,
        EditorCommand::Inspector(InspectorCommand::ShowSelected) => "inspector.show_selected"@,
        EditorCommand::Inspector(InspectorCommand::ShowPropertyCount) => "inspector.show_property_count"@,
        EditorCommand::Edit(InspectorEditCommand::Undo) => "edit.undo"@,
        EditorCommand::Edit(InspectorEditCommand::Redo) => "edit.redo"@,
        EditorCommand::Adapter(AdapterCommand::Connect) => "adapter.connect"@,
        EditorCommand::Adapter(AdapterCommand::Handshake) => "adapter.handshake"@,
        EditorCommand::Adapter(AdapterCommand::LoadProject) => "adapter.load_project"@,
        EditorCommand::Adapter(AdapterCommand::LoadScene) => "adapter.load_scene"@,
        EditorCommand::Adapter(AdapterCommand::ShowStatus) => "adapter.show_status"@,
        EditorCommand::Adapter(AdapterCommand::ShowDiagnostics) => "adapter.show_diagnostics"@,
        EditorCommand::Adapter(AdapterCommand::Disconnect) => "adapter.disconnect"@,
        EditorCommand::Viewport(ViewportCommand::RequestFrame) => "viewport.request_frame"@,
        EditorCommand::Viewport(ViewportCommand::Clear) => "viewport.clear"@,
        EditorCommand::Viewport(ViewportCommand::ShowStatus) => "viewport.show_status"@,
        EditorCommand::Ui(EditorUiCommand::HelpShortcuts) => "help.shortcuts"@,
        EditorCommand::Ui(EditorUiCommand::HelpCommands) => "help.commands"@,
        EditorCommand::Ui(EditorUiCommand::OpenPalette) => "elcarax.palette.open"@,
        EditorCommand::Ui(EditorUiCommand::ClosePalette) => "elcarax.palette.close"@,
        EditorCommand::Ui(EditorUiCommand::ShowRendererStats) => "elcarax.status.show_renderer_stats"@,
        EditorCommand::Ui(EditorUiCommand::ShowReady) => "elcarax.status.show_ready"@,
    }
}

/// An identifier names at most one command: routing an identifier to a
/// command means the identifier is that command's, so distinct accepted
/// identifiers name distinct commands.
pub proof fn law_route_names_one_command(a: Seq<char>, b: Seq<char>)
    ensures
        route(a) matches Some(c) ==> a == command_id_text(c),
        route(a) is Some && route(a) == route(b) ==> a == b,
{
}

/// Every built-in command has a route.
pub proof fn law_builtin_ids_route()
    ensures
        forall|i: int| 0 <= i < builtin_command_ids().len() ==> #[trigger] route(builtin_command_ids()[i]) is Some,
{
}


/// What the editor's state says about which commands can run.
#[derive(Debug, Clone, Copy, PartialEq, Eq, Structural)]
pub struct EditorAvailabilityInputs {
    pub project_loaded: bool,
    pub asset_root_is_directory: bool,
    pub scene_loaded: bool,
    pub scene_is_project_document: bool,
    pub scene_has_unsaved_changes: bool,
    pub undo_count: usize,
    pub redo_count: usize,
    pub adapter_connected: bool,
    pub adapter_supports_viewport_preview: bool,
}

/// Enabled, or disabled with a reason.
pub open spec fn allowed() -> Option<Seq<char>> {
    None
}

/// Whether a command can run: `None` when it can, else why not.
pub open spec fn refusal(command: EditorCommand, s: EditorAvailabilityInputs) -> Option<Seq<char>> {
    match command {
        EditorCommand::Project(ProjectCommand::Create)
        | EditorCommand::Project(ProjectCommand::Open)
        | EditorCommand::Project(ProjectCommand::ReopenLast) => if s.scene_has_unsaved_changes {
            Some(UNSAVED_SCENE_MESSAGE@)
        } else {
            None
        },
        EditorCommand::Project(ProjectCommand::Close) => if !s.project_loaded {
            Some("No project open"@)
        } else if s.scene_has_unsaved_changes {
            Some(UNSAVED_SCENE_MESSAGE@)
        } else {
            None
        },
        EditorCommand::Project(ProjectCommand::Validate) => if s.project_loaded {
            None
        } else {
            Some("No project open"@)
        },
        EditorCommand::Project(ProjectCommand::ShowRecent) => None,
        EditorCommand::Asset(AssetCommand::Refresh) => if !s.project_loaded {
            Some("No project open"@)
        } else if s.asset_root_is_directory {
            None
        } else {
            Some("Asset root unavailable"@)
        },
        EditorCommand::Asset(_) => if s.project_loaded {
            None
        } else {
            Some("No project open"@)
        },
        EditorCommand::Scene(SceneCommand::Load) => if s.project_loaded {
            None
        } else {
            Some("No project open"@)
        },
        EditorCommand::Scene(SceneCommand::Save) => if s.scene_loaded
            && s.scene_is_project_document {
            None
        } else {
            Some("No project scene loaded"@)
        },
        EditorCommand::Scene(_)
        | EditorCommand::Inspector(InspectorCommand::ShowSelected)
        | EditorCommand::Inspector(InspectorCommand::ShowPropertyCount) => if s.scene_loaded {
            None
        } else {
            Some("No scene loaded"@)
        },
        EditorCommand::Inspector(InspectorCommand::Clear) => None,
        EditorCommand::Edit(InspectorEditCommand::Undo) => if s.undo_count > 0 {
            None
        } else {
            Some("Nothing to undo"@)
        },
        EditorCommand::Edit(InspectorEditCommand::Redo) => if s.redo_count > 0 {
            None
        } else {
            Some("Nothing to redo"@)
        },
        EditorCommand::Adapter(AdapterCommand::Connect)
        | EditorCommand::Adapter(AdapterCommand::ShowStatus) => None,
        EditorCommand::Adapter(_) => if s.adapter_connected {
            None
        } else {
            Some("No adapter connected"@)
        },
        EditorCommand::Viewport(ViewportCommand::RequestFrame) => if !s.adapter_connected {
            Some("No adapter connected"@)
        } else if !s.adapter_supports_viewport_preview {
            Some("Adapter does not support viewport preview"@)
        } else {
            None
        },
        EditorCommand::Viewport(_) | EditorCommand::Ui(_) => None,
    }
}

/// Undo can run exactly when there is something to undo, and redo exactly
/// when there is something to redo; otherwise each says there is nothing to
/// do.
pub proof fn law_undo_redo_follow_their_stacks(s: EditorAvailabilityInputs)
    ensures
        refusal(EditorCommand::Edit(InspectorEditCommand::Undo), s) is None <==> s.undo_count > 0,
        refusal(EditorCommand::Edit(InspectorEditCommand::Redo), s) is None <==> s.redo_count > 0,
        s.undo_count == 0 ==> refusal(EditorCommand::Edit(InspectorEditCommand::Undo), s) == Some(
            "Nothing to undo"@,
        ),
        s.redo_count == 0 ==> refusal(EditorCommand::Edit(InspectorEditCommand::Redo), s) == Some(
            "Nothing to redo"@,
        ),
{
}

/// When each command can run, in terms of the editor's state: creating,
/// opening or reopening a project waits for unsaved scene changes; closing
/// needs an open project without unsaved changes; validating, assets and
/// loading a scene need an open project (refreshing also a readable asset
/// root); saving needs a loaded project scene; the other scene and the
/// inspector's showing commands need a loaded scene; adapter commands but
/// connecting and the status need a connected adapter; a frame request needs
/// one that renders previews; the rest can always run.
pub proof fn law_when_commands_can_run(s: EditorAvailabilityInputs)
    ensures
        refusal(EditorCommand::Project(ProjectCommand::Create), s) is None <==> !s.scene_has_unsaved_changes,
        refusal(EditorCommand::Project(ProjectCommand::Open), s) is None <==> !s.scene_has_unsaved_changes,
        refusal(EditorCommand::Project(ProjectCommand::ReopenLast), s) is None
            <==> !s.scene_has_unsaved_changes,
        refusal(EditorCommand::Project(ProjectCommand::Close), s) is None <==> s.project_loaded
            && !s.scene_has_unsaved_changes,
        refusal(EditorCommand::Project(ProjectCommand::Validate), s) is None <==> s.project_loaded,
        refusal(EditorCommand::Project(ProjectCommand::ShowRecent), s) is None,
        refusal(EditorCommand::Asset(AssetCommand::Refresh), s) is None <==> s.project_loaded
            && s.asset_root_is_directory,
        refusal(EditorCommand::Asset(AssetCommand::Scan), s) is None <==> s.project_loaded,
        refusal(EditorCommand::Scene(SceneCommand::Load), s) is None <==> s.project_loaded,
        refusal(EditorCommand::Scene(SceneCommand::Save), s) is None <==> s.scene_loaded
            && s.scene_is_project_document,
        refusal(EditorCommand::Scene(SceneCommand::Clear), s) is None <==> s.scene_loaded,
        refusal(EditorCommand::Inspector(InspectorCommand::ShowSelected), s) is None <==> s.scene_loaded,
        refusal(EditorCommand::Inspector(InspectorCommand::Clear), s) is None,
        refusal(EditorCommand::Adapter(AdapterCommand::Connect), s) is None,
        refusal(EditorCommand::Adapter(AdapterCommand::ShowStatus), s) is None,
        refusal(EditorCommand::Adapter(AdapterCommand::Handshake), s) is None <==> s.adapter_connected,
        refusal(EditorCommand::Adapter(AdapterCommand::Disconnect), s) is None <==> s.adapter_connected,
        refusal(EditorCommand::Viewport(ViewportCommand::RequestFrame), s) is None <==> s.adapter_connected
            && s.adapter_supports_viewport_preview,
        refusal(EditorCommand::Viewport(ViewportCommand::Clear), s) is None,
{
}

/// The availability that says `refusal`: enabled for none, else disabled
/// with the reason.
pub open spec fn availability_is(a: CommandAvailability, refused: Option<Seq<char>>) -> bool {
    match refused {
        None => a@.enabled && a@.disabled_reason is None,
        Some(reason) => !a@.enabled && a@.disabled_reason == Some(reason),
    }
}

fn require_project(s: &EditorAvailabilityInputs, reason: &str) -> (r: CommandAvailability)
    ensures
        s.project_loaded ==> r@.enabled && r@.disabled_reason is None,
        !s.project_loaded ==> !r@.enabled && r@.disabled_reason == Some(reason@),
{
    if s.project_loaded {
        CommandAvailability::enabled()
    } else {
        CommandAvailability::disabled(reason)
    }
}

/// Turns ids into commands and says when commands can run.
pub struct EditorCommandRouter;

impl EditorCommandRouter {
    /// The command an id names, if any.
    pub fn parse(id: &str) -> (r: Option<EditorCommand>)
        ensures
            r == route(id@),
    {
        if str_eq(id, "project.create") {
            Some(EditorCommand::Project(ProjectCommand::Create))
        } else if str_eq(id, "project.open") {
            Some(EditorCommand::Project(ProjectCommand::Open))
        } else if str_eq(id, "project.close") {
            Some(EditorCommand::Project(ProjectCommand::Close))
        } else if str_eq(id, "project.validate") {
            Some(EditorCommand::Project(ProjectCommand::Validate))
        } else if str_eq(id, "project.show_recent") {
            Some(EditorCommand::Project(ProjectCommand::ShowRecent))
        } else if str_eq(id, "project.reopen_last") {
            Some(EditorCommand::Project(ProjectCommand::ReopenLast))
        } else if str_eq(id, "asset.scan") {
            Some(EditorCommand::Asset(AssetCommand::Scan))
        } else if str_eq(id, "asset.refresh") {
            Some(EditorCommand::Asset(AssetCommand::Refresh))
        } else if str_eq(id, "asset.start_watching") {
            Some(EditorCommand::Asset(AssetCommand::StartWatching))
        } else if str_eq(id, "asset.stop_watching") {
            Some(EditorCommand::Asset(AssetCommand::StopWatching))
        } else if str_eq(id, "asset.clear_selection") {
            Some(EditorCommand::Asset(AssetCommand::ClearSelection))
        } else if str_eq(id, "asset.show_selected") {
            Some(EditorCommand::Asset(AssetCommand::ShowSelected))
        } else if str_eq(id, "asset.reveal_root") {
            Some(EditorCommand::Asset(AssetCommand::RevealRoot))
        } else if str_eq(id, "scene.load") {
            Some(EditorCommand::Scene(SceneCommand::Load))
        } else if str_eq(id, "scene.save") {
            Some(EditorCommand::Scene(SceneCommand::Save))
        } else if str_eq(id, "scene.clear") {
            Some(EditorCommand::Scene(SceneCommand::Clear))
        } else if str_eq(id, "scene.clear_selection") {
            Some(EditorCommand::Scene(SceneCommand::ClearSelection))
        } else if str_eq(id, "inspector.clear") {
            Some(EditorCommand::Inspector(InspectorCommand::Clear))
        } else if str_eq(id, "inspector.show_selected") {
            Some(EditorCommand::Inspector(InspectorCommand::ShowSelected))
        } else if str_eq(id, "inspector.show_property_count") {
            Some(EditorCommand::Inspector(InspectorCommand::ShowPropertyCount))
        } else if str_eq(id, "edit.undo") {
            Some(EditorCommand::Edit(InspectorEditCommand::Undo))
        } else if str_eq(id, "edit.redo") {
            Some(EditorCommand::Edit(InspectorEditCommand::Redo))
        } else if str_eq(id, "adapter.connect") {
            Some(EditorCommand::Adapter(AdapterCommand::Connect))
        } else if str_eq(id, "adapter.handshake") {
            Some(EditorCommand::Adapter(AdapterCommand::Handshake))
        } else if str_eq(id, "adapter.load_project") {
            Some(EditorCommand::Adapter(AdapterCommand::LoadProject))
        } else if str_eq(id, "adapter.load_scene") {
            Some(EditorCommand::Adapter(AdapterCommand::LoadScene))
        } else if str_eq(id, "adapter.show_status") {
            Some(EditorCommand::Adapter(AdapterCommand::ShowStatus))
        } else if str_eq(id, "adapter.show_diagnostics") {
            Some(EditorCommand::Adapter(AdapterCommand::ShowDiagnostics))
        } else if str_eq(id, "adapter.disconnect") {
            Some(EditorCommand::Adapter(AdapterCommand::Disconnect))
        } else if str_eq(id, "viewport.request_frame") {
            Some(EditorCommand::Viewport(ViewportCommand::RequestFrame))
        } else if str_eq(id, "viewport.clear") {
            Some(EditorCommand::Viewport(ViewportCommand::Clear))
        } else if str_eq(id, "viewport.show_status") {
            Some(EditorCommand::Viewport(ViewportCommand::ShowStatus))
        } else if str_eq(id, "help.shortcuts") {
            Some(EditorCommand::Ui(EditorUiCommand::HelpShortcuts))
        } else if str_eq(id, "help.commands") {
            Some(EditorCommand::Ui(EditorUiCommand::HelpCommands))
        } else if str_eq(id, "elcarax.palette.open") {
            Some(EditorCommand::Ui(EditorUiCommand::OpenPalette))
        } else if str_eq(id, "elcarax.palette.close") {
            Some(EditorCommand::Ui(EditorUiCommand::ClosePalette))
        } else if str_eq(id, "elcarax.status.show_renderer_stats") {
            Some(EditorCommand::Ui(EditorUiCommand::ShowRendererStats))
        } else if str_eq(id, "elcarax.status.show_ready") {
            Some(EditorCommand::Ui(EditorUiCommand::ShowReady))
        } else {
            None
        }
    }

    /// Whether `command` can run in the state `s`, and why not when it
    /// cannot.
    pub fn availability_for(command: EditorCommand, s: &EditorAvailabilityInputs) -> (r: CommandAvailability)
        ensures
            availability_is(r, refusal(command, *s)),
    {
        match command {
            EditorCommand::Project(ProjectCommand::Create)
            | EditorCommand::Project(ProjectCommand::Open)
            | EditorCommand::Project(ProjectCommand::ReopenLast) => {
                if s.scene_has_unsaved_changes {
                    CommandAvailability::disabled(UNSAVED_SCENE_MESSAGE)
                } else {
                    CommandAvailability::enabled()
                }
            },
            EditorCommand::Project(ProjectCommand::Close) => {
                if !s.project_loaded {
                    CommandAvailability::disabled("No project open")
                } else if s.scene_has_unsaved_changes {
                    CommandAvailability::disabled(UNSAVED_SCENE_MESSAGE)
                } else {
                    CommandAvailability::enabled()
                }
            },
            EditorCommand::Project(ProjectCommand::Validate) => require_project(s, "No project open"),
            EditorCommand::Project(ProjectCommand::ShowRecent) => CommandAvailability::enabled(),
            EditorCommand::Asset(AssetCommand::Refresh) => {
                if !s.project_loaded {
                    CommandAvailability::disabled("No project open")
                } else if s.asset_root_is_directory {
                    CommandAvailability::enabled()
                } else {
                    CommandAvailability::disabled("Asset root unavailable")
                }
            },
            EditorCommand::Asset(_) => require_project(s, "No project open"),
            EditorCommand::Scene(SceneCommand::Load) => require_project(s, "No project open"),
            EditorCommand::Scene(SceneCommand::Save) => {
                if s.scene_loaded && s.scene_is_project_document {
                    CommandAvailability::enabled()
                } else {
                    CommandAvailability::disabled("No project scene loaded")
                }
            },
            EditorCommand::Scene(_)
            | EditorCommand::Inspector(InspectorCommand::ShowSelected)
            | EditorCommand::Inspector(InspectorCommand::ShowPropertyCount) => {
                if s.scene_loaded {
                    CommandAvailability::enabled()
                } else {
                    CommandAvailability::disabled("No scene loaded")
                }
            },
            EditorCommand::Inspector(InspectorCommand::Clear) => CommandAvailability::enabled(),
            EditorCommand::Edit(InspectorEditCommand::Undo) => {
                if s.undo_count > 0 {
                    CommandAvailability::enabled()
                } else {
                    CommandAvailability::disabled("Nothing to undo")
                }
            },
            EditorCommand::Edit(InspectorEditCommand::Redo) => {
                if s.redo_count > 0 {
                    CommandAvailability::enabled()
                } else {
                    CommandAvailability::disabled("Nothing to redo")
                }
            },
            EditorCommand::Adapter(AdapterCommand::Connect)
            | EditorCommand::Adapter(AdapterCommand::ShowStatus) => CommandAvailability::enabled(),
            EditorCommand::Adapter(_) => {
                if s.adapter_connected {
                    CommandAvailability::enabled()
                } else {
                    CommandAvailability::disabled("No adapter connected")
                }
            },
            EditorCommand::Viewport(ViewportCommand::RequestFrame) => {
                if !s.adapter_connected {
                    CommandAvailability::disabled("No adapter connected")
                } else if !s.adapter_supports_viewport_preview {
                    CommandAvailability::disabled("Adapter does not support viewport preview")
                } else {
                    CommandAvailability::enabled()
                }
            },
            EditorCommand::Viewport(_) | EditorCommand::Ui(_) => CommandAvailability::enabled(),
        }
    }

    /// The availability of the command an id names; an id that names none
    /// is refused as not routable.
    pub fn availability_for_id(id: &str, s: &EditorAvailabilityInputs) -> (r: CommandAvailability)
        ensures
            match route(id@) {
                Some(c) => availability_is(r, refusal(c, *s)),
                None => availability_is(r, Some("Command is not routable"@)),
            },
    {
        match Self::parse(id) {
            Some(command) => Self::availability_for(command, s),
            None => CommandAvailability::disabled("Command is not routable"),
        }
    }
}

} // verus!
