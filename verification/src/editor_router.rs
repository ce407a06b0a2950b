//! Running a routed editor command against the panels that own it: assets,
//! the adapter and the viewport. Commands on projects, scenes, the
//! inspector and edits are handed back to the caller, who owns those.
use crate::adapter_session::{AdapterHostState, AdapterTransport};
use crate::adapter_state::{adapter_executed, AdapterState, AdapterStateView, AdapterStep};
use crate::asset_state::{executed, AssetState, AssetStep};
use crate::editor_commands::{AdapterCommand, EditorCommand, EditorCommandRouter, EditorUiCommand};
use crate::viewport::{ViewportSource, ViewportStatus};
use crate::viewport_panel::{viewport_executed, AppViewportState};
use crate::viewport_request::ViewportFrameRequestSize;
use vstd::prelude::*;

verus! {

/// Whether the adapter says it renders viewport previews.
pub open spec fn renders_previews(v: AdapterStateView) -> bool {
    v.capabilities matches Some(k) && k.supports_viewport_preview
}

/// Whether the adapter is connected, known by its identifier, and renders
/// previews: the viewport then shows its frames.
pub open spec fn shows_previews(v: AdapterStateView) -> bool {
    v.status == AdapterHostState::Connected && v.id is Some && renders_previews(v)
}

/// What a finished command leaves for the editor: a status message, whether
/// a viewport frame should be requested next, and a command for the
/// editor's own interface.
#[derive(Debug)]
pub struct EditorCommandOutcome {
    pub message: Option<String>,
    pub request_viewport_frame: bool,
    pub ui_command: Option<EditorUiCommand>,
}

impl EditorCommandOutcome {
    /// An outcome that only reports `message`.
    pub fn message(message: &str) -> (r: Self)
        ensures
            r.message matches Some(m) && m@ == message@,
            !r.request_viewport_frame,
            r.ui_command is None,
    {
        EditorCommandOutcome {
            message: Some(message.to_owned()),
            request_viewport_frame: false,
            ui_command: None,
        }
    }

    /// An outcome that hands `command` to the editor's interface.
    pub fn ui_command(command: EditorUiCommand) -> (r: Self)
        ensures
            r.message is None,
            !r.request_viewport_frame,
            r.ui_command == Some(command),
    {
        EditorCommandOutcome { message: None, request_viewport_frame: false, ui_command: Some(command) }
    }
}

/// Where routing a command got to: finished, or the step that an asset or
/// adapter command asks of its caller, or the command itself for the caller
/// to run.
#[derive(Debug)]
pub enum RoutedCommand {
    Finished(EditorCommandOutcome),
    Asset(AssetStep),
    Adapter { step: AdapterStep, request_viewport_frame: bool },
    Elsewhere(EditorCommand),
}

impl EditorCommandRouter {
    /// Runs `command` on the panel that owns it. An asset command runs on
    /// `assets`; an adapter command on `adapter`, a finished handshake then
    /// pointing the viewport at a connected adapter that renders previews and
    /// a disconnect leaving the viewport without a source, and loading a
    /// scene asks for a viewport frame next; a viewport command runs on
    /// `viewport` with frames of `size`; an interface command is handed on.
    pub fn execute<T: AdapterTransport>(
        command: EditorCommand,
        assets: &mut AssetState,
        project_loaded: bool,
        scene_has_unsaved_changes: bool,
        adapter: &mut AdapterState<T>,
        viewport: &mut AppViewportState,
        size: ViewportFrameRequestSize,
    ) -> (r: RoutedCommand)
        ensures
            !(command is Asset) ==> final(assets)@ == old(assets)@,
            !(command is Adapter) && !(command is Viewport) ==> final(adapter)@ == old(adapter)@,
            !(command is Adapter) && !(command is Viewport) ==> final(viewport).viewport() == old(viewport).viewport() && final(viewport).last_result() == old(viewport).last_result(),
            match command {
                EditorCommand::Asset(c) => r matches RoutedCommand::Asset(step) && executed(
                    old(assets)@,
                    final(assets)@,
                    c,
                    project_loaded,
                    step,
                ),
                EditorCommand::Adapter(c) => {
                    &&& r matches RoutedCommand::Adapter { step, request_viewport_frame }
                        && request_viewport_frame == (c == AdapterCommand::LoadScene) && adapter_executed(
                        old(adapter)@,
                        final(adapter)@,
                        c,
                        scene_has_unsaved_changes,
                        step,
                    )
                    &&& final(viewport).last_result() == old(viewport).last_result()
                    &&& c == AdapterCommand::Disconnect ==> final(viewport).viewport().source
                        == ViewportSource::Unset && final(viewport).viewport().status
                        == ViewportStatus::NoSource && final(viewport).viewport().frame is None
                    &&& c == AdapterCommand::Handshake && shows_previews(final(adapter)@) ==> (final(viewport).viewport().source matches ViewportSource::Adapter(a) && final(adapter)@.id
                        == Some(a@)) && final(viewport).viewport().frame is None
                    &&& c == AdapterCommand::Handshake && !shows_previews(final(adapter)@) ==> final(viewport).viewport() == old(viewport).viewport()
                    &&& c != AdapterCommand::Disconnect && c != AdapterCommand::Handshake ==> final(viewport).viewport() == old(viewport).viewport()
                },
                EditorCommand::Viewport(c) => r matches RoutedCommand::Finished(o) && (final(viewport).last_result() matches Some(res) && viewport_executed(
                    old(viewport).viewport(),
                    final(viewport).viewport(),
                    old(adapter)@.status == AdapterHostState::Connected,
                    renders_previews(old(adapter)@),
                    c,
                    res,
                ) && (o.message matches Some(m) && m@ == res.1)) && !o.request_viewport_frame
                    && o.ui_command is None && final(adapter)@.status == old(adapter)@.status,
                EditorCommand::Ui(c) => r matches RoutedCommand::Finished(o) && o.message is None
                    && !o.request_viewport_frame && o.ui_command == Some(c),
                _ => r == RoutedCommand::Elsewhere(command),
            },
    {
        match command {
            EditorCommand::Asset(c) => RoutedCommand::Asset(assets.execute(c, project_loaded)),
            EditorCommand::Adapter(c) => {
                let step = adapter.execute(c, scene_has_unsaved_changes);
                match c {
                    AdapterCommand::Handshake => {
                        match adapter.connected_viewport_info() {
                            Some((id, preview)) => viewport.on_adapter_connected(id.as_str(), preview),
                            None => {},
                        }
                    },
                    AdapterCommand::Disconnect => viewport.on_adapter_disconnected(),
                    _ => {},
                }
                let request_viewport_frame = match c {
                    AdapterCommand::LoadScene => true,
                    _ => false,
                };
                RoutedCommand::Adapter { step, request_viewport_frame }
            },
            EditorCommand::Viewport(c) => {
                let result = viewport.execute(c, adapter, size);
                RoutedCommand::Finished(EditorCommandOutcome::message(result.message()))
            },
            EditorCommand::Ui(c) => RoutedCommand::Finished(EditorCommandOutcome::ui_command(c)),
            _ => RoutedCommand::Elsewhere(command),
        }
    }
}

} // verus!
