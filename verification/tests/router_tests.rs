use elcarax::adapter_frame::FrameError;
use elcarax::adapter_protocol::{
    AdapterCapabilities, AdapterId, AdapterLine, AdapterName, AdapterRequestId, AdapterResponse,
    AdapterResponseMessage, AdapterVersion, HandshakeResponse, ProtocolVersion, ShutdownResponse,
};
use elcarax::adapter_session::{AdapterHostState, AdapterSession, FakeAdapterTransport};
use elcarax::adapter_state::{AdapterState, AdapterStep};
use elcarax::asset_state::{AssetState, AssetStep};
use elcarax::editor_commands::{
    AdapterCommand, AssetCommand, EditorCommand, EditorUiCommand, ProjectCommand,
    ViewportCommand,
};
use elcarax::editor_router::{EditorCommandOutcome, RoutedCommand};
use elcarax::editor_commands::EditorCommandRouter;
use elcarax::viewport::{ViewportSource, ViewportStatus};
use elcarax::viewport_panel::AppViewportState;
use elcarax::viewport_request::ViewportFrameRequestSize;

fn response(id: u64, message: AdapterResponseMessage) -> Result<AdapterLine, FrameError> {
    Ok(AdapterLine::Response(AdapterResponse::new(AdapterRequestId(id), message)))
}

fn handshake(preview: bool) -> AdapterResponseMessage {
    AdapterResponseMessage::Handshake(HandshakeResponse {
        adapter_id: AdapterId::new("fixture-adapter"),
        adapter_name: AdapterName::new("Fixture Adapter"),
        adapter_version: AdapterVersion::new("0.1.0"),
        protocol_version: ProtocolVersion(0),
        capabilities: AdapterCapabilities {
            provides_project_info: true,
            provides_scene_snapshot: true,
            provides_diagnostics: true,
            supports_property_writeback: false,
            supports_viewport_preview: preview,
        },
    })
}

fn adapter_with(lines: Vec<Result<AdapterLine, FrameError>>) -> AdapterState<FakeAdapterTransport> {
    let mut state = AdapterState::default();
    state.attach_session(AdapterSession::new(FakeAdapterTransport::new(lines)));
    state
}

fn route(
    command: EditorCommand,
    assets: &mut AssetState,
    adapter: &mut AdapterState<FakeAdapterTransport>,
    viewport: &mut AppViewportState,
) -> RoutedCommand {
    EditorCommandRouter::execute(
        command,
        assets,
        false,
        false,
        adapter,
        viewport,
        ViewportFrameRequestSize::default_editor(),
    )
}

#[test]
fn outcome_constructors_fill_one_field() {
    let m = EditorCommandOutcome::message("saved");
    assert_eq!(m.message.as_deref(), Some("saved"));
    assert!(!m.request_viewport_frame);
    assert!(m.ui_command.is_none());
    let u = EditorCommandOutcome::ui_command(EditorUiCommand::OpenPalette);
    assert!(u.message.is_none());
    assert_eq!(u.ui_command, Some(EditorUiCommand::OpenPalette));
}

#[test]
fn ui_commands_are_handed_to_the_interface() {
    let mut assets = AssetState::default();
    let mut adapter: AdapterState<FakeAdapterTransport> = AdapterState::default();
    let mut viewport = AppViewportState::default();
    match route(EditorCommand::Ui(EditorUiCommand::HelpShortcuts), &mut assets, &mut adapter, &mut viewport) {
        RoutedCommand::Finished(o) => {
            assert!(o.message.is_none());
            assert!(!o.request_viewport_frame);
            assert_eq!(o.ui_command, Some(EditorUiCommand::HelpShortcuts));
        }
        other => panic!("expected a finished outcome, got {other:?}"),
    }
}

#[test]
fn project_commands_go_back_to_the_caller() {
    let mut assets = AssetState::default();
    let mut adapter: AdapterState<FakeAdapterTransport> = AdapterState::default();
    let mut viewport = AppViewportState::default();
    let command = EditorCommand::Project(ProjectCommand::Open);
    match route(command, &mut assets, &mut adapter, &mut viewport) {
        RoutedCommand::Elsewhere(c) => assert_eq!(c, command),
        other => panic!("expected the command back, got {other:?}"),
    }
}

#[test]
fn viewport_request_without_adapter_reports_no_adapter() {
    let mut assets = AssetState::default();
    let mut adapter: AdapterState<FakeAdapterTransport> = AdapterState::default();
    let mut viewport = AppViewportState::default();
    match route(EditorCommand::Viewport(ViewportCommand::RequestFrame), &mut assets, &mut adapter, &mut viewport) {
        RoutedCommand::Finished(o) => {
            assert_eq!(o.message.as_deref(), Some("No adapter connected"));
            assert!(!o.request_viewport_frame);
        }
        other => panic!("expected a finished outcome, got {other:?}"),
    }
    assert_eq!(viewport.state().status, ViewportStatus::NoSource);
    assert!(viewport.state().frame.is_none());
}

#[test]
fn asset_commands_return_their_step() {
    let mut assets = AssetState::default();
    let mut adapter: AdapterState<FakeAdapterTransport> = AdapterState::default();
    let mut viewport = AppViewportState::default();
    match route(EditorCommand::Asset(AssetCommand::ClearSelection), &mut assets, &mut adapter, &mut viewport) {
        RoutedCommand::Asset(AssetStep::Done(res)) => {
            assert_eq!(res.message(), "Cleared asset selection");
        }
        other => panic!("expected a finished asset step, got {other:?}"),
    }
}

#[test]
fn load_scene_asks_for_a_viewport_frame() {
    let mut assets = AssetState::default();
    let mut adapter: AdapterState<FakeAdapterTransport> = AdapterState::default();
    let mut viewport = AppViewportState::default();
    match route(EditorCommand::Adapter(AdapterCommand::LoadScene), &mut assets, &mut adapter, &mut viewport) {
        RoutedCommand::Adapter { step: AdapterStep::Done(res), request_viewport_frame } => {
            assert!(request_viewport_frame);
            assert_eq!(res.message(), "Diagnostic: adapter is not running");
        }
        other => panic!("expected an adapter step, got {other:?}"),
    }
    match route(EditorCommand::Adapter(AdapterCommand::ShowStatus), &mut assets, &mut adapter, &mut viewport) {
        RoutedCommand::Adapter { request_viewport_frame, .. } => assert!(!request_viewport_frame),
        other => panic!("expected an adapter step, got {other:?}"),
    }
}

#[test]
fn handshake_points_the_viewport_at_a_previewing_adapter() {
    let mut assets = AssetState::default();
    let mut adapter = adapter_with(vec![response(1, handshake(true))]);
    let mut viewport = AppViewportState::default();
    let _ = route(EditorCommand::Adapter(AdapterCommand::Handshake), &mut assets, &mut adapter, &mut viewport);
    assert_eq!(adapter.status(), AdapterHostState::Connected);
    assert_eq!(
        viewport.state().source,
        ViewportSource::Adapter("fixture-adapter".to_string())
    );
}

#[test]
fn handshake_without_preview_leaves_the_viewport() {
    let mut assets = AssetState::default();
    let mut adapter = adapter_with(vec![response(1, handshake(false))]);
    let mut viewport = AppViewportState::default();
    let _ = route(EditorCommand::Adapter(AdapterCommand::Handshake), &mut assets, &mut adapter, &mut viewport);
    assert_eq!(viewport.state().source, ViewportSource::Unset);
}

#[test]
fn disconnect_leaves_the_viewport_without_source() {
    let mut assets = AssetState::default();
    let mut adapter = adapter_with(vec![
        response(1, handshake(true)),
        response(2, AdapterResponseMessage::Shutdown(ShutdownResponse { accepted: true })),
    ]);
    let mut viewport = AppViewportState::default();
    let _ = route(EditorCommand::Adapter(AdapterCommand::Handshake), &mut assets, &mut adapter, &mut viewport);
    let _ = route(EditorCommand::Adapter(AdapterCommand::Disconnect), &mut assets, &mut adapter, &mut viewport);
    assert_eq!(viewport.state().source, ViewportSource::Unset);
    assert_eq!(viewport.state().status, ViewportStatus::NoSource);
}
