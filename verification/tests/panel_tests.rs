use elcarax::adapter_frame::FrameError;
use elcarax::adapter_protocol::{
    AdapterRequestMessage, LoadProjectRequest,
    AdapterCapabilities, AdapterDiagnostic, AdapterEvent, AdapterId, AdapterLine, AdapterLog,
    AdapterName, AdapterRequestId, AdapterResponse, AdapterResponseMessage, AdapterVersion,
    AdapterViewportId, GetDiagnosticsResponse, GetViewportFrameResponse, HandshakeResponse,
    LoadProjectResponse, ProtocolVersion, ShutdownResponse, ViewportFrameResponseStatus,
};
use elcarax::adapter_session::{
    AdapterHostError, AdapterHostState, AdapterSession, FakeAdapterTransport,
};
use elcarax::adapter_state::{AdapterLaunchConfig, AdapterState, AdapterStep};
use elcarax::app_config::AppProjectConfig;
use elcarax::editor_commands::{
    AdapterCommand, VIEWPORT_CLEAR_COMMAND, VIEWPORT_REQUEST_FRAME_COMMAND,
    VIEWPORT_SHOW_STATUS_COMMAND,
};
use elcarax::viewport::{ViewportFrameFormat, ViewportStatus};
use elcarax::viewport_panel::AppViewportState;

fn response(id: u64, message: AdapterResponseMessage) -> Result<AdapterLine, FrameError> {
    Ok(AdapterLine::Response(AdapterResponse::new(AdapterRequestId(id), message)))
}

fn event(event: AdapterEvent) -> Result<AdapterLine, FrameError> {
    Ok(AdapterLine::Event(event))
}

fn handshake_response(preview: bool) -> HandshakeResponse {
    HandshakeResponse {
        adapter_id: AdapterId::new("fixture-adapter"),
        adapter_name: AdapterName::new("Fixture Adapter"),
        adapter_version: AdapterVersion::new("0.1.0"),
        protocol_version: ProtocolVersion(0),
        capabilities: AdapterCapabilities {
            provides_project_info: true,
            provides_scene_snapshot: true,
            provides_diagnostics: true,
            supports_property_writeback: false,
            supports_viewport_preview: preview,
        },
    }
}

fn state_with_lines(
    lines: Vec<Result<AdapterLine, FrameError>>,
) -> AdapterState<FakeAdapterTransport> {
    let mut state = AdapterState::default();
    state.attach_session(AdapterSession::new(FakeAdapterTransport::new(lines)));
    state
}

fn message(step: AdapterStep) -> String {
    match step {
        AdapterStep::Done(result) => result.message().to_string(),
        other => panic!("expected a finished command, got {other:?}"),
    }
}

fn adapter_with_viewport_response() -> AdapterState<FakeAdapterTransport> {
    let frame = GetViewportFrameResponse {
        viewport_id: AdapterViewportId(1),
        width: 2,
        height: 2,
        format: ViewportFrameFormat::Rgba8Unorm,
        byte_len: 16,
        pixels: vec![0; 16],
        diagnostics: Vec::new(),
        status: ViewportFrameResponseStatus::Available,
    };
    let mut adapter = state_with_lines(vec![
        response(1, AdapterResponseMessage::Handshake(handshake_response(true))),
        response(2, AdapterResponseMessage::GetViewportFrame(frame)),
    ]);
    let _ = adapter.execute(AdapterCommand::Handshake, false);
    adapter
}

#[test]
fn fake_transport_handshake_command_changes_status() {
    let mut state = state_with_lines(vec![response(
        1,
        AdapterResponseMessage::Handshake(handshake_response(false)),
    )]);
    let result = message(state.execute(AdapterCommand::Handshake, false));
    assert!(result.contains("handshake"));
    assert_eq!(state.status(), AdapterHostState::Connected);
}

#[test]
fn adapter_load_scene_is_blocked_while_project_scene_is_dirty() {
    let mut adapter: AdapterState<FakeAdapterTransport> = AdapterState::default();
    let result = message(adapter.execute(AdapterCommand::LoadScene, true));
    assert!(result.contains("Unsaved"));
}

#[test]
fn adapter_show_diagnostics_records_diagnostics() {
    let mut state = state_with_lines(vec![
        event(AdapterEvent::Log(AdapterLog::info("ok"))),
        response(
            1,
            AdapterResponseMessage::GetDiagnostics(GetDiagnosticsResponse {
                diagnostics: vec![AdapterDiagnostic::info("fixture", "ready")],
            }),
        ),
    ]);
    let result = message(state.execute(AdapterCommand::ShowDiagnostics, false));
    assert_eq!(result, "1 adapter diagnostic(s)");
    assert_eq!(state.diagnostics().len(), 1);
}

#[test]
fn adapter_disconnect_clears_connection() {
    let mut state = state_with_lines(vec![response(
        1,
        AdapterResponseMessage::Shutdown(ShutdownResponse { accepted: true }),
    )]);
    let result = message(state.execute(AdapterCommand::Disconnect, false));
    assert_eq!(result, "adapter disconnected");
    assert_eq!(state.status(), AdapterHostState::Stopped);
    assert!(state.session().is_none());
}

#[test]
fn adapter_commands_without_session_report_not_running() {
    let mut state: AdapterState<FakeAdapterTransport> = AdapterState::default();
    assert_eq!(
        message(state.execute(AdapterCommand::Handshake, false)),
        "Diagnostic: adapter is not running"
    );
    assert_eq!(
        message(state.execute(AdapterCommand::LoadProject, false)),
        "Diagnostic: adapter is not running"
    );
    assert_eq!(
        message(state.execute(AdapterCommand::ShowDiagnostics, false)),
        "Diagnostic: adapter is not running"
    );
    assert_eq!(
        message(state.execute(AdapterCommand::LoadScene, false)),
        "Diagnostic: adapter is not running"
    );
    assert_eq!(state.status(), AdapterHostState::Disconnected);
}

#[test]
fn connect_asks_to_spawn_configured_adapter() {
    let config = AppProjectConfig {
        adapter_executable: Some("/opt/adapter".to_string()),
        auto_connect_adapter: true,
        ..AppProjectConfig::default()
    };
    let mut state: AdapterState<FakeAdapterTransport> =
        AdapterState::new(AdapterLaunchConfig::from_project_config(&config));
    assert!(state.auto_connect_enabled());
    match state.execute(AdapterCommand::Connect, false) {
        AdapterStep::Spawn(spec) => {
            assert_eq!(spec.executable, "/opt/adapter");
            assert!(spec.args.is_empty());
        }
        other => panic!("connect should ask for a process, got {other:?}"),
    }
    let started = state.finish_connect(Ok(AdapterSession::new(FakeAdapterTransport::new(vec![]))));
    assert_eq!(started.message(), "adapter process started");
    assert_eq!(state.status(), AdapterHostState::Starting);
    assert_eq!(
        message(state.execute(AdapterCommand::Connect, false)),
        "adapter process already active"
    );
}

#[test]
fn failed_spawn_is_reported() {
    let mut state: AdapterState<FakeAdapterTransport> = AdapterState::default();
    match state.execute(AdapterCommand::Connect, false) {
        AdapterStep::Spawn(spec) => assert_eq!(spec.executable, "cargo"),
        other => panic!("connect should ask for a process, got {other:?}"),
    }
    let failed = state.finish_connect(Err(AdapterHostError::SpawnFailed("no such file".to_string())));
    assert_eq!(failed.message(), "Diagnostic: failed to spawn adapter: no such file");
    assert_eq!(state.status(), AdapterHostState::Failed);
}

#[test]
fn load_project_and_status_reports() {
    let mut state = state_with_lines(vec![
        response(1, AdapterResponseMessage::Handshake(handshake_response(true))),
        response(
            2,
            AdapterResponseMessage::LoadProject(LoadProjectResponse {
                display_name: "Demo".to_string(),
                root_path: None,
            }),
        ),
    ]);
    let _ = state.execute(AdapterCommand::Handshake, false);
    assert_eq!(message(state.execute(AdapterCommand::LoadProject, false)), "loaded adapter project Demo");
    let status = message(state.execute(AdapterCommand::ShowStatus, false));
    assert!(status.starts_with("Adapter: Fixture Adapter 0.1.0 Connected | "));
    assert_eq!(state.ui_snapshot().adapter_command, format!("Adapter Command: {status}"));
    assert_eq!(
        state.connected_viewport_info(),
        Some(("fixture-adapter".to_string(), true))
    );
}

#[test]
fn exited_adapter_fails_handshake() {
    let mut state = state_with_lines(vec![]);
    let result = message(state.execute(AdapterCommand::Handshake, false));
    assert_eq!(result, "Diagnostic: adapter exited before response");
    assert_eq!(state.status(), AdapterHostState::Failed);
}

#[test]
fn request_frame_without_adapter_fails_clearly() {
    let mut viewport = AppViewportState::default();
    let mut adapter: AdapterState<FakeAdapterTransport> = AdapterState::default();
    let result = match viewport.execute_command_id(VIEWPORT_REQUEST_FRAME_COMMAND, &mut adapter) {
        Some(result) => result,
        None => panic!("command should run"),
    };
    assert!(result.message().contains("No adapter connected"));
    assert_eq!(viewport.state().status, ViewportStatus::NoSource);
}

#[test]
fn request_frame_with_fake_adapter_updates_viewport_state() {
    let mut viewport = AppViewportState::default();
    let mut adapter = adapter_with_viewport_response();
    viewport.on_adapter_connected("fixture-adapter", true);
    let result = match viewport.execute_command_id(VIEWPORT_REQUEST_FRAME_COMMAND, &mut adapter) {
        Some(result) => result,
        None => panic!("command should run"),
    };
    assert!(result.message().contains("viewport frame"));
    assert_eq!(viewport.state().status, ViewportStatus::FrameAvailable);
}

#[test]
fn clear_clears_frame_status() {
    let mut viewport = AppViewportState::default();
    let mut adapter = adapter_with_viewport_response();
    viewport.on_adapter_connected("fixture-adapter", true);
    let _ = viewport.execute_command_id(VIEWPORT_REQUEST_FRAME_COMMAND, &mut adapter);
    let _ = viewport.execute_command_id(VIEWPORT_CLEAR_COMMAND, &mut adapter);
    assert_eq!(viewport.state().status, ViewportStatus::WaitingForFrame);
    assert!(viewport.state().frame.is_none());
}

#[test]
fn adapter_disconnect_clears_viewport_source() {
    let mut viewport = AppViewportState::default();
    viewport.on_adapter_connected("fixture-adapter", true);
    viewport.on_adapter_disconnected();
    assert_eq!(viewport.state().status, ViewportStatus::NoSource);
}

#[test]
fn show_status_names_status_and_source() {
    let mut viewport = AppViewportState::default();
    let mut adapter: AdapterState<FakeAdapterTransport> = AdapterState::default();
    let none = viewport.execute_command_id(VIEWPORT_SHOW_STATUS_COMMAND, &mut adapter);
    assert_eq!(
        none.map(|r| r.message().to_string()),
        Some("viewport status=NoSource source=none".to_string())
    );
    viewport.on_adapter_connected("fixture-adapter", true);
    let some = viewport.execute_command_id(VIEWPORT_SHOW_STATUS_COMMAND, &mut adapter);
    assert_eq!(
        some.map(|r| r.message().to_string()),
        Some("viewport status=WaitingForFrame source=fixture-adapter".to_string())
    );
    assert_eq!(
        viewport.ui_snapshot().command_message,
        "viewport status=WaitingForFrame source=fixture-adapter"
    );
    assert!(viewport.execute_command_id("asset.scan", &mut adapter).is_none());
}

#[test]
fn request_frame_after_adapter_exit_records_adapter_failure() {
    let mut viewport = AppViewportState::default();
    let mut adapter = state_with_lines(vec![response(
        1,
        AdapterResponseMessage::Handshake(handshake_response(true)),
    )]);
    let _ = adapter.execute(AdapterCommand::Handshake, false);
    viewport.on_adapter_connected("fixture-adapter", true);
    let result = match viewport.execute_command_id(VIEWPORT_REQUEST_FRAME_COMMAND, &mut adapter) {
        Some(result) => result,
        None => panic!("command should run"),
    };
    assert_eq!(result.message(), "adapter exited before response");
    assert_eq!(viewport.state().status, ViewportStatus::Error);
    assert!(viewport.state().frame.is_none());
    assert_eq!(
        viewport.state().last_diagnostic.as_ref().map(|d| d.message.clone()),
        Some("adapter viewport error: adapter exited before response".to_string())
    );
}

#[test]
fn load_project_sends_the_configured_path_and_reports_the_name() {
    let mut state: AdapterState<FakeAdapterTransport> = AdapterState::new(AdapterLaunchConfig {
        executable: None,
        project_path: Some("/games/demo".to_string()),
        auto_connect: false,
    });
    state.attach_session(AdapterSession::new(FakeAdapterTransport::new(vec![response(
        1,
        AdapterResponseMessage::LoadProject(LoadProjectResponse {
            display_name: "Demo".to_string(),
            root_path: None,
        }),
    )])));
    let result = message(state.execute(AdapterCommand::LoadProject, false));
    assert_eq!(result, "loaded adapter project Demo");
    let writes = state.session().map(|s| s.transport().writes().to_vec()).unwrap_or_default();
    assert_eq!(writes.len(), 1);
    assert_eq!(writes[0].request_id, AdapterRequestId(1));
    assert_eq!(
        writes[0].message,
        AdapterRequestMessage::LoadProject(LoadProjectRequest {
            project_path: Some("/games/demo".to_string())
        })
    );
}

#[test]
fn handshake_sends_the_editor_name_and_configured_path() {
    let mut state: AdapterState<FakeAdapterTransport> = AdapterState::new(AdapterLaunchConfig {
        executable: None,
        project_path: Some("/games/demo".to_string()),
        auto_connect: false,
    });
    state.attach_session(AdapterSession::new(FakeAdapterTransport::new(vec![response(
        1,
        AdapterResponseMessage::Handshake(handshake_response(false)),
    )])));
    let _ = state.execute(AdapterCommand::Handshake, false);
    let writes = state.session().map(|s| s.transport().writes().to_vec()).unwrap_or_default();
    assert_eq!(writes.len(), 1);
    match &writes[0].message {
        AdapterRequestMessage::Handshake(h) => {
            assert_eq!(h.editor_version, "elcarax-app");
            assert_eq!(h.project_path.as_deref(), Some("/games/demo"));
        }
        other => panic!("expected a handshake, got {other:?}"),
    }
}

#[test]
fn finishing_steps_take_the_outcome() {
    let mut state: AdapterState<FakeAdapterTransport> = AdapterState::default();
    let failed = message(state.finish_load_project(Err(AdapterHostError::AdapterExited)));
    assert_eq!(failed, "Diagnostic: adapter exited before response");
    assert_eq!(state.status(), AdapterHostState::Failed);
    let loaded = message(state.finish_load_project(Ok(LoadProjectResponse {
        display_name: "Demo".to_string(),
        root_path: None,
    })));
    assert_eq!(loaded, "loaded adapter project Demo");
}
