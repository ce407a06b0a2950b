use elcarax::adapter_protocol::{
    AdapterCapabilities, AdapterDiagnostic, AdapterId, AdapterLine, AdapterName, AdapterRequestId,
    AdapterResponse, AdapterResponseMessage, AdapterVersion, AdapterViewportId,
    GetViewportFrameResponse, HandshakeRequest, HandshakeResponse, ProtocolVersion,
    ViewportFrameResponseStatus,
};
use elcarax::adapter_session::{AdapterHostState, AdapterSession, FakeAdapterTransport};
use elcarax::asset_demo::demo_asset_index;
use elcarax::asset_index::AssetSelection;
use elcarax::asset_watch::AssetWatchStatus;
use elcarax::assets::{stable_asset_id, AssetDiagnostic};
use elcarax::editor_display::{
    adapter_ui_snapshot, asset_count_label, asset_row_label, clamp_scroll_offset,
    row_index_for_asset, selected_asset_summary, status_asset_suffix, viewport_ui_snapshot,
    watch_label, AssetScanStatus, AssetUiState,
};
use elcarax::viewport::{ViewportFrame, ViewportFrameFormat, ViewportState, ViewportStatus};
use elcarax::viewport_request::{
    apply_viewport_response, request_viewport_frame, ViewportFrameRequestSize,
};

#[test]
fn no_source_snapshot_uses_actionable_hint() {
    let snapshot = viewport_ui_snapshot(&ViewportState::default_editor(), None);
    assert_eq!(snapshot.message, "No viewport source");
    assert!(snapshot.hint.contains("viewport.request_frame"));
}

#[test]
fn frame_available_snapshot_includes_pixels() {
    let mut state = ViewportState::default_editor();
    state.set_adapter_source("adapter-a");
    let frame = match ViewportFrame::new(1, 1, ViewportFrameFormat::Rgba8Unorm, vec![1, 2, 3, 4]) {
        Ok(frame) => frame,
        Err(error) => panic!("frame should be valid: {}", error.message()),
    };
    let _ = state.apply_frame(frame);
    let snapshot = viewport_ui_snapshot(&state, None);
    assert_eq!(snapshot.frame_rgba.len(), 4);
    assert!(snapshot.show_preview_label);
    assert!(snapshot.hint.contains("Scroll to zoom"));
}

#[test]
fn error_snapshot_shows_the_diagnostic() {
    let mut state = ViewportState::default_editor();
    let _ = state.begin_frame_request();
    state.status = ViewportStatus::Error;
    let snapshot = viewport_ui_snapshot(&state, Some("last"));
    assert_eq!(snapshot.message, "No adapter connected");
    assert_eq!(snapshot.command_message, "last");
}

fn ready_state<'a>(watch: &'a AssetWatchStatus, diagnostics: &'a [AssetDiagnostic]) -> AssetUiState<'a> {
    AssetUiState {
        project_loaded: true,
        scan_status: AssetScanStatus::Ready,
        watch_status: watch,
        diagnostics,
        last_command_message: None,
        dirty: false,
        scanned: true,
    }
}

#[test]
fn asset_panel_labels() {
    let index = demo_asset_index();
    let watch = AssetWatchStatus::Watching("assets".to_string());
    let state = ready_state(&watch, &[]);
    assert_eq!(
        asset_count_label(&index, &state),
        "Assets: 7 | Audio=1, Image=1, Material=1, Model=1, Scene=1, Script=1, Text=1 | Watch: watching"
    );
    assert_eq!(asset_row_label(&index.records()[0]), "README.md - README.md (Text)");
    assert_eq!(watch_label(&AssetWatchStatus::Stopped), "Watch: stopped");
    assert_eq!(status_asset_suffix(&index, None, &state), "Assets: 7");
    let selected = Some(stable_asset_id(4));
    assert_eq!(status_asset_suffix(&index, selected, &state), "Asset: cube.glb (Model)");
    assert_eq!(
        selected_asset_summary(&index, selected),
        "Selected: cube.glb | Model | assets/models/cube.glb"
    );
    assert_eq!(selected_asset_summary(&index, AssetSelection::none().selected()), "Selected: None");
}

#[test]
fn asset_panel_reports_problems_first() {
    let index = demo_asset_index();
    let watch = AssetWatchStatus::Stopped;
    let diagnostics = vec![AssetDiagnostic::warning("root", "Asset root does not exist: x")];
    let mut state = ready_state(&watch, &diagnostics);
    state.scan_status = AssetScanStatus::Error;
    assert_eq!(
        asset_count_label(&index, &state),
        "Asset error: root: Asset root does not exist: x"
    );
    assert_eq!(
        status_asset_suffix(&index, None, &state),
        "Asset: root: Asset root does not exist: x"
    );
    state.project_loaded = false;
    assert_eq!(asset_count_label(&index, &state), "Assets unavailable - no project open");
}

#[test]
fn scrolling_is_clamped_to_the_last_window() {
    assert_eq!(clamp_scroll_offset(2, 10, 8), 2);
    assert_eq!(clamp_scroll_offset(5, 10, 8), 2);
    assert_eq!(clamp_scroll_offset(5, 3, 8), 0);
    let index = demo_asset_index();
    assert_eq!(row_index_for_asset(&index, stable_asset_id(4), 1), Some(2));
    assert_eq!(row_index_for_asset(&index, stable_asset_id(1), 1), None);
}

#[test]
fn adapter_panel_shows_name_once_connected() {
    let name = AdapterName::new("Mock Adapter");
    let version = AdapterVersion::new("0.1.0");
    let caps = AdapterCapabilities::mock_milestone_12();
    let connected = adapter_ui_snapshot(
        AdapterHostState::Connected,
        Some(&name),
        Some(&version),
        Some(&caps),
        &[],
        None,
    );
    assert_eq!(
        connected.adapter_status,
        "Adapter: Mock Adapter 0.1.0 Connected | Capabilities: project=true scene=true diagnostics=true writeback=false viewport=false"
    );
    assert_eq!(connected.adapter_diagnostics, "Adapter Diagnostics: 0");
    assert_eq!(connected.adapter_command, "Adapter Command: None");
    let failed = adapter_ui_snapshot(AdapterHostState::Failed, None, None, None, &[], Some("boom"));
    assert_eq!(failed.status_adapter_suffix, "Adapter: Failed");
    assert_eq!(failed.adapter_command, "Adapter Command: boom");
}

#[test]
fn viewport_response_is_shown_or_reported() {
    let mut state = ViewportState::default_editor();
    state.set_adapter_source("adapter-a");
    let ok = GetViewportFrameResponse::available(
        AdapterViewportId(1),
        1,
        1,
        ViewportFrameFormat::Rgba8Unorm,
        vec![1, 2, 3, 4],
        Vec::new(),
    );
    assert_eq!(apply_viewport_response(&mut state, ok), Ok("viewport frame 1x1 received".to_string()));
    assert_eq!(state.status, ViewportStatus::FrameAvailable);
    let failed = GetViewportFrameResponse::failed(
        AdapterViewportId(1),
        ViewportFrameResponseStatus::NoSceneLoaded,
        "no scene",
    );
    assert_eq!(apply_viewport_response(&mut state, failed), Err("no scene".to_string()));
    assert_eq!(state.status, ViewportStatus::Error);
}

#[test]
fn viewport_request_goes_through_the_session() {
    let mut caps = AdapterCapabilities::mock_milestone_12();
    caps.supports_viewport_preview = true;
    let handshake = Ok(AdapterLine::Response(AdapterResponse::new(
        AdapterRequestId(1),
        AdapterResponseMessage::Handshake(HandshakeResponse {
            adapter_id: AdapterId::new("adapter-a"),
            adapter_name: AdapterName::new("A"),
            adapter_version: AdapterVersion::new("1"),
            protocol_version: ProtocolVersion(0),
            capabilities: caps,
        }),
    )));
    let frame = Ok(AdapterLine::Response(AdapterResponse::new(
        AdapterRequestId(2),
        AdapterResponseMessage::GetViewportFrame(GetViewportFrameResponse::available(
            AdapterViewportId(1),
            1,
            2,
            ViewportFrameFormat::Rgba8Unorm,
            vec![0; 8],
            vec![AdapterDiagnostic::info("a", "b")],
        )),
    )));
    let mut session = AdapterSession::new(FakeAdapterTransport::new(vec![handshake, frame]));
    let mut state = ViewportState::default_editor();
    assert!(request_viewport_frame(&mut session, &mut state, ViewportFrameRequestSize::default_editor()).is_err());
    assert!(session.handshake(HandshakeRequest::current("test", None)).is_ok());
    state.set_adapter_source("adapter-a");
    let result = request_viewport_frame(&mut session, &mut state, ViewportFrameRequestSize::default_editor());
    assert_eq!(result, Ok("viewport frame 1x2 received".to_string()));
    assert_eq!(state.frame.as_ref().map(|f| f.size.height), Some(2));
    let size = ViewportFrameRequestSize::clamped(0, 5000);
    assert_eq!((size.width(), size.height()), (1, 1024));
}
