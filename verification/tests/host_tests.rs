use elcarax::adapter_host::{
    AdapterHostCore, AdapterHostPollItem, ShutdownStep, WaitStep, WorkerEvent,
};
use elcarax::adapter_protocol::{
    AdapterCapabilities, AdapterDiagnostic, AdapterError, AdapterEvent, AdapterId, AdapterLine,
    AdapterLog, AdapterName, AdapterRequestId, AdapterResponse, AdapterResponseMessage,
    AdapterVersion, ErrorResponse, GetDiagnosticsRequest, GetDiagnosticsResponse,
    HandshakeResponse, ProtocolVersion, ShutdownResponse,
};
use elcarax::adapter_session::{AdapterHostError, AdapterHostState, AdapterSession, FakeAdapterTransport};
use elcarax::app_config::{
    picked_project_path, resolve_create_project_root, resolve_open_project_path,
    AppProjectConfig, ProjectPathResolution,
};

fn diagnostics_response(id: u64) -> AdapterResponse {
    AdapterResponse::new(
        AdapterRequestId(id),
        AdapterResponseMessage::GetDiagnostics(GetDiagnosticsResponse {
            diagnostics: vec![AdapterDiagnostic::info("mock", "ok")],
        }),
    )
}

#[test]
fn event_frames_are_collected_before_response() {
    let event = Ok(AdapterLine::Event(AdapterEvent::Log(AdapterLog::info("ready"))));
    let response = Ok(AdapterLine::Response(diagnostics_response(1)));
    let mut session = AdapterSession::new(FakeAdapterTransport::new(vec![event, response]));
    let diagnostics = match session.get_diagnostics(GetDiagnosticsRequest) {
        Ok(diagnostics) => diagnostics,
        Err(error) => panic!("diagnostics should arrive: {}", error.message()),
    };
    assert_eq!(diagnostics.diagnostics.len(), 1);
    assert_eq!(session.logs().len(), 1);
}

#[test]
fn configured_open_path_skips_dialog() {
    let config = AppProjectConfig {
        open_path: Some("/tmp/project".to_string()),
        ..AppProjectConfig::default()
    };
    assert_eq!(
        resolve_open_project_path(&config),
        Some(ProjectPathResolution::Resolved("/tmp/project".to_string()))
    );
}

#[test]
fn configured_create_root_skips_dialog() {
    let config = AppProjectConfig {
        create_root: Some("/tmp/new-project".to_string()),
        ..AppProjectConfig::default()
    };
    assert_eq!(
        resolve_create_project_root(&config),
        Some(ProjectPathResolution::Resolved("/tmp/new-project".to_string()))
    );
}

#[test]
fn unconfigured_paths_ask_the_picker() {
    let config = AppProjectConfig::default();
    assert_eq!(resolve_open_project_path(&config), None);
    assert_eq!(resolve_create_project_root(&config), None);
    assert_eq!(picked_project_path(None), ProjectPathResolution::Cancelled);
    assert_eq!(
        picked_project_path(Some("/srv/game".to_string())),
        ProjectPathResolution::Resolved("/srv/game".to_string())
    );
}

#[test]
fn disconnected_host_refuses_requests() {
    let mut host = AdapterHostCore::disconnected();
    assert_eq!(host.state(), AdapterHostState::Disconnected);
    assert_eq!(host.begin_submit(), Err(AdapterHostError::AdapterExited));
}

#[test]
fn started_host_numbers_requests_from_one() {
    let mut host = AdapterHostCore::started();
    assert_eq!(host.state(), AdapterHostState::Starting);
    assert_eq!(host.begin_submit(), Ok(AdapterRequestId(1)));
    assert_eq!(host.begin_submit(), Ok(AdapterRequestId(2)));
    assert_eq!(host.allocate_request_id(), AdapterRequestId(3));
}

#[test]
fn failed_host_refuses_requests() {
    let mut host = AdapterHostCore::started();
    let item = host.ingest_worker_event(WorkerEvent::Failed(AdapterHostError::AdapterExited));
    assert_eq!(item, AdapterHostPollItem::Failed(AdapterHostError::AdapterExited));
    assert_eq!(host.state(), AdapterHostState::Failed);
    assert_eq!(host.begin_submit(), Err(AdapterHostError::AdapterExited));
}

#[test]
fn error_response_fails_the_host() {
    let mut host = AdapterHostCore::started();
    let response = AdapterResponse::new(
        AdapterRequestId(1),
        AdapterResponseMessage::Error(ErrorResponse {
            error: AdapterError::NotLoaded("no project".to_string()),
        }),
    );
    let item = host.ingest_worker_event(WorkerEvent::Response(response));
    assert_eq!(
        item,
        AdapterHostPollItem::Failed(AdapterHostError::Adapter(AdapterError::NotLoaded(
            "no project".to_string()
        )))
    );
    assert_eq!(host.state(), AdapterHostState::Failed);
}

#[test]
fn wait_keeps_events_and_skips_other_answers() {
    let mut host = AdapterHostCore::started();
    let expected = AdapterRequestId(2);
    let event = AdapterEvent::Log(AdapterLog::info("ready"));
    assert_eq!(host.wait_step(expected, WorkerEvent::Event(event.clone())), WaitStep::Pending);
    assert_eq!(host.pending_events(), &[event]);
    assert_eq!(
        host.wait_step(expected, WorkerEvent::Response(diagnostics_response(1))),
        WaitStep::Pending
    );
    match host.wait_step(expected, WorkerEvent::Response(diagnostics_response(2))) {
        WaitStep::Answered(AdapterResponseMessage::GetDiagnostics(d)) => {
            assert_eq!(d.diagnostics.len(), 1)
        }
        other => panic!("expected the answer, got {other:?}"),
    }
    assert_eq!(host.state(), AdapterHostState::Starting);
}

#[test]
fn worker_end_during_wait_is_an_exited_adapter() {
    let mut host = AdapterHostCore::started();
    assert_eq!(
        host.wait_step(AdapterRequestId(1), WorkerEvent::Stopped),
        WaitStep::Failed(AdapterHostError::AdapterExited)
    );
    assert_eq!(host.state(), AdapterHostState::Stopped);
}

#[test]
fn handshake_answer_connects_host() {
    let mut host = AdapterHostCore::started();
    let response = AdapterResponseMessage::Handshake(HandshakeResponse {
        adapter_id: AdapterId::new("mock"),
        adapter_name: AdapterName::new("Mock Adapter"),
        adapter_version: AdapterVersion::new("0.1.0"),
        protocol_version: ProtocolVersion(0),
        capabilities: AdapterCapabilities::mock_milestone_12(),
    });
    let info = match host.finish_handshake(Ok(response)) {
        Ok(info) => info,
        Err(error) => panic!("handshake should connect: {}", error.message()),
    };
    assert_eq!(info.id.as_str(), "mock");
    assert_eq!(host.state(), AdapterHostState::Connected);
    assert_eq!(host.info().map(|i| i.name.as_str()), Some("Mock Adapter"));
}

#[test]
fn other_answer_to_handshake_fails_host() {
    let mut host = AdapterHostCore::started();
    let result = host.finish_handshake(Ok(AdapterResponseMessage::Shutdown(ShutdownResponse {
        accepted: true,
    })));
    assert_eq!(
        result.map(|i| i.id.as_str().to_string()),
        Err(AdapterHostError::UnexpectedResponse(
            "handshake did not return handshake response".to_string()
        ))
    );
    assert_eq!(host.state(), AdapterHostState::Failed);
}

#[test]
fn shutdown_without_worker_stops_at_once() {
    let mut host = AdapterHostCore::disconnected();
    assert!(!host.begin_shutdown());
    assert_eq!(host.state(), AdapterHostState::Stopped);
}

#[test]
fn shutdown_records_answer_and_stops_on_worker_end() {
    let mut host = AdapterHostCore::started();
    assert!(host.begin_shutdown());
    assert!(!host.worker_running());
    let answer = AdapterResponse::new(
        AdapterRequestId(1),
        AdapterResponseMessage::Shutdown(ShutdownResponse { accepted: false }),
    );
    assert_eq!(
        host.shutdown_step(true, Ok(WorkerEvent::Response(answer))),
        ShutdownStep::Continue(false)
    );
    assert_eq!(
        host.shutdown_step(false, Ok(WorkerEvent::Stopped)),
        ShutdownStep::Finished(Ok(ShutdownResponse { accepted: false }))
    );
    assert_eq!(host.state(), AdapterHostState::Stopped);
}

#[test]
fn shutdown_times_out_as_stopped_and_fails_on_worker_error() {
    let mut host = AdapterHostCore::started();
    assert!(host.begin_shutdown());
    assert_eq!(
        host.shutdown_step(true, Err(AdapterHostError::TimedOut)),
        ShutdownStep::Finished(Ok(ShutdownResponse { accepted: true }))
    );
    let mut other = AdapterHostCore::started();
    assert!(other.begin_shutdown());
    assert_eq!(
        other.shutdown_step(true, Err(AdapterHostError::WorkerUnavailable)),
        ShutdownStep::Finished(Err(AdapterHostError::WorkerUnavailable))
    );
    assert_eq!(other.state(), AdapterHostState::Failed);
}
