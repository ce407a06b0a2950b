use elcarax::accessibility::{AccessibleNode, AccessibleRole, AdapterMetadata};
use elcarax::adapter_frame::{
    attach_viewport_pixels, check_adapter_frame, parse_frame_header, request_frame,
    request_frame_json, split_response_pixels, AdapterFrame, FrameError, FrameKind,
};
use elcarax::adapter_frame::{header_fill_step, HeaderFill};
use elcarax::adapter_protocol::{
    AdapterCapabilities, AdapterDiagnostic, AdapterError, AdapterEvent, AdapterId, AdapterLine,
    AdapterLog, AdapterName, AdapterRequestId, AdapterResponse, AdapterResponseMessage,
    AdapterVersion, AdapterViewportId, ErrorResponse, GetDiagnosticsRequest,
    GetDiagnosticsResponse, GetViewportFrameResponse, HandshakeRequest, HandshakeResponse,
    ProtocolVersion, SetPropertyStatus, ShutdownRequest, ShutdownResponse,
    ViewportFrameResponseStatus,
};
use elcarax::adapter_session::{
    AdapterHostError, AdapterHostState, AdapterProcessSpec, AdapterSession, FakeAdapterTransport,
};
use elcarax::viewport::ViewportFrameFormat;

fn handshake_line(id: u64) -> Result<AdapterLine, FrameError> {
    Ok(AdapterLine::Response(AdapterResponse::new(
        AdapterRequestId(id),
        AdapterResponseMessage::Handshake(HandshakeResponse {
            adapter_id: AdapterId::new("mock"),
            adapter_name: AdapterName::new("Mock Adapter"),
            adapter_version: AdapterVersion::new("0.1.0"),
            protocol_version: ProtocolVersion(0),
            capabilities: AdapterCapabilities::mock_milestone_12(),
        }),
    )))
}

#[test]
fn unsupported_protocol_version_error_is_clear() {
    let error = AdapterError::unsupported_protocol_version(ProtocolVersion(99));
    assert!(error.message().contains("unsupported protocol version 99"));
}

#[test]
fn adapter_error_messages() {
    let error = AdapterError::unsupported_protocol_version(ProtocolVersion(99));
    assert_eq!(error.message(), "unsupported protocol version 99; supported version is 0");
    assert_eq!(AdapterError::NotLoaded("scene".to_string()).message(), "not loaded: scene");
    assert!(ProtocolVersion::v0().is_supported());
    assert!(!ProtocolVersion(1).is_supported());
}

#[test]
fn invalid_frame_json_produces_clear_error() {
    let decode_error = match serde_json::from_slice::<serde_json::Value>(b"{not-valid-json") {
        Ok(_) => panic!("invalid JSON should fail"),
        Err(error) => FrameError::InvalidJson(error.to_string()),
    };
    let mut session = AdapterSession::new(FakeAdapterTransport::new(vec![Err(decode_error)]));
    let error = match session.get_diagnostics(GetDiagnosticsRequest) {
        Ok(_) => panic!("invalid JSON should fail"),
        Err(error) => error,
    };
    assert!(matches!(error, AdapterHostError::InvalidFrame(_)));
}

#[test]
fn adapter_exit_produces_failed_state() {
    let mut session = AdapterSession::new(FakeAdapterTransport::exiting());
    let error = match session.get_diagnostics(GetDiagnosticsRequest) {
        Ok(_) => panic!("adapter exit should fail"),
        Err(error) => error,
    };
    assert_eq!(error, AdapterHostError::AdapterExited);
    assert_eq!(session.state(), AdapterHostState::Failed);
}

#[test]
fn fake_transport_handshake_succeeds() {
    let mut session = AdapterSession::new(FakeAdapterTransport::new(vec![handshake_line(1)]));
    let info = match session.handshake(HandshakeRequest::current("test", None)) {
        Ok(info) => info,
        Err(error) => panic!("handshake should succeed: {}", error.message()),
    };
    assert_eq!(info.name.as_str(), "Mock Adapter");
    assert_eq!(session.state(), AdapterHostState::Connected);
    assert_eq!(session.info().map(|i| i.id.as_str()), Some("mock"));
    assert_eq!(session.transport().writes().len(), 1);
    assert_eq!(session.transport().writes()[0].request_id, AdapterRequestId(1));
}

#[test]
fn events_before_the_answer_are_kept() {
    let responses = vec![
        Ok(AdapterLine::Event(AdapterEvent::Log(AdapterLog::info("starting")))),
        Ok(AdapterLine::Event(AdapterEvent::Diagnostic(AdapterDiagnostic::info("mock", "hello")))),
        Ok(AdapterLine::Response(AdapterResponse::new(
            AdapterRequestId(1),
            AdapterResponseMessage::GetDiagnostics(GetDiagnosticsResponse {
                diagnostics: vec![AdapterDiagnostic::info("mock", "final")],
            }),
        ))),
    ];
    let mut session = AdapterSession::new(FakeAdapterTransport::new(responses));
    let response = match session.get_diagnostics(GetDiagnosticsRequest) {
        Ok(r) => r,
        Err(e) => panic!("diagnostics should arrive: {}", e.message()),
    };
    assert_eq!(response.diagnostics.len(), 1);
    assert_eq!(session.logs().len(), 1);
    assert_eq!(session.diagnostics().len(), 1);
    assert_eq!(session.diagnostics()[0].message, "final");
}

#[test]
fn answer_to_another_request_is_refused() {
    let mut session = AdapterSession::new(FakeAdapterTransport::new(vec![handshake_line(7)]));
    let error = session.handshake(HandshakeRequest::current("test", None)).err();
    assert_eq!(
        error,
        Some(AdapterHostError::MismatchedRequestId {
            expected: AdapterRequestId(1),
            actual: AdapterRequestId(7),
        })
    );
    assert_eq!(
        error.map(|e| e.message()),
        Some("adapter response request ID mismatch: expected 1, received 7".to_string())
    );
}

#[test]
fn error_answer_fails_the_session() {
    let line = Ok(AdapterLine::Response(AdapterResponse::new(
        AdapterRequestId(1),
        AdapterResponseMessage::Error(ErrorResponse {
            error: AdapterError::Internal("boom".to_string()),
        }),
    )));
    let mut session = AdapterSession::new(FakeAdapterTransport::new(vec![line]));
    let error = session.get_diagnostics(GetDiagnosticsRequest).err();
    assert_eq!(error, Some(AdapterHostError::Adapter(AdapterError::Internal("boom".to_string()))));
    assert_eq!(session.state(), AdapterHostState::Failed);
}

#[test]
fn wrong_answer_kind_is_unexpected() {
    let mut session = AdapterSession::new(FakeAdapterTransport::new(vec![handshake_line(1)]));
    let error = session.get_diagnostics(GetDiagnosticsRequest).err();
    assert_eq!(error, Some(AdapterHostError::UnexpectedResponse("Handshake".to_string())));
}

#[test]
fn stopping_adapter_transitions_state() {
    let line = Ok(AdapterLine::Response(AdapterResponse::new(
        AdapterRequestId(1),
        AdapterResponseMessage::Shutdown(ShutdownResponse { accepted: true }),
    )));
    let mut session = AdapterSession::new(FakeAdapterTransport::new(vec![line]));
    let response = session.shutdown_request(ShutdownRequest);
    assert_eq!(response, Ok(ShutdownResponse { accepted: true }));
    assert_eq!(session.state(), AdapterHostState::Stopped);
    assert!(session.shutdown_transport().is_ok());
}

#[test]
fn request_frame_round_trips_through_bytes() {
    let frame = request_frame(AdapterRequestId::new(7), b"{\"request\":7}".to_vec());
    let encoded = frame.encode();
    assert_eq!(&encoded[0..4], b"ELCX");
    assert_eq!(encoded[4], 1);
    assert_eq!(encoded.len(), 21 + 13);
    let (decoded, len) = match AdapterFrame::decode(&encoded) {
        Ok(value) => value,
        Err(error) => panic!("decode bytes should succeed: {}", error.message()),
    };
    assert_eq!(len, encoded.len());
    assert_eq!(decoded, frame);
    assert_eq!(request_frame_json(&decoded), Ok(&b"{\"request\":7}"[..]));
}

#[test]
fn frame_decoding_refuses_bad_input() {
    let frame = AdapterFrame {
        kind: FrameKind::Event,
        id: 0x0102030405060708,
        json: b"{}".to_vec(),
        binary: vec![9, 9, 9],
    };
    let mut bytes = frame.encode();
    assert_eq!(&bytes[5..13], &[8, 7, 6, 5, 4, 3, 2, 1]);
    bytes.extend_from_slice(b"rest");
    assert_eq!(AdapterFrame::decode(&bytes).map(|(f, n)| (f, n)), Ok((frame.clone(), 21 + 5)));
    assert_eq!(AdapterFrame::decode(&bytes[..10]), Err(FrameError::UnexpectedEof));
    assert_eq!(AdapterFrame::decode(&bytes[..24]), Err(FrameError::UnexpectedEof));
    let mut bad_magic = bytes.clone();
    bad_magic[0] = b'X';
    let err = AdapterFrame::decode(&bad_magic).err();
    assert_eq!(err, Some(FrameError::InvalidMagic([b'X', b'L', b'C', b'X'])));
    assert_eq!(
        err.map(|e| e.message()),
        Some("invalid adapter frame magic: [58, 4c, 43, 58]".to_string())
    );
    let mut bad_kind = bytes.clone();
    bad_kind[4] = 9;
    assert_eq!(AdapterFrame::decode(&bad_kind).err(), Some(FrameError::UnknownKind(9)));
    assert_eq!(FrameError::UnknownKind(9).message(), "unknown adapter frame kind: 9");
    assert_eq!(parse_frame_header(&bytes).map(|h| h.binary_len), Ok(3));
}

#[test]
fn request_frames_are_not_adapter_lines() {
    let frame = request_frame(AdapterRequestId(1), Vec::new());
    let err = check_adapter_frame(&frame).err();
    assert_eq!(
        err.clone().map(|e| e.message()),
        Some("unexpected adapter frame kind: expected Response, got Request".to_string())
    );
    assert_eq!(
        AdapterHostError::from_frame_error(FrameError::UnexpectedEof),
        AdapterHostError::AdapterExited
    );
    assert_eq!(
        AdapterHostError::from_frame_error(FrameError::Io("pipe".to_string())),
        AdapterHostError::TransportRead("pipe".to_string())
    );
}

#[test]
fn viewport_response_keeps_pixels_in_binary_segment() {
    let pixels = vec![1, 2, 3, 4, 5, 6, 7, 8];
    let response = AdapterResponse::new(
        AdapterRequestId::new(3),
        AdapterResponseMessage::GetViewportFrame(GetViewportFrameResponse {
            viewport_id: AdapterViewportId(1),
            width: 2,
            height: 1,
            format: ViewportFrameFormat::Rgba8Unorm,
            byte_len: 0,
            pixels: pixels.clone(),
            diagnostics: Vec::new(),
            status: ViewportFrameResponseStatus::Available,
        }),
    );
    let (stripped, binary) = split_response_pixels(&response);
    assert_eq!(binary, pixels);
    let AdapterResponseMessage::GetViewportFrame(mut decoded) = stripped.message else {
        panic!("expected viewport response");
    };
    assert!(decoded.pixels.is_empty());
    assert_eq!(decoded.byte_len, 8);
    assert!(attach_viewport_pixels(&mut decoded, &binary).is_ok());
    assert_eq!(decoded.pixels, pixels);
    assert_eq!(
        attach_viewport_pixels(&mut decoded, &[1]),
        Err(FrameError::BinaryLengthMismatch { expected: 8, actual: 1 })
    );
}

#[test]
fn failed_viewport_response_carries_one_diagnostic() {
    let failed = GetViewportFrameResponse::failed(
        AdapterViewportId(1),
        ViewportFrameResponseStatus::InvalidSize,
        "width and height must be positive",
    );
    assert_eq!(failed.status, ViewportFrameResponseStatus::InvalidSize);
    assert_eq!(failed.diagnostics.len(), 1);
    assert_eq!(failed.diagnostics[0].source, "adapter");
    let available = GetViewportFrameResponse::available(
        AdapterViewportId(2),
        1,
        1,
        ViewportFrameFormat::Rgba8Unorm,
        vec![0; 4],
        Vec::new(),
    );
    assert_eq!(available.byte_len, 4);
}

#[test]
fn capabilities_and_specs() {
    let mock = AdapterCapabilities::mock_milestone_12();
    assert_eq!(AdapterCapabilities::game_editor_v0(), mock);
    assert!(!AdapterCapabilities::empty().provides_diagnostics);
    let spec = AdapterProcessSpec::cargo_mock_adapter().with_arg("--verbose");
    assert_eq!(spec.executable, "cargo");
    assert_eq!(spec.args, vec!["run", "--quiet", "-p", "elcarax_game_adapter", "--verbose"]);
    assert_eq!(AdapterProcessSpec::new("adapter").args.len(), 0);
    assert!(SetPropertyStatus::Accepted.is_accepted());
    assert!(!SetPropertyStatus::StaleValue.is_accepted());
}

#[test]
fn diagnostics_convert_to_core_diagnostics() {
    let d = AdapterDiagnostic::info("mock-adapter", "diagnostic from adapter");
    let core = d.as_core_diagnostic();
    assert_eq!(core.source.subsystem, "mock-adapter");
    assert_eq!(core.message, "diagnostic from adapter");
    let node = AccessibleNode::new(4, AccessibleRole::Button, "Save");
    assert!(node.children.is_empty());
    assert_eq!(AdapterMetadata::new("mock", "0.1").version, "0.1");
}

#[test]
fn header_fill_tells_end_of_stream_from_a_cut_header() {
    assert_eq!(header_fill_step(0, 21, 0), Ok(HeaderFill::EndOfStream));
    assert_eq!(header_fill_step(5, 21, 0), Err(FrameError::UnexpectedEof));
    assert_eq!(header_fill_step(5, 21, 10), Ok(HeaderFill::Partial(15)));
    assert_eq!(header_fill_step(15, 21, 6), Ok(HeaderFill::Complete));
    assert_eq!(header_fill_step(0, 21, 21), Ok(HeaderFill::Complete));
}

#[test]
fn diagnostics_answer_takes_only_a_diagnostics_response() {
    let ok = AdapterSession::<FakeAdapterTransport>::finish_diagnostics_answer(Ok(
        AdapterResponseMessage::GetDiagnostics(GetDiagnosticsResponse {
            diagnostics: vec![AdapterDiagnostic::info("fixture", "ready")],
        }),
    ));
    assert_eq!(ok.map(|d| d.diagnostics.len()), Ok(1));
    let other = AdapterSession::<FakeAdapterTransport>::finish_diagnostics_answer(Ok(
        AdapterResponseMessage::Shutdown(ShutdownResponse { accepted: true }),
    ));
    assert_eq!(
        other.map(|d| d.diagnostics.len()),
        Err(AdapterHostError::UnexpectedResponse("Shutdown".to_string()))
    );
}
