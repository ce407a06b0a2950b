use elcarax::diagnostic::Severity;
use elcarax::id::{Id, IdGenerator};
use elcarax::viewport::{
    ViewportError, ViewportFrame, ViewportFrameFormat, ViewportState, ViewportStatus,
};

#[derive(Debug)]
struct TestMarker;

#[test]
fn generated_ids_are_monotonic() {
    let mut generator = IdGenerator::<TestMarker>::new();
    let first = generator.next_id();
    let second = generator.next_id();
    assert!(first.get() < second.get());
}

#[test]
fn observing_loaded_id_reserves_following_values() {
    let mut generator = IdGenerator::<TestMarker>::new();
    let loaded = match Id::<TestMarker>::new(100) {
        Some(id) => id,
        None => panic!("fixture id should be non-zero"),
    };
    generator.observe(loaded);
    assert_eq!(generator.next_id().get(), 101);
}

#[test]
fn zero_is_not_an_id() {
    assert!(Id::<TestMarker>::new(0).is_none());
    assert_eq!(Id::<TestMarker>::min_id().get(), 1);
}

#[test]
fn observing_a_lower_id_keeps_the_counter() {
    let mut generator = IdGenerator::<TestMarker>::new();
    let _ = generator.next_id();
    let _ = generator.next_id();
    let low = Id::<TestMarker>::min_id();
    generator.observe(low);
    assert_eq!(generator.next_id().get(), 3);
}

#[test]
fn no_source_state_is_valid() {
    let state = ViewportState::default_editor();
    assert_eq!(state.status, ViewportStatus::NoSource);
    assert!(state.frame.is_none());
}

#[test]
fn waiting_for_frame_transition() {
    let mut state = ViewportState::default_editor();
    state.set_adapter_source("adapter-a");
    assert_eq!(state.status, ViewportStatus::WaitingForFrame);
    assert!(state.begin_frame_request().is_ok());
    assert_eq!(state.status, ViewportStatus::WaitingForFrame);
}

#[test]
fn frame_available_requires_matching_pixels() {
    let mut state = ViewportState::default_editor();
    state.set_adapter_source("adapter-a");
    let frame = match ViewportFrame::new(2, 2, ViewportFrameFormat::Rgba8Unorm, vec![0; 16]) {
        Ok(frame) => frame,
        Err(error) => panic!("valid frame should construct: {}", error.message()),
    };
    assert!(state.apply_frame(frame).is_ok());
    assert_eq!(state.status, ViewportStatus::FrameAvailable);
}

#[test]
fn invalid_pixel_length_returns_error() {
    let result = ViewportFrame::new(2, 2, ViewportFrameFormat::Rgba8Unorm, vec![0; 8]);
    assert!(matches!(
        result,
        Err(ViewportError::InvalidPixelLength { .. })
    ));
}

#[test]
fn invalid_pixel_length_names_both_lengths() {
    let result = ViewportFrame::new(2, 2, ViewportFrameFormat::Rgba8Unorm, vec![0; 8]);
    match result {
        Err(error) => assert_eq!(
            error.message(),
            "invalid viewport pixel length: expected 16 bytes, received 8"
        ),
        Ok(_) => panic!("short pixels should be refused"),
    }
}

#[test]
fn zero_sized_frame_is_refused() {
    let result = ViewportFrame::new(0, 3, ViewportFrameFormat::Rgba8Unorm, Vec::new());
    assert_eq!(
        result.err(),
        Some(ViewportError::InvalidDimensions { width: 0, height: 3 })
    );
}

#[test]
fn clear_returns_expected_state() {
    let mut state = ViewportState::default_editor();
    state.set_adapter_source("adapter-a");
    let frame = match ViewportFrame::new(1, 1, ViewportFrameFormat::Rgba8Unorm, vec![0; 4]) {
        Ok(frame) => frame,
        Err(error) => panic!("valid frame should construct: {}", error.message()),
    };
    let _ = state.apply_frame(frame);
    state.clear_frame();
    assert_eq!(state.status, ViewportStatus::WaitingForFrame);
    assert!(state.frame.is_none());
}

#[test]
fn diagnostics_attach_cleanly() {
    let mut state = ViewportState::default_editor();
    let error = state.begin_frame_request();
    assert!(matches!(error, Err(ViewportError::NoAdapterConnected)));
    let diagnostic = match state.last_diagnostic.as_ref() {
        Some(diagnostic) => diagnostic,
        None => panic!("diagnostic should be set"),
    };
    assert_eq!(diagnostic.severity, Severity::Error);
}

#[test]
fn status_messages_name_each_status() {
    let mut state = ViewportState::default_editor();
    assert_eq!(state.status_message(), "No viewport source");
    state.set_adapter_source("adapter-a");
    assert_eq!(state.status_message(), "Waiting for preview frame");
    state.apply_error(ViewportError::AdapterFailed("boom".to_string()));
    assert_eq!(state.status_message(), "Viewport error");
    assert_eq!(
        state.last_diagnostic.as_ref().map(|d| d.message.clone()),
        Some("adapter viewport error: boom".to_string())
    );
}

#[test]
fn kth_generated_id_is_k() {
    let mut generator = IdGenerator::<TestMarker>::new();
    for k in 1..=100u64 {
        assert_eq!(generator.next_id().get(), k);
    }
}
