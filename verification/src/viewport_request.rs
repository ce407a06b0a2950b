//! Requesting a viewport preview from the adapter and showing its answer.
use crate::adapter_protocol::{
    AdapterRequestMessage, AdapterResponseMessage, AdapterViewportId, GetViewportFrameRequest,
    GetViewportFrameResponse, ViewportFrameResponseStatus,
};
use crate::adapter_session::{
    host_error_text, one_more_outcome, request_to, viewport_frame_answer, AdapterHostError,
    AdapterHostState, AdapterSession, AdapterTransport,
};
use crate::text::{concat3, decimal, u64_to_text};
use crate::diagnostic::Severity;
use crate::viewport::{
    frame_well_formed, viewport_error_text, ViewportError, ViewportFrame, ViewportFrameFormat,
    ViewportFrameSize, ViewportSource, ViewportState, ViewportStatus,
};
use vstd::prelude::*;

verus! {

/// The size in pixels of the frame to request.
#[derive(Debug, Clone, Copy, PartialEq, Eq, Structural)]
pub struct ViewportFrameRequestSize {
    width: u32,
    height: u32,
}

pub const DEFAULT_FRAME_SIZE: u32 = 256;

pub const MAX_FRAME_SIZE: u32 = 1024;

impl ViewportFrameRequestSize {
    /// The size used when the panel's size is not known: 256 by 256.
    pub fn default_editor() -> (r: Self)
        ensures
            r.width_spec() == 256,
            r.height_spec() == 256,
    {
        ViewportFrameRequestSize { width: DEFAULT_FRAME_SIZE, height: DEFAULT_FRAME_SIZE }
    }

    /// A size from whole pixel counts, each kept between 1 and 1024.
    pub fn clamped(width: u32, height: u32) -> (r: Self)
        ensures
            r.width_spec() == (if width < 1 {
                1
            } else if width > 1024 {
                1024
            } else {
                width
            }),
            r.height_spec() == (if height < 1 {
                1
            } else if height > 1024 {
                1024
            } else {
                height
            }),
    {
        let w = if width < 1 {
            1
        } else if width > MAX_FRAME_SIZE {
            MAX_FRAME_SIZE
        } else {
            width
        };
        let h = if height < 1 {
            1
        } else if height > MAX_FRAME_SIZE {
            MAX_FRAME_SIZE
        } else {
            height
        };
        ViewportFrameRequestSize { width: w, height: h }
    }

    pub closed spec fn width_spec(self) -> u32 {
        self.width
    }

    pub closed spec fn height_spec(self) -> u32 {
        self.height
    }

    pub fn width(self) -> (r: u32)
        ensures
            r == self.width_spec(),
    {
        self.width
    }

    pub fn height(self) -> (r: u32)
        ensures
            r == self.height_spec(),
    {
        self.height
    }
}

/// A viewport without a source refuses a frame request: it stays without
/// one, keeps its frame, and records the error.
pub open spec fn unset_refused(before: ViewportState, after: ViewportState) -> bool {
    &&& after.status == ViewportStatus::NoSource
    &&& after.frame == before.frame
    &&& after.last_diagnostic matches Some(d) && d.severity == Severity::Error && d.message@
        == "No adapter connected"@
}

/// Starts a frame request: refused when the viewport has no source, no
/// adapter is connected, or the adapter cannot render previews, each
/// recorded on the viewport; otherwise the request to send.
pub fn begin_viewport_frame_request(
    viewport: &mut ViewportState,
    adapter_connected: bool,
    supports_preview: bool,
    size: ViewportFrameRequestSize,
) -> (r: Result<GetViewportFrameRequest, String>)
    ensures
        final(viewport).id == old(viewport).id,
        final(viewport).source == old(viewport).source,
        old(viewport).source == ViewportSource::Unset ==> (r matches Err(m) && m@
            == "No adapter connected"@) && unset_refused(*old(viewport), *final(viewport)),
        old(viewport).source is Adapter && !adapter_connected ==> (r matches Err(m) && m@
            == "No adapter connected"@) && final(viewport).status == ViewportStatus::Error
            && (final(viewport).last_diagnostic matches Some(d) && d.message@ == viewport_error_text(
            ViewportError::NoAdapterConnected,
        )),
        old(viewport).source is Adapter && adapter_connected && !supports_preview ==> (r matches Err(
            m,
        ) && m@ == "Adapter does not support viewport preview"@) && final(viewport).status
            == ViewportStatus::Error && (final(viewport).last_diagnostic matches Some(d) && d.message@
            == viewport_error_text(ViewportError::AdapterUnsupported)),
        old(viewport).source is Adapter && adapter_connected && supports_preview ==> (r matches Ok(
            req,
        ) && req.viewport_id.0 == old(viewport).id@ && req.scene_id is None && req.width
            == size.width_spec() && req.height == size.height_spec() && req.format
            == ViewportFrameFormat::Rgba8Unorm) && final(viewport).status
            == ViewportStatus::WaitingForFrame && final(viewport).frame is None,
{
    match viewport.begin_frame_request() {
        Ok(()) => {},
        Err(e) => {
            return Err(e.message());
        },
    }
    if !adapter_connected {
        viewport.apply_error(ViewportError::NoAdapterConnected);
        return Err(String::from_str("No adapter connected"));
    }
    if !supports_preview {
        viewport.apply_error(ViewportError::AdapterUnsupported);
        return Err(String::from_str("Adapter does not support viewport preview"));
    }
    Ok(
        GetViewportFrameRequest {
            viewport_id: AdapterViewportId(viewport.id.get()),
            scene_id: None,
            width: size.width(),
            height: size.height(),
            format: ViewportFrameFormat::Rgba8Unorm,
        },
    )
}

/// Why a response holds no frame: its first diagnostic, or a general
/// message.
pub open spec fn unavailable_text(response: GetViewportFrameResponse) -> Seq<char> {
    if response.diagnostics@.len() > 0 {
        response.diagnostics@[0].message@
    } else {
        "adapter viewport frame unavailable"@
    }
}

/// What showing `response` does to a viewport and what it answers: a frame
/// that is not available is recorded as an adapter failure with its reason;
/// an available one must have positive dimensions and four bytes per pixel,
/// and is shown.
pub open spec fn response_applied(
    before: ViewportState,
    after: ViewportState,
    response: GetViewportFrameResponse,
    r: Result<String, String>,
) -> bool {
    let size = ViewportFrameSize::new_spec(response.width, response.height);
    let available = response.status == ViewportFrameResponseStatus::Available;
    let positive = response.width > 0 && response.height > 0;
    &&& after.id == before.id
    &&& after.source == before.source
    &&& !available ==> (r matches Err(m) && m@ == unavailable_text(response)) && after.status
        == ViewportStatus::Error && after.frame is None
    &&& available && !positive ==> (r matches Err(m) && m@ == viewport_error_text(
        ViewportError::InvalidDimensions { width: response.width, height: response.height },
    )) && after == before
    &&& available && positive && response.pixels@.len() != size.spec_rgba_byte_len() ==> (r matches Err(
        m,
    ) && m@ == viewport_error_text(
        ViewportError::InvalidPixelLength {
            expected: size.spec_rgba_byte_len(),
            actual: response.pixels@.len() as usize,
        },
    )) && after == before
    &&& available && positive && response.pixels@.len() == size.spec_rgba_byte_len() ==> (r matches Ok(
        m,
    ) && m@ == "viewport frame "@ + decimal(response.width as nat) + "x"@ + decimal(
        response.height as nat,
    ) + " received"@) && after.status == ViewportStatus::FrameAvailable && (after.frame matches Some(
        f,
    ) && f.size.width == response.width && f.size.height == response.height && f.pixels.rgba@
        == response.pixels@)
}

/// What the outcome of a frame exchange does to a viewport waiting for it:
/// an answer is shown as `response_applied` says; a failed exchange is
/// recorded as an adapter failure and its message returned.
pub open spec fn frame_finished(
    before: ViewportState,
    after: ViewportState,
    outcome: Result<GetViewportFrameResponse, AdapterHostError>,
    r: Result<String, String>,
) -> bool {
    match outcome {
        Ok(response) => response_applied(before, after, response, r),
        Err(e) => {
            &&& r matches Err(m) && m@ == host_error_text(e)
            &&& after.id == before.id
            &&& after.source == before.source
            &&& after.status == ViewportStatus::Error
            &&& after.frame is None
            &&& after.last_diagnostic matches Some(d) && d.severity == Severity::Error
                && d.message@ == "adapter viewport error: "@ + host_error_text(e)
        },
    }
}

/// A frame was requested for `before` and the outcome of the exchange,
/// whatever it was, finished the request, leaving `after` and answering `r`.
pub open spec fn exchange_finished(
    before: ViewportState,
    after: ViewportState,
    answer: Result<AdapterResponseMessage, AdapterHostError>,
    r: Result<String, String>,
) -> bool {
    exists|mid: ViewportState, o: Result<GetViewportFrameResponse, AdapterHostError>|
        mid.id == before.id && mid.source == before.source && mid.status
            == ViewportStatus::WaitingForFrame && mid.frame is None && viewport_frame_answer(answer, o)
            && #[trigger] frame_finished(mid, after, o, r)
}

/// The frame request a viewport sends for frames of `size`.
pub open spec fn frame_request_for(v: ViewportState, size: ViewportFrameRequestSize) -> GetViewportFrameRequest {
    GetViewportFrameRequest {
        viewport_id: AdapterViewportId(v.id@),
        scene_id: None,
        width: size.width_spec(),
        height: size.height_spec(),
        format: ViewportFrameFormat::Rgba8Unorm,
    }
}

/// Takes the outcome of a frame exchange: shows the answer, or records the
/// failed exchange on the viewport.
pub fn finish_viewport_frame(
    viewport: &mut ViewportState,
    outcome: Result<GetViewportFrameResponse, AdapterHostError>,
) -> (r: Result<String, String>)
    ensures
        frame_finished(*old(viewport), *final(viewport), outcome, r),
{
    match outcome {
        Ok(response) => apply_viewport_response(viewport, response),
        Err(error) => {
            let message = error.message();
            viewport.apply_error(ViewportError::AdapterFailed(message.clone()));
            Err(message)
        },
    }
}

/// Shows an adapter's answer: a frame that is not available is recorded as
/// an adapter failure with its reason; an available one must have positive
/// dimensions and four bytes per pixel, and is shown.
pub fn apply_viewport_response(viewport: &mut ViewportState, response: GetViewportFrameResponse) -> (r: Result<
    String,
    String,
>)
    ensures
        response_applied(*old(viewport), *final(viewport), response, r),
{
    if response.status != ViewportFrameResponseStatus::Available {
        let message = if response.diagnostics.len() > 0 {
            response.diagnostics[0].message.clone()
        } else {
            String::from_str("adapter viewport frame unavailable")
        };
        let copy = message.clone();
        viewport.apply_error(ViewportError::AdapterFailed(copy));
        return Err(message);
    }
    let width = response.width;
    let height = response.height;
    let frame = match ViewportFrame::new(width, height, response.format, response.pixels) {
        Ok(f) => f,
        Err(e) => {
            return Err(e.message());
        },
    };
    match viewport.apply_frame(frame) {
        Ok(()) => {},
        Err(e) => {
            return Err(e.message());
        },
    }
    let w = u64_to_text(width as u64);
    let h = u64_to_text(height as u64);
    let head = concat3("viewport frame ", w.as_str(), "x");
    Ok(concat3(head.as_str(), h.as_str(), " received"))
}

/// Requests a preview frame over an adapter session and shows the answer;
/// a failed exchange is recorded on the viewport as an adapter failure.
pub fn request_viewport_frame<T: AdapterTransport>(
    session: &mut AdapterSession<T>,
    viewport: &mut ViewportState,
    size: ViewportFrameRequestSize,
) -> (r: Result<String, String>)
    ensures
        final(viewport).id == old(viewport).id,
        final(viewport).source == old(viewport).source,
        old(viewport).source == ViewportSource::Unset ==> (r matches Err(m) && m@
            == "No adapter connected"@) && unset_refused(*old(viewport), *final(viewport))
            && final(session)@ == old(session)@,
        old(viewport).source is Adapter && old(session)@.state != AdapterHostState::Connected ==> (r matches Err(m) && m@
            == "No adapter connected"@) && final(viewport).status == ViewportStatus::Error
            && final(session)@ == old(session)@,
        old(viewport).source is Adapter && old(session)@.state == AdapterHostState::Connected
            && !(old(session)@.info matches Some(i) && i.capabilities.supports_viewport_preview) ==> (r matches Err(m)
            && m@ == "Adapter does not support viewport preview"@) && final(viewport).status
            == ViewportStatus::Error && final(session)@ == old(session)@,
        old(viewport).source is Adapter && old(session)@.state == AdapterHostState::Connected
            && (old(session)@.info matches Some(i) && i.capabilities.supports_viewport_preview) ==> final(session)@.sent
            == old(session)@.sent.push(
            request_to(
                old(session)@,
                AdapterRequestMessage::GetViewportFrame(frame_request_for(*old(viewport), size)),
            ),
        ) && one_more_outcome(old(session)@, final(session)@) && exchange_finished(
            *old(viewport),
            *final(viewport),
            final(session)@.outcomes.last(),
            r,
        ),
        r is Ok ==> final(viewport).status == ViewportStatus::FrameAvailable,
{
    let connected = session.state() == AdapterHostState::Connected;
    let supports_preview = match session.info() {
        Some(info) => info.capabilities.supports_viewport_preview,
        None => false,
    };
    let request = match begin_viewport_frame_request(viewport, connected, supports_preview, size) {
        Ok(request) => request,
        Err(message) => {
            return Err(message);
        },
    };
    let ghost mid = *viewport;
    assert(request == frame_request_for(*old(viewport), size));
    let outcome = session.get_viewport_frame(request);
    let ghost o = outcome;
    let r = finish_viewport_frame(viewport, outcome);
    assert(frame_finished(mid, *viewport, o, r));
    r
}

} // verus!
