//! The versioned messages exchanged between the editor and a domain
//! adapter: handshake, project loading, diagnostics, viewport frames and
//! shutdown, with the events and errors an adapter reports.
use crate::diagnostic::{Diagnostic, DiagnosticSource, Severity};
use crate::error::ElcaraxError;
use crate::text::{concat2, decimal, u64_to_text};
use crate::viewport::ViewportFrameFormat;
use vstd::prelude::*;

verus! {

/// What an adapter can do for the editor.
#[derive(Debug, Clone, Copy, PartialEq, Eq, Structural)]
pub struct AdapterCapabilities {
    pub provides_project_info: bool,
    pub provides_scene_snapshot: bool,
    pub provides_diagnostics: bool,
    pub supports_property_writeback: bool,
    pub supports_viewport_preview: bool,
}

impl AdapterCapabilities {
    pub fn empty() -> (r: Self)
        ensures
            !r.provides_project_info,
            !r.provides_scene_snapshot,
            !r.provides_diagnostics,
            !r.supports_property_writeback,
            !r.supports_viewport_preview,
    {
        AdapterCapabilities {
            provides_project_info: false,
            provides_scene_snapshot: false,
            provides_diagnostics: false,
            supports_property_writeback: false,
            supports_viewport_preview: false,
        }
    }

    /// The capabilities of the mock adapter: project info, scene snapshots
    /// and diagnostics, without write-back or viewport preview.
    pub fn mock_milestone_12() -> (r: Self)
        ensures
            r.provides_project_info,
            r.provides_scene_snapshot,
            r.provides_diagnostics,
            !r.supports_property_writeback,
            !r.supports_viewport_preview,
    {
        AdapterCapabilities {
            provides_project_info: true,
            provides_scene_snapshot: true,
            provides_diagnostics: true,
            supports_property_writeback: false,
            supports_viewport_preview: false,
        }
    }

    /// The capabilities of the game editor adapter, version 0: those of the
    /// mock adapter.
    pub fn game_editor_v0() -> (r: Self)
        ensures
            r == Self::mock_spec(),
    {
        Self::mock_milestone_12()
    }

    pub open spec fn mock_spec() -> Self {
        AdapterCapabilities {
            provides_project_info: true,
            provides_scene_snapshot: true,
            provides_diagnostics: true,
            supports_property_writeback: false,
            supports_viewport_preview: false,
        }
    }
}

/// The protocol version this editor speaks.
pub const SUPPORTED_PROTOCOL_VERSION: u32 = 0;

#[derive(Debug, Clone, Copy, PartialEq, Eq, PartialOrd, Ord, Hash, Structural)]
pub struct ProtocolVersion(pub u32);

impl ProtocolVersion {
    /// Version 0, the one this editor supports.
    pub fn v0() -> (r: Self)
        ensures
            r.0 == 0,
    {
        ProtocolVersion(SUPPORTED_PROTOCOL_VERSION)
    }

    pub fn is_supported(self) -> (r: bool)
        ensures
            r == (self.0 == 0),
    {
        self.0 == SUPPORTED_PROTOCOL_VERSION
    }
}

#[derive(Debug, Clone, PartialEq, Eq, PartialOrd, Ord, Hash)]
pub struct AdapterId(String);

impl View for AdapterId {
    type V = Seq<char>;

    closed spec fn view(&self) -> Seq<char> {
        self.0@
    }
}

impl AdapterId {
    pub fn new(value: &str) -> (r: Self)
        ensures
            r@ == value@,
    {
        AdapterId(value.to_owned())
    }

    pub fn as_str(&self) -> (r: &str)
        ensures
            r@ == self@,
    {
        self.0.as_str()
    }
}

#[derive(Debug, Clone, PartialEq, Eq, PartialOrd, Ord, Hash)]
pub struct AdapterName(String);

impl View for AdapterName {
    type V = Seq<char>;

    closed spec fn view(&self) -> Seq<char> {
        self.0@
    }
}

impl AdapterName {
    pub fn new(value: &str) -> (r: Self)
        ensures
            r@ == value@,
    {
        AdapterName(value.to_owned())
    }

    pub fn as_str(&self) -> (r: &str)
        ensures
            r@ == self@,
    {
        self.0.as_str()
    }
}

#[derive(Debug, Clone, PartialEq, Eq, PartialOrd, Ord, Hash)]
pub struct AdapterVersion(String);

impl View for AdapterVersion {
    type V = Seq<char>;

    closed spec fn view(&self) -> Seq<char> {
        self.0@
    }
}

impl AdapterVersion {
    pub fn new(value: &str) -> (r: Self)
        ensures
            r@ == value@,
    {
        AdapterVersion(value.to_owned())
    }

    pub fn as_str(&self) -> (r: &str)
        ensures
            r@ == self@,
    {
        self.0.as_str()
    }
}

#[derive(Debug, Clone, PartialEq, Eq)]
pub struct HandshakeRequest {
    pub protocol_version: ProtocolVersion,
    pub editor_version: String,
    pub project_path: Option<String>,
}

impl HandshakeRequest {
    /// A handshake at the supported protocol version.
    pub fn current(editor_version: &str, project_path: Option<String>) -> (r: Self)
        ensures
            r.protocol_version.0 == 0,
            r.editor_version@ == editor_version@,
            r.project_path == project_path,
    {
        HandshakeRequest {
            protocol_version: ProtocolVersion::v0(),
            editor_version: editor_version.to_owned(),
            project_path,
        }
    }
}

#[derive(Debug, Clone, PartialEq, Eq)]
pub struct HandshakeResponse {
    pub adapter_id: AdapterId,
    pub adapter_name: AdapterName,
    pub adapter_version: AdapterVersion,
    pub protocol_version: ProtocolVersion,
    pub capabilities: AdapterCapabilities,
}

#[derive(Debug, Clone, PartialEq, Eq)]
pub struct LoadProjectRequest {
    pub project_path: Option<String>,
}

#[derive(Debug, Clone, PartialEq, Eq)]
pub struct LoadProjectResponse {
    pub display_name: String,
    pub root_path: Option<String>,
}

#[derive(Debug, Clone, Copy, PartialEq, Eq, PartialOrd, Ord, Hash, Structural)]
pub struct AdapterRequestId(pub u64);

impl AdapterRequestId {
    pub fn new(value: u64) -> (r: Self)
        ensures
            r.0 == value,
    {
        AdapterRequestId(value)
    }
}

#[derive(Debug, Clone, PartialEq, Eq)]
pub struct AdapterRequest {
    pub request_id: AdapterRequestId,
    pub message: AdapterRequestMessage,
}

impl AdapterRequest {
    pub fn new(request_id: AdapterRequestId, message: AdapterRequestMessage) -> (r: Self)
        ensures
            r.request_id == request_id,
            r.message == message,
    {
        AdapterRequest { request_id, message }
    }
}

/// What the editor asks of an adapter.
#[derive(Debug, Clone, PartialEq, Eq)]
pub enum AdapterRequestMessage {
    Handshake(HandshakeRequest),
    LoadProject(LoadProjectRequest),
    GetSceneSnapshot(GetSceneSnapshotRequest),
    GetDiagnostics(GetDiagnosticsRequest),
    GetViewportFrame(GetViewportFrameRequest),
    Shutdown(ShutdownRequest),
}

#[derive(Debug, Clone, Copy, PartialEq, Eq, Structural)]
pub struct GetSceneSnapshotRequest {
    pub scene_id: Option<u64>,
}

#[derive(Debug, Clone, Copy, PartialEq, Eq, Structural)]
pub enum AdapterEditSource {
    Inspector,
}

#[derive(Debug, Clone, Copy, PartialEq, Eq, Structural)]
pub struct GetDiagnosticsRequest;

#[derive(Debug, Clone, Copy, PartialEq, Eq, Structural)]
pub struct ShutdownRequest;

#[derive(Debug, Clone, PartialEq, Eq)]
pub struct AdapterResponse {
    pub request_id: AdapterRequestId,
    pub message: AdapterResponseMessage,
}

impl AdapterResponse {
    pub fn new(request_id: AdapterRequestId, message: AdapterResponseMessage) -> (r: Self)
        ensures
            r.request_id == request_id,
            r.message == message,
    {
        AdapterResponse { request_id, message }
    }
}

/// What an adapter answers.
#[derive(Debug, Clone, PartialEq, Eq)]
pub enum AdapterResponseMessage {
    Handshake(HandshakeResponse),
    LoadProject(LoadProjectResponse),
    GetDiagnostics(GetDiagnosticsResponse),
    GetViewportFrame(GetViewportFrameResponse),
    Shutdown(ShutdownResponse),
    Error(ErrorResponse),
}

#[derive(Debug, Clone, Copy, PartialEq, Eq, Structural)]
pub enum SetPropertyStatus {
    Accepted,
    Rejected,
    ObjectNotFound,
    PropertyNotFound,
    ReadOnlyProperty,
    TypeMismatch,
    StaleValue,
    AdapterError,
}

impl SetPropertyStatus {
    pub fn is_accepted(self) -> (r: bool)
        ensures
            r == (self == SetPropertyStatus::Accepted),
    {
        match self {
            SetPropertyStatus::Accepted => true,
            _ => false,
        }
    }
}

#[derive(Debug, Clone, PartialEq, Eq)]
pub struct GetDiagnosticsResponse {
    pub diagnostics: Vec<AdapterDiagnostic>,
}

#[derive(Debug, Clone, Copy, PartialEq, Eq, Structural)]
pub struct ShutdownResponse {
    pub accepted: bool,
}

#[derive(Debug, Clone, PartialEq, Eq)]
pub struct ErrorResponse {
    pub error: AdapterError,
}

/// Something an adapter reports outside of a response.
#[derive(Debug, Clone, PartialEq, Eq)]
pub enum AdapterEvent {
    Diagnostic(AdapterDiagnostic),
    Log(AdapterLog),
}

#[derive(Debug, Clone, PartialEq, Eq)]
pub struct AdapterDiagnostic {
    pub severity: Severity,
    pub source: String,
    pub message: String,
}

impl AdapterDiagnostic {
    pub fn info(source: &str, message: &str) -> (r: Self)
        ensures
            r.severity == Severity::Info,
            r.source@ == source@,
            r.message@ == message@,
    {
        AdapterDiagnostic {
            severity: Severity::Info,
            source: source.to_owned(),
            message: message.to_owned(),
        }
    }

    /// The diagnostic as the editor's own, its source as the subsystem.
    pub fn as_core_diagnostic(&self) -> (r: Diagnostic)
        ensures
            r.severity == self.severity,
            r.source.subsystem@ == self.source@,
            r.source.location is None,
            r.message@ == self.message@,
    {
        Diagnostic {
            severity: self.severity,
            source: DiagnosticSource::new(self.source.as_str()),
            message: self.message.clone(),
        }
    }
}

#[derive(Debug, Clone, PartialEq, Eq)]
pub struct AdapterLog {
    pub level: String,
    pub message: String,
}

impl AdapterLog {
    pub fn info(message: &str) -> (r: Self)
        ensures
            r.level@ == "info"@,
            r.message@ == message@,
    {
        AdapterLog { level: String::from_str("info"), message: message.to_owned() }
    }
}

#[derive(Debug, Clone, PartialEq, Eq)]
pub enum AdapterError {
    UnsupportedProtocolVersion { requested: ProtocolVersion, supported: ProtocolVersion },
    InvalidRequest(String),
    NotLoaded(String),
    Internal(String),
}

pub open spec fn adapter_error_text(e: AdapterError) -> Seq<char> {
    match e {
        AdapterError::UnsupportedProtocolVersion { requested, supported } => "unsupported protocol version "@
            + decimal(requested.0 as nat) + "; supported version is "@ + decimal(
            supported.0 as nat,
        ),
        AdapterError::InvalidRequest(m) => "invalid request: "@ + m@,
        AdapterError::NotLoaded(m) => "not loaded: "@ + m@,
        AdapterError::Internal(m) => "adapter internal error: "@ + m@,
    }
}

impl AdapterError {
    /// The error for a requested version other than the supported one.
    pub fn unsupported_protocol_version(requested: ProtocolVersion) -> (r: Self)
        ensures
            r == (AdapterError::UnsupportedProtocolVersion {
                requested,
                supported: ProtocolVersion(0),
            }),
    {
        AdapterError::UnsupportedProtocolVersion { requested, supported: ProtocolVersion::v0() }
    }

    pub fn message(&self) -> (r: String)
        ensures
            r@ == adapter_error_text(*self),
    {
        match self {
            AdapterError::UnsupportedProtocolVersion { requested, supported } => {
                let a = u64_to_text(requested.0 as u64);
                let b = u64_to_text(supported.0 as u64);
                let head = concat2("unsupported protocol version ", a.as_str());
                let head = concat2(head.as_str(), "; supported version is ");
                concat2(head.as_str(), b.as_str())
            },
            AdapterError::InvalidRequest(m) => concat2("invalid request: ", m.as_str()),
            AdapterError::NotLoaded(m) => concat2("not loaded: ", m.as_str()),
            AdapterError::Internal(m) => concat2("adapter internal error: ", m.as_str()),
        }
    }
}

/// One message from an adapter: a response or an event.
#[derive(Debug, Clone, PartialEq, Eq)]
pub enum AdapterLine {
    Response(AdapterResponse),
    Event(AdapterEvent),
}

#[derive(Debug, Clone, Copy, PartialEq, Eq, Structural)]
pub struct AdapterViewportId(pub u64);

/// A request for a rendered frame of a viewport.
#[derive(Debug, Clone, Copy, PartialEq, Eq)]
pub struct GetViewportFrameRequest {
    pub viewport_id: AdapterViewportId,
    pub scene_id: Option<u64>,
    pub width: u32,
    pub height: u32,
    pub format: ViewportFrameFormat,
}

#[derive(Debug, Clone, Copy, PartialEq, Eq, Structural)]
pub enum ViewportFrameResponseStatus {
    Available,
    NoSceneLoaded,
    InvalidSize,
    UnsupportedFormat,
    AdapterError,
}

/// A rendered frame, or why there is none. The pixel bytes travel in the
/// binary part of a frame; `byte_len` declares how many there are.
#[derive(Debug, Clone, PartialEq, Eq)]
pub struct GetViewportFrameResponse {
    pub viewport_id: AdapterViewportId,
    pub width: u32,
    pub height: u32,
    pub format: ViewportFrameFormat,
    pub byte_len: u32,
    pub pixels: Vec<u8>,
    pub diagnostics: Vec<AdapterDiagnostic>,
    pub status: ViewportFrameResponseStatus,
}

/// `n` clamped to the range of `u32`.
pub open spec fn saturate_u32(n: int) -> u32 {
    if n > u32::MAX {
        u32::MAX
    } else {
        n as u32
    }
}

pub fn saturating_u32(n: usize) -> (r: u32)
    ensures
        r == saturate_u32(n as int),
{
    if n > 0xffff_ffff {
        0xffff_ffff
    } else {
        n as u32
    }
}

impl GetViewportFrameResponse {
    /// A frame with its pixels, their count declared (saturated to `u32`).
    pub fn available(
        viewport_id: AdapterViewportId,
        width: u32,
        height: u32,
        format: ViewportFrameFormat,
        pixels: Vec<u8>,
        diagnostics: Vec<AdapterDiagnostic>,
    ) -> (r: Self)
        ensures
            r.viewport_id == viewport_id,
            r.width == width,
            r.height == height,
            r.format == format,
            r.byte_len == saturate_u32(pixels@.len() as int),
            r.pixels@ == pixels@,
            r.diagnostics@ == diagnostics@,
            r.status == ViewportFrameResponseStatus::Available,
    {
        let byte_len = saturating_u32(pixels.len());
        GetViewportFrameResponse {
            viewport_id,
            width,
            height,
            format,
            byte_len,
            pixels,
            diagnostics,
            status: ViewportFrameResponseStatus::Available,
        }
    }

    /// No frame: an empty response with one error diagnostic from the
    /// adapter.
    pub fn failed(viewport_id: AdapterViewportId, status: ViewportFrameResponseStatus, message: &str) -> (r: Self)
        ensures
            r.viewport_id == viewport_id,
            r.width == 0,
            r.height == 0,
            r.format == ViewportFrameFormat::Rgba8Unorm,
            r.byte_len == 0,
            r.pixels@.len() == 0,
            r.diagnostics@.len() == 1,
            r.diagnostics@[0].severity == Severity::Error,
            r.diagnostics@[0].source@ == "adapter"@,
            r.diagnostics@[0].message@ == message@,
            r.status == status,
    {
        let mut diagnostics: Vec<AdapterDiagnostic> = Vec::new();
        diagnostics.push(
            AdapterDiagnostic {
                severity: Severity::Error,
                source: String::from_str("adapter"),
                message: message.to_owned(),
            },
        );
        GetViewportFrameResponse {
            viewport_id,
            width: 0,
            height: 0,
            format: ViewportFrameFormat::Rgba8Unorm,
            byte_len: 0,
            pixels: Vec::new(),
            diagnostics,
            status,
        }
    }
}

#[derive(Debug, Clone, Copy, PartialEq, Eq, Structural)]
pub enum ViewportPickResponseStatus {
    Picked,
    Missed,
    NoSceneLoaded,
    InvalidCoordinate,
    AdapterError,
}

/// What an adapter implements to answer the editor: each request message
/// gets a response message, or fails with an error.
pub trait ElcaraxAdapter {
    fn handle_message(&mut self, message: AdapterRequestMessage) -> Result<
        AdapterResponseMessage,
        ElcaraxError,
    >;
}

/// Two answers that say the same: of the same kind, with equal fields (lists
/// and pixels compared by their contents).
pub open spec fn same_response(a: AdapterResponseMessage, b: AdapterResponseMessage) -> bool {
    match (a, b) {
        (AdapterResponseMessage::Handshake(x), AdapterResponseMessage::Handshake(y)) => x == y,
        (AdapterResponseMessage::LoadProject(x), AdapterResponseMessage::LoadProject(y)) => x == y,
        (AdapterResponseMessage::GetDiagnostics(x), AdapterResponseMessage::GetDiagnostics(y)) => x.diagnostics@
            == y.diagnostics@,
        (AdapterResponseMessage::GetViewportFrame(x), AdapterResponseMessage::GetViewportFrame(y)) => {
            &&& x.viewport_id == y.viewport_id
            &&& x.width == y.width
            &&& x.height == y.height
            &&& x.format == y.format
            &&& x.byte_len == y.byte_len
            &&& x.pixels@ == y.pixels@
            &&& x.diagnostics@ == y.diagnostics@
            &&& x.status == y.status
        },
        (AdapterResponseMessage::Shutdown(x), AdapterResponseMessage::Shutdown(y)) => x == y,
        (AdapterResponseMessage::Error(x), AdapterResponseMessage::Error(y)) => x == y,
        _ => false,
    }
}

fn copy_text(s: &String) -> (r: String)
    ensures
        r == *s,
{
    s.clone()
}

fn copy_optional_text(o: &Option<String>) -> (r: Option<String>)
    ensures
        r == *o,
{
    match o {
        Some(s) => Some(s.clone()),
        None => None,
    }
}

/// A copy of a list of diagnostics, item for item.
pub fn copy_diagnostics(d: &Vec<AdapterDiagnostic>) -> (r: Vec<AdapterDiagnostic>)
    ensures
        r@ == d@,
{
    let mut out: Vec<AdapterDiagnostic> = Vec::new();
    let mut i: usize = 0;
    while i < d.len()
        invariant
            i <= d@.len(),
            out@ == d@.take(i as int),
        decreases d@.len() - i,
    {
        let item = &d[i];
        out.push(AdapterDiagnostic { severity: item.severity, source: copy_text(&item.source), message: copy_text(&item.message) });
        assert(out@ =~= d@.take(i + 1));
        i = i + 1;
    }
    assert(d@.take(d@.len() as int) =~= d@);
    out
}

fn copy_bytes(b: &Vec<u8>) -> (r: Vec<u8>)
    ensures
        r@ == b@,
{
    let mut out: Vec<u8> = Vec::new();
    let mut i: usize = 0;
    while i < b.len()
        invariant
            i <= b@.len(),
            out@ == b@.take(i as int),
        decreases b@.len() - i,
    {
        out.push(b[i]);
        assert(out@ =~= b@.take(i + 1));
        i = i + 1;
    }
    assert(b@.take(b@.len() as int) =~= b@);
    out
}

fn copy_error(e: &AdapterError) -> (r: AdapterError)
    ensures
        r == *e,
{
    match e {
        AdapterError::UnsupportedProtocolVersion { requested, supported } => AdapterError::UnsupportedProtocolVersion {
            requested: *requested,
            supported: *supported,
        },
        AdapterError::InvalidRequest(m) => AdapterError::InvalidRequest(copy_text(m)),
        AdapterError::NotLoaded(m) => AdapterError::NotLoaded(copy_text(m)),
        AdapterError::Internal(m) => AdapterError::Internal(copy_text(m)),
    }
}

/// A copy of an answer that says the same.
pub fn copy_response_message(m: &AdapterResponseMessage) -> (r: AdapterResponseMessage)
    ensures
        same_response(r, *m),
{
    match m {
        AdapterResponseMessage::Handshake(h) => AdapterResponseMessage::Handshake(
            HandshakeResponse {
                adapter_id: AdapterId(copy_text(&h.adapter_id.0)),
                adapter_name: AdapterName(copy_text(&h.adapter_name.0)),
                adapter_version: AdapterVersion(copy_text(&h.adapter_version.0)),
                protocol_version: h.protocol_version,
                capabilities: h.capabilities,
            },
        ),
        AdapterResponseMessage::LoadProject(p) => AdapterResponseMessage::LoadProject(
            LoadProjectResponse {
                display_name: copy_text(&p.display_name),
                root_path: copy_optional_text(&p.root_path),
            },
        ),
        AdapterResponseMessage::GetDiagnostics(d) => AdapterResponseMessage::GetDiagnostics(
            GetDiagnosticsResponse { diagnostics: copy_diagnostics(&d.diagnostics) },
        ),
        AdapterResponseMessage::GetViewportFrame(v) => AdapterResponseMessage::GetViewportFrame(
            GetViewportFrameResponse {
                viewport_id: v.viewport_id,
                width: v.width,
                height: v.height,
                format: v.format,
                byte_len: v.byte_len,
                pixels: copy_bytes(&v.pixels),
                diagnostics: copy_diagnostics(&v.diagnostics),
                status: v.status,
            },
        ),
        AdapterResponseMessage::Shutdown(x) => AdapterResponseMessage::Shutdown(*x),
        AdapterResponseMessage::Error(x) => AdapterResponseMessage::Error(ErrorResponse { error: copy_error(&x.error) }),
    }
}

} // verus!
