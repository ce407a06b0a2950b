//! Engine-neutral viewport frames and the state machine of the editor's
//! viewport: which source it shows, whether a frame is awaited, and the last
//! frame or error received.
use crate::diagnostic::{Diagnostic, DiagnosticSource, Severity};
use crate::id::Id;
use crate::text::{concat2, decimal, u64_to_text};
use vstd::prelude::*;

verus! {

#[derive(Debug, Clone, Copy, PartialEq, Eq, PartialOrd, Ord, Hash)]
pub struct ViewportMarker;

pub type ViewportId = Id<ViewportMarker>;

#[derive(Debug, Clone, Copy, PartialEq, Eq, Structural)]
pub enum ViewportFrameFormat {
    Rgba8Unorm,
}

/// `n` clamped to the range of `usize`, as a saturating operation gives it.
pub open spec fn saturate_usize(n: int) -> usize {
    if n > usize::MAX {
        usize::MAX
    } else {
        n as usize
    }
}

/// An RGBA frame holds four bytes for each of its pixels, as long as that
/// count fits in a `usize`; the pixel count is the width times the height.
pub proof fn law_rgba_frame_bytes(width: u32, height: u32)
    requires
        width * height * 4 <= usize::MAX,
    ensures
        ViewportFrameSize::new_spec(width, height).spec_pixel_count() == width * height,
        ViewportFrameSize::new_spec(width, height).spec_rgba_byte_len() == width * height * 4,
{
    assert(0 <= width * height) by (nonlinear_arith);
    assert(width * height <= width * height * 4) by (nonlinear_arith)
        requires
            0 <= width * height,
    ;
}

#[derive(Debug, Clone, Copy, PartialEq, Eq, Structural)]
pub struct ViewportFrameSize {
    pub width: u32,
    pub height: u32,
}

impl ViewportFrameSize {
    pub open spec fn spec_pixel_count(self) -> usize {
        saturate_usize(self.width * self.height)
    }

    pub open spec fn spec_rgba_byte_len(self) -> usize {
        saturate_usize(self.spec_pixel_count() * 4)
    }

    pub open spec fn spec_is_valid(self) -> bool {
        self.width > 0 && self.height > 0
    }

    pub fn new(width: u32, height: u32) -> (r: Self)
        ensures
            r.width == width,
            r.height == height,
    {
        ViewportFrameSize { width, height }
    }

    pub fn pixel_count(self) -> (r: usize)
        ensures
            r == self.spec_pixel_count(),
    {
        match (self.width as usize).checked_mul(self.height as usize) {
            Some(v) => v,
            None => usize::MAX,
        }
    }

    pub fn rgba_byte_len(self) -> (r: usize)
        ensures
            r == self.spec_rgba_byte_len(),
    {
        match self.pixel_count().checked_mul(4) {
            Some(v) => v,
            None => usize::MAX,
        }
    }

    pub fn is_valid(self) -> (r: bool)
        ensures
            r == self.spec_is_valid(),
    {
        self.width > 0 && self.height > 0
    }
}

#[derive(Debug, Clone, PartialEq, Eq)]
pub struct ViewportFramePixels {
    pub rgba: Vec<u8>,
}

impl ViewportFramePixels {
    /// The pixels of a frame of the given size, refused unless there are
    /// exactly four bytes per pixel.
    pub fn from_rgba8(size: ViewportFrameSize, rgba: Vec<u8>) -> (r: Result<Self, ViewportError>)
        ensures
            rgba.len() == size.spec_rgba_byte_len() ==> (r matches Ok(p) && p.rgba@ == rgba@),
            rgba.len() != size.spec_rgba_byte_len() ==> r == Err::<Self, ViewportError>(
                ViewportError::InvalidPixelLength {
                    expected: size.spec_rgba_byte_len(),
                    actual: rgba.len(),
                },
            ),
    {
        let expected = size.rgba_byte_len();
        if rgba.len() != expected {
            return Err(ViewportError::InvalidPixelLength { expected, actual: rgba.len() });
        }
        Ok(ViewportFramePixels { rgba })
    }
}

#[derive(Debug, Clone, PartialEq, Eq)]
pub struct ViewportFrame {
    pub size: ViewportFrameSize,
    pub format: ViewportFrameFormat,
    pub pixels: ViewportFramePixels,
}

/// A frame that can be shown: positive dimensions and four bytes per pixel.
pub open spec fn frame_well_formed(frame: ViewportFrame) -> bool {
    &&& frame.size.spec_is_valid()
    &&& frame.pixels.rgba.len() == frame.size.spec_rgba_byte_len()
}

impl ViewportFrame {
    pub fn new(width: u32, height: u32, format: ViewportFrameFormat, rgba: Vec<u8>) -> (r: Result<
        Self,
        ViewportError,
    >)
        ensures
            !(width > 0 && height > 0) ==> r == Err::<Self, ViewportError>(
                ViewportError::InvalidDimensions { width, height },
            ),
            (width > 0 && height > 0) && rgba.len() != ViewportFrameSize::new_spec(
                width,
                height,
            ).spec_rgba_byte_len() ==> r == Err::<Self, ViewportError>(
                ViewportError::InvalidPixelLength {
                    expected: ViewportFrameSize::new_spec(width, height).spec_rgba_byte_len(),
                    actual: rgba.len(),
                },
            ),
            (width > 0 && height > 0) && rgba.len() == ViewportFrameSize::new_spec(
                width,
                height,
            ).spec_rgba_byte_len() ==> (r matches Ok(f) && f.size.width == width && f.size.height
                == height && f.format == format && f.pixels.rgba@ == rgba@),
            r matches Ok(f) ==> frame_well_formed(f),
    {
        let size = ViewportFrameSize::new(width, height);
        if !size.is_valid() {
            return Err(ViewportError::InvalidDimensions { width, height });
        }
        let pixels = match ViewportFramePixels::from_rgba8(size, rgba) {
            Ok(p) => p,
            Err(e) => return Err(e),
        };
        Ok(ViewportFrame { size, format, pixels })
    }
}

impl ViewportFrameSize {
    pub open spec fn new_spec(width: u32, height: u32) -> Self {
        ViewportFrameSize { width, height }
    }
}

#[derive(Debug, Clone, PartialEq, Eq)]
pub enum ViewportSource {
    Unset,
    Adapter(String),
}

#[derive(Debug, Clone, Copy, PartialEq, Eq, Structural)]
pub enum ViewportStatus {
    NoSource,
    WaitingForFrame,
    FrameAvailable,
    Error,
}

#[derive(Debug, Clone, PartialEq, Eq)]
pub struct ViewportDiagnostic {
    pub severity: Severity,
    pub message: String,
}

impl ViewportDiagnostic {
    pub fn info(message: &str) -> (r: Self)
        ensures
            r.severity == Severity::Info,
            r.message@ == message@,
    {
        ViewportDiagnostic { severity: Severity::Info, message: message.to_owned() }
    }

    pub fn warning(message: &str) -> (r: Self)
        ensures
            r.severity == Severity::Warning,
            r.message@ == message@,
    {
        ViewportDiagnostic { severity: Severity::Warning, message: message.to_owned() }
    }

    pub fn error(message: &str) -> (r: Self)
        ensures
            r.severity == Severity::Error,
            r.message@ == message@,
    {
        ViewportDiagnostic { severity: Severity::Error, message: message.to_owned() }
    }

    /// This diagnostic as a core diagnostic from the `viewport` subsystem.
    pub fn as_core_diagnostic(&self) -> (r: Diagnostic)
        ensures
            r.severity == self.severity,
            r.source.subsystem@ == "viewport"@,
            r.source.location is None,
            r.message@ == self.message@,
    {
        Diagnostic {
            severity: self.severity,
            source: DiagnosticSource::new("viewport"),
            message: self.message.clone(),
        }
    }
}

#[derive(Debug, Clone, PartialEq, Eq)]
pub enum ViewportError {
    InvalidDimensions { width: u32, height: u32 },
    InvalidPixelLength { expected: usize, actual: usize },
    NoAdapterConnected,
    AdapterUnsupported,
    AdapterFailed(String),
    Cleared,
}

/// The text a viewport error is shown with.
pub open spec fn viewport_error_text(e: ViewportError) -> Seq<char> {
    match e {
        ViewportError::InvalidDimensions { width, height } => "invalid viewport frame dimensions "@
            + decimal(width as nat) + "x"@ + decimal(height as nat),
        ViewportError::InvalidPixelLength { expected, actual } =>
            "invalid viewport pixel length: expected "@ + decimal(expected as nat)
            + " bytes, received "@ + decimal(actual as nat),
        ViewportError::NoAdapterConnected => "No adapter connected"@,
        ViewportError::AdapterUnsupported => "Adapter does not support viewport preview"@,
        ViewportError::AdapterFailed(m) => "adapter viewport error: "@ + m@,
        ViewportError::Cleared => "viewport cleared"@,
    }
}

impl ViewportError {
    /// The text this error is shown with.
    pub fn message(&self) -> (r: String)
        ensures
            r@ == viewport_error_text(*self),
    {
        match self {
            ViewportError::InvalidDimensions { width, height } => {
                let mut s = String::from_str("invalid viewport frame dimensions ");
                s.append(u64_to_text(*width as u64).as_str());
                s.append("x");
                s.append(u64_to_text(*height as u64).as_str());
                s
            },
            ViewportError::InvalidPixelLength { expected, actual } => {
                let mut s = String::from_str("invalid viewport pixel length: expected ");
                s.append(u64_to_text(*expected as u64).as_str());
                s.append(" bytes, received ");
                s.append(u64_to_text(*actual as u64).as_str());
                s
            },
            ViewportError::NoAdapterConnected => String::from_str("No adapter connected"),
            ViewportError::AdapterUnsupported => String::from_str(
                "Adapter does not support viewport preview",
            ),
            ViewportError::AdapterFailed(m) => concat2("adapter viewport error: ", m.as_str()),
            ViewportError::Cleared => String::from_str("viewport cleared"),
        }
    }
}

#[derive(Debug, Clone, PartialEq, Eq)]
pub struct ViewportState {
    pub id: ViewportId,
    pub source: ViewportSource,
    pub status: ViewportStatus,
    pub frame: Option<ViewportFrame>,
    pub last_diagnostic: Option<ViewportDiagnostic>,
}

/// The text shown for each viewport status.
pub open spec fn status_message_text(status: ViewportStatus) -> Seq<char> {
    match status {
        ViewportStatus::NoSource => "No viewport source"@,
        ViewportStatus::WaitingForFrame => "Waiting for preview frame"@,
        ViewportStatus::FrameAvailable => "Adapter Preview"@,
        ViewportStatus::Error => "Viewport error"@,
    }
}

impl ViewportState {
    /// The viewport's consistency: a frame is only held while the status says
    /// one is available, and a held frame can be shown.
    pub open spec fn inv(&self) -> bool {
        self.frame matches Some(f) ==> self.status == ViewportStatus::FrameAvailable
            && frame_well_formed(f)
    }

    pub fn new(id: ViewportId) -> (r: Self)
        ensures
            r.id == id,
            r.source == ViewportSource::Unset,
            r.status == ViewportStatus::NoSource,
            r.frame is None,
            r.last_diagnostic is None,
            r.inv(),
    {
        ViewportState {
            id,
            source: ViewportSource::Unset,
            status: ViewportStatus::NoSource,
            frame: None,
            last_diagnostic: None,
        }
    }

    /// The editor's main viewport, with the identifier 1 and no source.
    pub fn default_editor() -> (r: Self)
        ensures
            r.id@ == 1,
            r.source == ViewportSource::Unset,
            r.status == ViewportStatus::NoSource,
            r.frame is None,
            r.last_diagnostic is None,
            r.inv(),
    {
        Self::new(Id::min_id())
    }

    /// Shows frames from the given adapter; any held frame is dropped.
    pub fn set_adapter_source(&mut self, adapter_id: &str)
        ensures
            final(self).source matches ViewportSource::Adapter(a) && a@ == adapter_id@,
            final(self).status == (if old(self).status == ViewportStatus::NoSource {
                ViewportStatus::WaitingForFrame
            } else {
                old(self).status
            }),
            final(self).frame is None,
            final(self).id == old(self).id,
            final(self).last_diagnostic == old(self).last_diagnostic,
            final(self).inv(),
    {
        self.source = ViewportSource::Adapter(adapter_id.to_owned());
        if self.status == ViewportStatus::NoSource {
            self.status = ViewportStatus::WaitingForFrame;
        }
        self.frame = None;
    }

    pub fn clear_source(&mut self)
        ensures
            final(self).source == ViewportSource::Unset,
            final(self).status == ViewportStatus::NoSource,
            final(self).frame is None,
            final(self).last_diagnostic is None,
            final(self).id == old(self).id,
            final(self).inv(),
    {
        self.source = ViewportSource::Unset;
        self.status = ViewportStatus::NoSource;
        self.frame = None;
        self.last_diagnostic = None;
    }

    /// Starts waiting for a frame; refused, with an error diagnostic, when no
    /// source is set.
    pub fn begin_frame_request(&mut self) -> (r: Result<(), ViewportError>)
        ensures
            final(self).id == old(self).id,
            final(self).source == old(self).source,
            old(self).source == ViewportSource::Unset ==> {
                &&& r == Err::<(), ViewportError>(ViewportError::NoAdapterConnected)
                &&& final(self).status == ViewportStatus::NoSource
                &&& final(self).frame == old(self).frame
                &&& final(self).last_diagnostic matches Some(d) && d.severity == Severity::Error
                    && d.message@ == viewport_error_text(ViewportError::NoAdapterConnected)
            },
            old(self).source is Adapter ==> {
                &&& r is Ok
                &&& final(self).status == ViewportStatus::WaitingForFrame
                &&& final(self).frame is None
                &&& final(self).last_diagnostic == old(self).last_diagnostic
            },
            old(self).inv() && old(self).source is Adapter ==> final(self).inv(),
    {
        match self.source {
            ViewportSource::Unset => {
                let text = ViewportError::NoAdapterConnected.message();
                self.last_diagnostic = Some(ViewportDiagnostic::error(text.as_str()));
                self.status = ViewportStatus::NoSource;
                Err(ViewportError::NoAdapterConnected)
            },
            ViewportSource::Adapter(_) => {
                self.status = ViewportStatus::WaitingForFrame;
                self.frame = None;
                Ok(())
            },
        }
    }

    /// Shows `frame`, which is refused unless it has positive dimensions and
    /// four bytes per pixel.
    pub fn apply_frame(&mut self, frame: ViewportFrame) -> (r: Result<(), ViewportError>)
        ensures
            !frame.size.spec_is_valid() ==> r == Err::<(), ViewportError>(
                ViewportError::InvalidDimensions {
                    width: frame.size.width,
                    height: frame.size.height,
                },
            ) && *final(self) == *old(self),
            frame.size.spec_is_valid() && frame.pixels.rgba.len()
                != frame.size.spec_rgba_byte_len() ==> r == Err::<(), ViewportError>(
                ViewportError::InvalidPixelLength {
                    expected: frame.size.spec_rgba_byte_len(),
                    actual: frame.pixels.rgba.len(),
                },
            ) && *final(self) == *old(self),
            frame_well_formed(frame) ==> {
                &&& r is Ok
                &&& final(self).frame == Some(frame)
                &&& final(self).status == ViewportStatus::FrameAvailable
                &&& final(self).last_diagnostic is None
                &&& final(self).id == old(self).id
                &&& final(self).source == old(self).source
            },
            old(self).inv() ==> final(self).inv(),
    {
        if !frame.size.is_valid() {
            return Err(
                ViewportError::InvalidDimensions {
                    width: frame.size.width,
                    height: frame.size.height,
                },
            );
        }
        let expected = frame.size.rgba_byte_len();
        if frame.pixels.rgba.len() != expected {
            return Err(
                ViewportError::InvalidPixelLength { expected, actual: frame.pixels.rgba.len() },
            );
        }
        self.frame = Some(frame);
        self.status = ViewportStatus::FrameAvailable;
        self.last_diagnostic = None;
        Ok(())
    }

    /// Records a failed frame request: the frame is dropped and the error
    /// kept as a diagnostic.
    pub fn apply_error(&mut self, error: ViewportError)
        ensures
            final(self).status == ViewportStatus::Error,
            final(self).frame is None,
            final(self).last_diagnostic matches Some(d) && d.severity == Severity::Error
                && d.message@ == viewport_error_text(error),
            final(self).id == old(self).id,
            final(self).source == old(self).source,
            final(self).inv(),
    {
        self.status = ViewportStatus::Error;
        self.frame = None;
        let text = error.message();
        self.last_diagnostic = Some(ViewportDiagnostic::error(text.as_str()));
    }

    /// Drops the held frame and goes back to waiting, or to no source.
    pub fn clear_frame(&mut self)
        ensures
            final(self).frame is None,
            final(self).status == (if old(self).source == ViewportSource::Unset {
                ViewportStatus::NoSource
            } else {
                ViewportStatus::WaitingForFrame
            }),
            final(self).last_diagnostic matches Some(d) && d.severity == Severity::Info
                && d.message@ == "viewport frame cleared"@,
            final(self).id == old(self).id,
            final(self).source == old(self).source,
            final(self).inv(),
    {
        self.frame = None;
        match self.source {
            ViewportSource::Unset => {
                self.status = ViewportStatus::NoSource;
            },
            ViewportSource::Adapter(_) => {
                self.status = ViewportStatus::WaitingForFrame;
            },
        }
        self.last_diagnostic = Some(ViewportDiagnostic::info("viewport frame cleared"));
    }

    pub fn status_message(&self) -> (r: &'static str)
        ensures
            r@ == status_message_text(self.status),
    {
        match self.status {
            ViewportStatus::NoSource => "No viewport source",
            ViewportStatus::WaitingForFrame => "Waiting for preview frame",
            ViewportStatus::FrameAvailable => "Adapter Preview",
            ViewportStatus::Error => "Viewport error",
        }
    }
}

} // verus!
