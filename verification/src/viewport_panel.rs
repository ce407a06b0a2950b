//! The editor's viewport panel: the viewport's state and what the last
//! viewport command said. A frame request goes through the adapter panel.
use crate::adapter_session::{AdapterHostState, AdapterTransport};
use crate::adapter_state::AdapterState;
use crate::editor_commands::{route, EditorCommand, EditorCommandRouter, ViewportCommand};
use crate::editor_display::{viewport_ui_snapshot, ViewportUiSnapshot};
use crate::text::{concat2, concat3};
use crate::viewport::{ViewportSource, ViewportState, ViewportStatus};
use crate::viewport_request::{unset_refused, ViewportFrameRequestSize};
use vstd::prelude::*;

verus! {

/// The answer to a viewport command: which command, and what it says.
#[derive(Debug, Clone, PartialEq, Eq)]
pub struct ViewportCommandResult {
    command_id: String,
    message: String,
}

impl View for ViewportCommandResult {
    type V = (Seq<char>, Seq<char>);

    closed spec fn view(&self) -> (Seq<char>, Seq<char>) {
        (self.command_id@, self.message@)
    }
}

impl ViewportCommandResult {
    pub fn new(command_id: &str, message: &str) -> (r: Self)
        ensures
            r@ == (command_id@, message@),
    {
        ViewportCommandResult { command_id: command_id.to_owned(), message: message.to_owned() }
    }

    pub fn command_id(&self) -> (r: &str)
        ensures
            r@ == self@.0,
    {
        self.command_id.as_str()
    }

    pub fn message(&self) -> (r: &str)
        ensures
            r@ == self@.1,
    {
        self.message.as_str()
    }

    fn copy(&self) -> (r: Self)
        ensures
            r@ == self@,
    {
        ViewportCommandResult { command_id: self.command_id.clone(), message: self.message.clone() }
    }
}

/// The name of a viewport status, as `viewport.show_status` gives it.
pub open spec fn status_name(s: ViewportStatus) -> Seq<char> {
    match s {
        ViewportStatus::NoSource => "NoSource"@,
        ViewportStatus::WaitingForFrame => "WaitingForFrame"@,
        ViewportStatus::FrameAvailable => "FrameAvailable"@,
        ViewportStatus::Error => "Error"@,
    }
}

/// What `viewport.show_status` says of a viewport.
pub open spec fn show_status_text(v: ViewportState) -> Seq<char> {
    "viewport status="@ + status_name(v.status) + " source="@ + match v.source {
        ViewportSource::Unset => "none"@,
        ViewportSource::Adapter(id) => id@,
    }
}

fn status_name_text(s: ViewportStatus) -> (r: &'static str)
    ensures
        r@ == status_name(s),
{
    match s {
        ViewportStatus::NoSource => "NoSource",
        ViewportStatus::WaitingForFrame => "WaitingForFrame",
        ViewportStatus::FrameAvailable => "FrameAvailable",
        ViewportStatus::Error => "Error",
    }
}

pub struct AppViewportState {
    inner: ViewportState,
    last_command_result: Option<ViewportCommandResult>,
}

impl AppViewportState {
    pub closed spec fn viewport(&self) -> ViewportState {
        self.inner
    }

    pub closed spec fn last_result(&self) -> Option<(Seq<char>, Seq<char>)> {
        match self.last_command_result {
            Some(r) => Some(r@),
            None => None,
        }
    }

    pub fn state(&self) -> (r: &ViewportState)
        ensures
            *r == self.viewport(),
    {
        &self.inner
    }

    /// The adapter connected: its frames become the viewport's source when
    /// it renders previews.
    pub fn on_adapter_connected(&mut self, adapter_id: &str, supports_preview: bool)
        ensures
            final(self).last_result() == old(self).last_result(),
            supports_preview ==> (final(self).viewport().source matches ViewportSource::Adapter(a)
                && a@ == adapter_id@) && final(self).viewport().frame is None,
            !supports_preview ==> final(self).viewport() == old(self).viewport(),
    {
        if supports_preview {
            self.inner.set_adapter_source(adapter_id);
        }
    }

    /// The adapter went away: the viewport has no source.
    pub fn on_adapter_disconnected(&mut self)
        ensures
            final(self).last_result() == old(self).last_result(),
            final(self).viewport().source == ViewportSource::Unset,
            final(self).viewport().status == ViewportStatus::NoSource,
            final(self).viewport().frame is None,
    {
        self.inner.clear_source();
    }

    /// Runs the viewport command named by `id` with the editor's default
    /// frame size; `None` when `id` names no viewport command.
    pub fn execute_command_id<T: AdapterTransport>(&mut self, id: &str, adapter: &mut AdapterState<T>) -> (r:
        Option<ViewportCommandResult>)
        ensures
            (route(id@) matches Some(EditorCommand::Viewport(_))) == r is Some,
            r is None ==> final(self).viewport() == old(self).viewport() && final(adapter)@
                == old(adapter)@,
            r matches Some(res) ==> final(self).last_result() == Some(res@),
            route(id@) == Some(EditorCommand::Viewport(ViewportCommand::Clear)) ==> (r matches Some(
                res,
            ) && res@ == ("viewport.clear"@, "viewport cleared"@)) && final(self).viewport().frame
                is None && final(self).viewport().status == (if old(self).viewport().source
                == ViewportSource::Unset {
                ViewportStatus::NoSource
            } else {
                ViewportStatus::WaitingForFrame
            }),
            route(id@) == Some(EditorCommand::Viewport(ViewportCommand::ShowStatus)) ==> (r matches Some(
                res,
            ) && res@ == ("viewport.show_status"@, show_status_text(old(self).viewport())))
                && final(self).viewport() == old(self).viewport(),
            route(id@) == Some(EditorCommand::Viewport(ViewportCommand::RequestFrame)) ==> (r matches Some(
                res,
            ) && res@.0 == "viewport.request_frame"@) && final(self).viewport().id
                == old(self).viewport().id && final(self).viewport().source == old(self).viewport().source
                && (old(self).viewport().source is Adapter && old(adapter)@.status
                != AdapterHostState::Connected ==> res_message(r) == "No adapter connected"@
                && final(self).viewport().status == ViewportStatus::Error),
    {
        self.execute_command_id_with_size(id, adapter, ViewportFrameRequestSize::default_editor())
    }

    /// Runs the viewport command named by `id`, requesting frames of `size`.
    pub fn execute_command_id_with_size<T: AdapterTransport>(
        &mut self,
        id: &str,
        adapter: &mut AdapterState<T>,
        size: ViewportFrameRequestSize,
    ) -> (r: Option<ViewportCommandResult>)
        ensures
            (route(id@) matches Some(EditorCommand::Viewport(_))) == r is Some,
            r is None ==> final(self).viewport() == old(self).viewport() && final(adapter)@
                == old(adapter)@,
            r matches Some(res) ==> final(self).last_result() == Some(res@),
            route(id@) == Some(EditorCommand::Viewport(ViewportCommand::Clear)) ==> (r matches Some(
                res,
            ) && res@ == ("viewport.clear"@, "viewport cleared"@)) && final(self).viewport().frame
                is None && final(self).viewport().status == (if old(self).viewport().source
                == ViewportSource::Unset {
                ViewportStatus::NoSource
            } else {
                ViewportStatus::WaitingForFrame
            }),
            route(id@) == Some(EditorCommand::Viewport(ViewportCommand::ShowStatus)) ==> (r matches Some(
                res,
            ) && res@ == ("viewport.show_status"@, show_status_text(old(self).viewport())))
                && final(self).viewport() == old(self).viewport(),
            route(id@) == Some(EditorCommand::Viewport(ViewportCommand::RequestFrame)) ==> (r matches Some(
                res,
            ) && res@.0 == "viewport.request_frame"@) && final(self).viewport().id
                == old(self).viewport().id && final(self).viewport().source == old(self).viewport().source
                && (old(self).viewport().source is Adapter && old(adapter)@.status
                != AdapterHostState::Connected ==> res_message(r) == "No adapter connected"@
                && final(self).viewport().status == ViewportStatus::Error),
    {
        match EditorCommandRouter::parse(id) {
            Some(EditorCommand::Viewport(c)) => Some(self.execute(c, adapter, size)),
            _ => None,
        }
    }

    /// Runs a viewport command, requesting frames of `size` from the
    /// adapter panel.
    pub fn execute<T: AdapterTransport>(
        &mut self,
        command: ViewportCommand,
        adapter: &mut AdapterState<T>,
        size: ViewportFrameRequestSize,
    ) -> (r: ViewportCommandResult)
        ensures
            viewport_executed(
                old(self).viewport(),
                final(self).viewport(),
                old(adapter)@.status == AdapterHostState::Connected,
                old(adapter)@.capabilities matches Some(c) && c.supports_viewport_preview,
                command,
                r@,
            ),
            final(self).last_result() == Some(r@),
            command != ViewportCommand::RequestFrame ==> final(adapter)@ == old(adapter)@,
            final(adapter)@.status == old(adapter)@.status,
            final(adapter)@.last_result == old(adapter)@.last_result,
    {
        let result = match command {
            ViewportCommand::RequestFrame => {
                let message = match adapter.request_viewport_frame(&mut self.inner, size) {
                    Ok(m) => m,
                    Err(m) => m,
                };
                ViewportCommandResult::new("viewport.request_frame", message.as_str())
            },
            ViewportCommand::Clear => {
                self.inner.clear_frame();
                ViewportCommandResult::new("viewport.clear", "viewport cleared")
            },
            ViewportCommand::ShowStatus => {
                let source = match &self.inner.source {
                    ViewportSource::Unset => String::from_str("none"),
                    ViewportSource::Adapter(a) => a.clone(),
                };
                let head = concat3("viewport status=", status_name_text(self.inner.status), " source=");
                let message = concat2(head.as_str(), source.as_str());
                ViewportCommandResult::new("viewport.show_status", message.as_str())
            },
        };
        self.last_command_result = Some(result.copy());
        result
    }

    /// The viewport panel.
    pub fn ui_snapshot(&self) -> (r: ViewportUiSnapshot)
        ensures
            r.status == self.viewport().status,
            r.command_message@ == match self.last_result() {
                Some(res) => res.1,
                None => Seq::<char>::empty(),
            },
    {
        let last = match &self.last_command_result {
            Some(res) => Some(res.message()),
            None => None,
        };
        viewport_ui_snapshot(&self.inner, last)
    }
}

/// What a viewport command does to the viewport and what it answers,
/// `connected` and `preview` saying whether the adapter is connected and
/// renders previews: `clear` drops the frame, `show_status` describes the
/// viewport, and `request_frame` is refused, as the viewport records, without
/// a source, a connected adapter or preview support.
pub open spec fn viewport_executed(
    before: ViewportState,
    after: ViewportState,
    connected: bool,
    preview: bool,
    command: ViewportCommand,
    res: (Seq<char>, Seq<char>),
) -> bool {
    match command {
        ViewportCommand::Clear => {
            &&& res == ("viewport.clear"@, "viewport cleared"@)
            &&& after.frame is None
            &&& after.status == if before.source == ViewportSource::Unset {
                ViewportStatus::NoSource
            } else {
                ViewportStatus::WaitingForFrame
            }
        },
        ViewportCommand::ShowStatus => res == ("viewport.show_status"@, show_status_text(before))
            && after == before,
        ViewportCommand::RequestFrame => {
            &&& res.0 == "viewport.request_frame"@
            &&& after.id == before.id
            &&& after.source == before.source
            &&& before.source == ViewportSource::Unset ==> res.1 == "No adapter connected"@
                && unset_refused(before, after)
            &&& before.source is Adapter && !connected ==> res.1 == "No adapter connected"@
                && after.status == ViewportStatus::Error
            &&& before.source is Adapter && connected && !preview ==> res.1
                == "Adapter does not support viewport preview"@ && after.status == ViewportStatus::Error
        },
    }
}

/// The message of a command's answer, if there is one.
pub open spec fn res_message(r: Option<ViewportCommandResult>) -> Seq<char> {
    match r {
        Some(res) => res@.1,
        None => Seq::empty(),
    }
}

impl Default for AppViewportState {
    fn default() -> (r: Self)
        ensures
            r.viewport().id@ == 1,
            r.viewport().source == ViewportSource::Unset,
            r.viewport().status == ViewportStatus::NoSource,
            r.viewport().frame is None,
            r.last_result() is None,
    {
        AppViewportState { inner: ViewportState::default_editor(), last_command_result: None }
    }
}

} // verus!
