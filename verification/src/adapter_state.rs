//! The editor's adapter panel: which adapter to run, the session with it
//! once one is running, who the adapter said it is, its diagnostics, and
//! what the last adapter command said. Starting a process is the caller's
//! work: `adapter.connect` hands back the process to spawn, and the
//! outcome comes back through `finish_connect`.
use crate::adapter_protocol::{
    AdapterCapabilities, AdapterDiagnostic, AdapterId, AdapterName, AdapterRequestId,
    AdapterRequestMessage, AdapterVersion, GetDiagnosticsRequest, GetDiagnosticsResponse,
    HandshakeRequest, LoadProjectRequest, LoadProjectResponse, ShutdownRequest,
};
use crate::adapter_session::{
    copy_text_option, diagnostics_answer, handshake_answer, host_error_text, load_project_answer, one_more_outcome,
    request_to, viewport_frame_answer, AdapterHostError, AdapterHostState,
    AdapterProcessSpec, AdapterSession, AdapterSessionInfo, AdapterTransport, SessionView,
};
use crate::app_config::AppProjectConfig;
use crate::editor_commands::{AdapterCommand, UNSAVED_SCENE_MESSAGE};
use crate::editor_display::{adapter_ui_snapshot, capabilities_text, connected_label_text, AdapterUiSnapshot};
use crate::text::{concat2, decimal, u64_to_text};
use crate::viewport::{ViewportError, ViewportSource, ViewportState, ViewportStatus};
use crate::viewport_request::{
    begin_viewport_frame_request, exchange_finished, finish_viewport_frame, frame_finished,
    frame_request_for, unset_refused, ViewportFrameRequestSize,
};
use vstd::prelude::*;

verus! {

/// Which adapter to run, with which project, and whether to connect at
/// start.
#[derive(Debug, Clone, PartialEq, Eq)]
pub struct AdapterLaunchConfig {
    pub executable: Option<String>,
    pub project_path: Option<String>,
    pub auto_connect: bool,
}

impl AdapterLaunchConfig {
    pub fn from_project_config(config: &AppProjectConfig) -> (r: Self)
        ensures
            r.executable == config.adapter_executable,
            r.project_path == config.adapter_project_path,
            r.auto_connect == config.auto_connect_adapter,
    {
        AdapterLaunchConfig {
            executable: config.adapter_executable.clone(),
            project_path: config.adapter_project_path.clone(),
            auto_connect: config.auto_connect_adapter,
        }
    }

    pub fn auto_connect(&self) -> (r: bool)
        ensures
            r == self.auto_connect,
    {
        self.auto_connect
    }
}

impl Default for AdapterLaunchConfig {
    fn default() -> (r: Self)
        ensures
            r.executable is None,
            r.project_path is None,
            !r.auto_connect,
    {
        AdapterLaunchConfig { executable: None, project_path: None, auto_connect: false }
    }
}

/// The answer to an adapter command: which command, and what it says.
#[derive(Debug, Clone, PartialEq, Eq)]
pub struct AdapterCommandResult {
    command_id: String,
    message: String,
}

impl View for AdapterCommandResult {
    type V = (Seq<char>, Seq<char>);

    closed spec fn view(&self) -> (Seq<char>, Seq<char>) {
        (self.command_id@, self.message@)
    }
}

impl AdapterCommandResult {
    pub fn new(command_id: &str, message: &str) -> (r: Self)
        ensures
            r@ == (command_id@, message@),
    {
        AdapterCommandResult { command_id: command_id.to_owned(), message: message.to_owned() }
    }

    pub fn command_id(&self) -> (r: &str)
        ensures
            r@ == self@.0,
    {
        self.command_id.as_str()
    }

    pub fn message(&self) -> (r: &str)
        ensures
            r@ == self@.1,
    {
        self.message.as_str()
    }

    fn copy(&self) -> (r: Self)
        ensures
            r@ == self@,
    {
        AdapterCommandResult { command_id: self.command_id.clone(), message: self.message.clone() }
    }
}

/// What an adapter command asks of its caller: nothing more, to start the
/// adapter process described and hand the session to `finish_connect`, or
/// to fetch the adapter's scene.
#[derive(Debug)]
pub enum AdapterStep {
    Done(AdapterCommandResult),
    Spawn(AdapterProcessSpec),
    FetchScene,
}

pub struct AdapterStateView {
    pub session: Option<SessionView>,
    pub status: AdapterHostState,
    pub id: Option<Seq<char>>,
    pub name: Option<Seq<char>>,
    pub version: Option<Seq<char>>,
    pub capabilities: Option<AdapterCapabilities>,
    pub diagnostics: Seq<AdapterDiagnostic>,
    pub last_result: Option<(Seq<char>, Seq<char>)>,
    pub executable: Option<Seq<char>>,
    pub project_path: Option<Seq<char>>,
    pub auto_connect: bool,
}

/// A message that reports a failed exchange.
pub open spec fn is_failure_text(m: Seq<char>) -> bool {
    exists|e: AdapterHostError| m == "Diagnostic: "@ + host_error_text(e)
}

/// The adapter status line of the panel.
pub open spec fn status_line_text(v: AdapterStateView) -> Seq<char> {
    connected_label_text(v.status, v.name, v.version) + " | "@ + match v.capabilities {
        Some(c) => capabilities_text(c),
        None => "Capabilities: None"@,
    }
}

/// Who the adapter is and what it can do are forgotten, and it is stopped.
pub open spec fn cleared(v: AdapterStateView) -> bool {
    &&& v.status == AdapterHostState::Stopped
    &&& v.id is None
    &&& v.name is None
    &&& v.version is None
    &&& v.capabilities is None
}

/// The launch configuration is left as it was.
pub open spec fn keeps_config(a: AdapterStateView, b: AdapterStateView) -> bool {
    &&& a.executable == b.executable
    &&& a.project_path == b.project_path
    &&& a.auto_connect == b.auto_connect
}

pub struct AdapterState<T> {
    session: Option<AdapterSession<T>>,
    status: AdapterHostState,
    id: Option<AdapterId>,
    name: Option<AdapterName>,
    version: Option<AdapterVersion>,
    capabilities: Option<AdapterCapabilities>,
    diagnostics: Vec<AdapterDiagnostic>,
    last_result: Option<AdapterCommandResult>,
    config: AdapterLaunchConfig,
}

pub open spec fn opt_view<V: View>(o: Option<V>) -> Option<V::V> {
    match o {
        Some(v) => Some(v@),
        None => None,
    }
}

impl<T: AdapterTransport> View for AdapterState<T> {
    type V = AdapterStateView;

    closed spec fn view(&self) -> AdapterStateView {
        AdapterStateView {
            session: match self.session {
                Some(s) => Some(s@),
                None => None,
            },
            status: self.status,
            id: opt_view(self.id),
            name: opt_view(self.name),
            version: opt_view(self.version),
            capabilities: self.capabilities,
            diagnostics: self.diagnostics@,
            last_result: opt_view(self.last_result),
            executable: opt_view(self.config.executable),
            project_path: opt_view(self.config.project_path),
            auto_connect: self.config.auto_connect,
        }
    }
}

impl<T: AdapterTransport> AdapterState<T> {
    /// No adapter yet: disconnected, with the launch configuration given.
    pub fn new(config: AdapterLaunchConfig) -> (r: Self)
        ensures
            r@.session is None,
            r@.status == AdapterHostState::Disconnected,
            r@.id is None && r@.name is None && r@.version is None && r@.capabilities is None,
            r@.diagnostics.len() == 0,
            r@.last_result is None,
            r@.executable == opt_view(config.executable),
            r@.project_path == opt_view(config.project_path),
            r@.auto_connect == config.auto_connect,
    {
        AdapterState {
            session: None,
            status: AdapterHostState::Disconnected,
            id: None,
            name: None,
            version: None,
            capabilities: None,
            diagnostics: Vec::new(),
            last_result: None,
            config,
        }
    }

    pub fn auto_connect_enabled(&self) -> (r: bool)
        ensures
            r == self@.auto_connect,
    {
        self.config.auto_connect()
    }

    /// Takes a session whose adapter has not answered yet.
    pub fn attach_session(&mut self, session: AdapterSession<T>)
        ensures
            final(self)@ == (AdapterStateView {
                session: Some(session@),
                status: AdapterHostState::Starting,
                ..old(self)@
            }),
    {
        self.session = Some(session);
        self.status = AdapterHostState::Starting;
    }

    pub fn status(&self) -> (r: AdapterHostState)
        ensures
            r == self@.status,
    {
        self.status
    }

    pub fn session(&self) -> (r: Option<&AdapterSession<T>>)
        ensures
            match self@.session {
                Some(v) => r matches Some(s) && s@ == v,
                None => r is None,
            },
    {
        match &self.session {
            Some(s) => Some(s),
            None => None,
        }
    }

    pub fn diagnostics(&self) -> (r: &[AdapterDiagnostic])
        ensures
            r@ == self@.diagnostics,
    {
        self.diagnostics.as_slice()
    }

    pub fn last_result(&self) -> (r: Option<&AdapterCommandResult>)
        ensures
            match self@.last_result {
                Some(v) => r matches Some(res) && res@ == v,
                None => r is None,
            },
    {
        match &self.last_result {
            Some(res) => Some(res),
            None => None,
        }
    }

    pub fn is_connected(&self) -> (r: bool)
        ensures
            r == (self@.status == AdapterHostState::Connected),
    {
        self.status == AdapterHostState::Connected
    }

    pub fn supports_viewport_preview(&self) -> (r: bool)
        ensures
            r == (self@.capabilities matches Some(c) && c.supports_viewport_preview),
    {
        match &self.capabilities {
            Some(c) => c.supports_viewport_preview,
            None => false,
        }
    }

    /// The adapter's identifier and whether it renders previews, while it
    /// is connected.
    pub fn connected_viewport_info(&self) -> (r: Option<(String, bool)>)
        ensures
            match r {
                Some((id, preview)) => self@.status == AdapterHostState::Connected && self@.id
                    == Some(id@) && preview == (self@.capabilities matches Some(c)
                    && c.supports_viewport_preview),
                None => self@.status != AdapterHostState::Connected || self@.id is None,
            },
    {
        if !self.is_connected() {
            return None;
        }
        match &self.id {
            Some(id) => Some((id.as_str().to_owned(), self.supports_viewport_preview())),
            None => None,
        }
    }

    /// The adapter panel.
    pub fn ui_snapshot(&self) -> (r: AdapterUiSnapshot)
        ensures
            r.adapter_status@ == status_line_text(self@),
            r.adapter_diagnostics@ == "Adapter Diagnostics: "@ + decimal(self@.diagnostics.len()),
            r.adapter_command@ == match self@.last_result {
                Some(res) => "Adapter Command: "@ + res.1,
                None => "Adapter Command: None"@,
            },
    {
        let last = match &self.last_result {
            Some(res) => Some(res.message()),
            None => None,
        };
        adapter_ui_snapshot(
            self.status,
            self.name.as_ref(),
            self.version.as_ref(),
            self.capabilities.as_ref(),
            self.diagnostics.as_slice(),
            last,
        )
    }

    fn done(&mut self, command_id: &str, message: &str) -> (r: AdapterStep)
        ensures
            r matches AdapterStep::Done(res) && res@ == (command_id@, message@),
            final(self)@ == (AdapterStateView {
                last_result: Some((command_id@, message@)),
                ..old(self)@
            }),
    {
        let res = AdapterCommandResult::new(command_id, message);
        self.last_result = Some(res.copy());
        AdapterStep::Done(res)
    }

    fn fail(&mut self, command_id: &str, error: AdapterHostError) -> (r: AdapterStep)
        ensures
            r matches AdapterStep::Done(res) && res@.0 == command_id@ && res@.1 == "Diagnostic: "@
                + host_error_text(error),
            final(self)@ == (AdapterStateView {
                status: AdapterHostState::Failed,
                last_result: Some((command_id@, "Diagnostic: "@ + host_error_text(error))),
                ..old(self)@
            }),
    {
        self.status = AdapterHostState::Failed;
        let text = error.message();
        let message = concat2("Diagnostic: ", text.as_str());
        self.done(command_id, message.as_str())
    }

    /// Runs an adapter command. `scene_has_unsaved_changes` says whether the
    /// editor's scene has changes that loading the adapter's scene would
    /// lose.
    pub fn execute(&mut self, command: AdapterCommand, scene_has_unsaved_changes: bool) -> (r:
        AdapterStep)
        ensures
            adapter_executed(old(self)@, final(self)@, command, scene_has_unsaved_changes, r),
    {
        proof {
            reveal_strlit("Diagnostic: ");
        }
        match command {
            AdapterCommand::Connect => {
                if self.session.is_some() && self.status != AdapterHostState::Stopped {
                    return self.done("adapter.connect", "adapter process already active");
                }
                let spec = match &self.config.executable {
                    Some(exe) => AdapterProcessSpec::new(exe.as_str()),
                    None => AdapterProcessSpec::stdio_game_adapter(),
                };
                AdapterStep::Spawn(spec)
            },
            AdapterCommand::Handshake => self.handshake(),
            AdapterCommand::LoadProject => self.load_project(),
            AdapterCommand::LoadScene => {
                if scene_has_unsaved_changes {
                    let message = concat2("Diagnostic: ", UNSAVED_SCENE_MESSAGE);
                    return self.done("adapter.load_scene", message.as_str());
                }
                if self.session.is_none() {
                    return self.done("adapter.load_scene", "Diagnostic: adapter is not running");
                }
                AdapterStep::FetchScene
            },
            AdapterCommand::ShowStatus => {
                let snapshot = self.ui_snapshot();
                self.done("adapter.show_status", snapshot.adapter_status.as_str())
            },
            AdapterCommand::ShowDiagnostics => self.show_diagnostics(),
            AdapterCommand::Disconnect => self.disconnect(),
        }
    }

    /// Takes the outcome of starting the adapter process that a `Spawn`
    /// step asked for.
    pub fn finish_connect(&mut self, outcome: Result<AdapterSession<T>, AdapterHostError>) -> (r:
        AdapterCommandResult)
        ensures
            keeps_config(old(self)@, final(self)@),
            final(self)@.last_result == Some(r@),
            r@.0 == "adapter.connect"@,
            match outcome {
                Ok(session) => r@.1 == "adapter process started"@ && final(self)@.session == Some(
                    session@,
                ) && final(self)@.status == AdapterHostState::Starting,
                Err(e) => r@.1 == "Diagnostic: "@ + host_error_text(e) && final(self)@.status
                    == AdapterHostState::Failed && final(self)@.session == old(self)@.session,
            },
    {
        let step = match outcome {
            Ok(session) => {
                self.session = Some(session);
                self.status = AdapterHostState::Starting;
                self.done("adapter.connect", "adapter process started")
            },
            Err(e) => self.fail("adapter.connect", e),
        };
        match step {
            AdapterStep::Done(res) => res,
            _ => AdapterCommandResult::new("adapter.connect", ""),
        }
    }

    fn handshake(&mut self) -> (r: AdapterStep)
        ensures
            keeps_config(old(self)@, final(self)@),
            handshake_done(old(self)@, final(self)@, r),
    {
        let request = HandshakeRequest::current("elcarax-app", copy_text_option(&self.config.project_path));
        let ghost before = self@;
        let outcome = match &mut self.session {
            Some(session) => session.handshake(request),
            None => {
                return self.done("adapter.handshake", "Diagnostic: adapter is not running");
            },
        };
        let ghost o = outcome;
        let ghost mid = self@;
        assert(mid == (AdapterStateView { session: mid.session, ..before }));
        let r = self.finish_handshake(outcome);
        assert(handshake_finished(mid, self@, o, r));
        proof {
            let bs = before.session->0;
            let s = self@.session->0;
            assert(s.sent.take(bs.sent.len() as int) =~= bs.sent);
            assert(handshake_sent(bs, s, before.project_path));
        }
        r
    }

    /// Takes the outcome of a handshake: the adapter's description is
    /// recorded and it is connected, or the handshake failed.
    pub fn finish_handshake(&mut self, outcome: Result<AdapterSessionInfo, AdapterHostError>) -> (r:
        AdapterStep)
        ensures
            keeps_config(old(self)@, final(self)@),
            handshake_finished(old(self)@, final(self)@, outcome, r),
    {
        match outcome {
            Ok(info) => {
                self.name = Some(info.name);
                self.version = Some(info.version);
                self.id = Some(info.id);
                self.capabilities = Some(info.capabilities);
                self.status = AdapterHostState::Connected;
                self.done("adapter.handshake", "handshake succeeded")
            },
            Err(error) => self.fail("adapter.handshake", error),
        }
    }

    fn load_project(&mut self) -> (r: AdapterStep)
        ensures
            keeps_config(old(self)@, final(self)@),
            load_project_done(old(self)@, final(self)@, r),
    {
        let request = LoadProjectRequest { project_path: copy_text_option(&self.config.project_path) };
        let ghost before = self@;
        let outcome = match &mut self.session {
            Some(session) => session.load_project(request),
            None => {
                return self.done("adapter.load_project", "Diagnostic: adapter is not running");
            },
        };
        let ghost o = outcome;
        let ghost mid = self@;
        assert(mid == (AdapterStateView { session: mid.session, ..before }));
        let r = self.finish_load_project(outcome);
        assert(load_project_finished(mid, self@, o, r));
        proof {
            let bs = before.session->0;
            let s = self@.session->0;
            assert(s.sent.take(bs.sent.len() as int) =~= bs.sent);
            assert(load_project_sent(bs, s, before.project_path));
        }
        r
    }

    /// Takes the outcome of loading the adapter's project: its name is
    /// reported, or the exchange failed.
    pub fn finish_load_project(&mut self, outcome: Result<LoadProjectResponse, AdapterHostError>) -> (r:
        AdapterStep)
        ensures
            keeps_config(old(self)@, final(self)@),
            load_project_finished(old(self)@, final(self)@, outcome, r),
    {
        match outcome {
            Ok(project) => {
                let message = concat2("loaded adapter project ", project.display_name.as_str());
                self.done("adapter.load_project", message.as_str())
            },
            Err(error) => self.fail("adapter.load_project", error),
        }
    }

    fn show_diagnostics(&mut self) -> (r: AdapterStep)
        ensures
            keeps_config(old(self)@, final(self)@),
            diagnostics_done(old(self)@, final(self)@, r),
    {
        let ghost before = self@;
        let outcome = match &mut self.session {
            Some(session) => session.get_diagnostics(GetDiagnosticsRequest),
            None => {
                return self.done(
                    "adapter.show_diagnostics",
                    "Diagnostic: adapter is not running",
                );
            },
        };
        let ghost o = outcome;
        let ghost mid = self@;
        assert(mid == (AdapterStateView { session: mid.session, ..before }));
        let r = self.finish_show_diagnostics(outcome);
        assert(diagnostics_finished(mid, self@, o, r));
        r
    }

    /// Takes the outcome of asking for the adapter's diagnostics: they
    /// replace the panel's and are counted, or the exchange failed.
    pub fn finish_show_diagnostics(&mut self, outcome: Result<GetDiagnosticsResponse, AdapterHostError>) -> (r:
        AdapterStep)
        ensures
            keeps_config(old(self)@, final(self)@),
            diagnostics_finished(old(self)@, final(self)@, outcome, r),
    {
        match outcome {
            Ok(response) => {
                self.diagnostics = response.diagnostics;
                let count = u64_to_text(self.diagnostics.len() as u64);
                let message = concat2(count.as_str(), " adapter diagnostic(s)");
                self.done("adapter.show_diagnostics", message.as_str())
            },
            Err(error) => self.fail("adapter.show_diagnostics", error),
        }
    }

    fn disconnect(&mut self) -> (r: AdapterStep)
        ensures
            keeps_config(old(self)@, final(self)@),
            disconnect_done(old(self)@, final(self)@, r),
    {
        let outcome = match &mut self.session {
            Some(session) => match session.shutdown_request(ShutdownRequest) {
                Ok(_) => session.shutdown_transport(),
                Err(e) => Err(e),
            },
            None => {
                self.status = AdapterHostState::Stopped;
                return self.done("adapter.disconnect", "adapter disconnected");
            },
        };
        match outcome {
            Ok(()) => {
                self.session = None;
                self.status = AdapterHostState::Stopped;
                self.id = None;
                self.name = None;
                self.version = None;
                self.capabilities = None;
                self.done("adapter.disconnect", "adapter disconnected")
            },
            Err(error) => self.fail("adapter.disconnect", error),
        }
    }

    /// Requests a preview frame from the connected adapter and shows it;
    /// refused, as the viewport records, without a source, a connected
    /// adapter or preview support, and a failed exchange fails the view.
    pub fn request_viewport_frame(&mut self, viewport: &mut ViewportState, size: ViewportFrameRequestSize) -> (r:
        Result<String, String>)
        ensures
            final(viewport).id == old(viewport).id,
            final(viewport).source == old(viewport).source,
            old(viewport).source == ViewportSource::Unset ==> (r matches Err(m) && m@
                == "No adapter connected"@) && unset_refused(*old(viewport), *final(viewport))
                && final(self)@ == old(self)@,
            old(viewport).source is Adapter && old(self)@.status != AdapterHostState::Connected ==> (r matches Err(m)
                && m@ == "No adapter connected"@) && final(viewport).status == ViewportStatus::Error,
            old(viewport).source is Adapter && old(self)@.status == AdapterHostState::Connected
                && !(old(self)@.capabilities matches Some(c) && c.supports_viewport_preview) ==> (r matches Err(m)
                && m@ == "Adapter does not support viewport preview"@) && final(viewport).status
                == ViewportStatus::Error,
            old(viewport).source is Adapter && old(self)@.status == AdapterHostState::Connected
                && (old(self)@.capabilities matches Some(c) && c.supports_viewport_preview) ==> match old(
                self)@.session {
                None => (r matches Err(m) && m@ == "No adapter connected"@) && final(viewport).status
                    == ViewportStatus::Error,
                Some(s) => final(self)@.session matches Some(t) && t.sent == s.sent.push(
                    request_to(
                        s,
                        AdapterRequestMessage::GetViewportFrame(frame_request_for(*old(viewport), size)),
                    ),
                ) && one_more_outcome(s, t) && exchange_finished(
                    *old(viewport),
                    *final(viewport),
                    t.outcomes.last(),
                    r,
                ),
            },
            r is Ok ==> final(viewport).status == ViewportStatus::FrameAvailable,
            final(self)@.status == old(self)@.status,
            final(self)@.last_result == old(self)@.last_result,
    {
        let connected = self.is_connected();
        let preview = self.supports_viewport_preview();
        let request = match begin_viewport_frame_request(viewport, connected, preview, size) {
            Ok(request) => request,
            Err(message) => {
                return Err(message);
            },
        };
        let ghost mid = *viewport;
        assert(request == frame_request_for(*old(viewport), size));
        let outcome = match &mut self.session {
            Some(session) => session.get_viewport_frame(request),
            None => {
                viewport.apply_error(ViewportError::NoAdapterConnected);
                return Err(String::from_str("No adapter connected"));
            },
        };
        let ghost o = outcome;
        let r = finish_viewport_frame(viewport, outcome);
        assert(frame_finished(mid, *viewport, o, r));
        r
    }
}

/// What an adapter command does to the adapter panel and what it asks of
/// its caller; `unsaved` says whether the editor's scene has changes that
/// loading the adapter's scene would lose.
pub open spec fn adapter_executed(
    before: AdapterStateView,
    after: AdapterStateView,
    command: AdapterCommand,
    unsaved: bool,
    r: AdapterStep,
) -> bool {
    &&& keeps_config(before, after)
    &&& match command {
        AdapterCommand::Connect => if before.session is Some && before.status
            != AdapterHostState::Stopped {
            (r matches AdapterStep::Done(res) && res@ == (
                "adapter.connect"@,
                "adapter process already active"@,
            )) && after == (AdapterStateView {
                last_result: Some(("adapter.connect"@, "adapter process already active"@)),
                ..before
            })
        } else {
            (r matches AdapterStep::Spawn(spec) && match before.executable {
                Some(exe) => spec.executable@ == exe && spec.args@.len() == 0,
                None => spec.executable@ == "cargo"@ && spec.args@.map_values(
                    |a: String| a@,
                ) == crate::adapter_session::mock_adapter_args(),
            }) && after == before
        },
        AdapterCommand::LoadScene => if unsaved {
            (r matches AdapterStep::Done(res) && res@ == (
                "adapter.load_scene"@,
                "Diagnostic: "@ + UNSAVED_SCENE_MESSAGE@,
            )) && after == (AdapterStateView {
                last_result: Some(
                    ("adapter.load_scene"@, "Diagnostic: "@ + UNSAVED_SCENE_MESSAGE@),
                ),
                ..before
            })
        } else if before.session is None {
            (r matches AdapterStep::Done(res) && res@ == (
                "adapter.load_scene"@,
                "Diagnostic: adapter is not running"@,
            )) && after.last_result == Some(
                ("adapter.load_scene"@, "Diagnostic: adapter is not running"@),
            )
        } else {
            r is FetchScene && after == before
        },
        AdapterCommand::ShowStatus => (r matches AdapterStep::Done(res) && res@ == (
            "adapter.show_status"@,
            status_line_text(before),
        )) && after == (AdapterStateView {
            last_result: Some(("adapter.show_status"@, status_line_text(before))),
            ..before
        }),
        AdapterCommand::Handshake => handshake_done(before, after, r),
        AdapterCommand::LoadProject => load_project_done(before, after, r),
        AdapterCommand::ShowDiagnostics => diagnostics_done(before, after, r),
        AdapterCommand::Disconnect => disconnect_done(before, after, r),
    }
}

/// What `adapter.handshake` does: without a session it reports that no
/// adapter runs; else the adapter's description is recorded and it is
/// connected, or the exchange failed.
pub open spec fn handshake_done(before: AdapterStateView, after: AdapterStateView, r: AdapterStep) -> bool {
    r matches AdapterStep::Done(res) && res@.0 == "adapter.handshake"@ && after.last_result == Some(
        res@,
    ) && if before.session is None {
        res@.1 == "Diagnostic: adapter is not running"@ && after.status == before.status
            && after.session == before.session
    } else {
        ||| res@.1 == "handshake succeeded"@ && after.status == AdapterHostState::Connected && (
        after.session matches Some(s) && s.state == AdapterHostState::Connected && (s.info matches Some(i)
            && after.id == Some(i.id@) && after.name == Some(i.name@) && after.version == Some(
            i.version@,
        ) && after.capabilities == Some(i.capabilities)))
        ||| is_failure_text(res@.1) && after.status == AdapterHostState::Failed
    } && match before.session {
        None => true,
        Some(bs) => after.session matches Some(s) && handshake_sent(bs, s, before.project_path)
            && one_more_outcome(bs, s) && exists|o: Result<AdapterSessionInfo, AdapterHostError>|
            handshake_answer(s.outcomes.last(), o) && #[trigger] handshake_finished(
                AdapterStateView { session: after.session, ..before },
                after,
                o,
                r,
            ),
    }
}

/// What the outcome of a handshake does to the panel: the adapter's
/// description is recorded and it is connected, or the failure is reported.
pub open spec fn handshake_finished(
    before: AdapterStateView,
    after: AdapterStateView,
    outcome: Result<AdapterSessionInfo, AdapterHostError>,
    r: AdapterStep,
) -> bool {
    match outcome {
        Ok(info) => (r matches AdapterStep::Done(res) && res@ == (
            "adapter.handshake"@,
            "handshake succeeded"@,
        )) && after == (AdapterStateView {
            status: AdapterHostState::Connected,
            id: Some(info.id@),
            name: Some(info.name@),
            version: Some(info.version@),
            capabilities: Some(info.capabilities),
            last_result: Some(("adapter.handshake"@, "handshake succeeded"@)),
            ..before
        }),
        Err(e) => (r matches AdapterStep::Done(res) && res@ == (
            "adapter.handshake"@,
            "Diagnostic: "@ + host_error_text(e),
        )) && after == (AdapterStateView {
            status: AdapterHostState::Failed,
            last_result: Some(("adapter.handshake"@, "Diagnostic: "@ + host_error_text(e))),
            ..before
        }),
    }
}

/// The message that reports a loaded project.
pub open spec fn loaded_project_text(p: LoadProjectResponse) -> Seq<char> {
    "loaded adapter project "@ + p.display_name@
}

/// What the outcome of loading the adapter's project does to the panel:
/// the project's name is reported, or the failure is.
pub open spec fn load_project_finished(
    before: AdapterStateView,
    after: AdapterStateView,
    outcome: Result<LoadProjectResponse, AdapterHostError>,
    r: AdapterStep,
) -> bool {
    match outcome {
        Ok(p) => (r matches AdapterStep::Done(res) && res@ == (
            "adapter.load_project"@,
            loaded_project_text(p),
        )) && after == (AdapterStateView {
            last_result: Some(("adapter.load_project"@, loaded_project_text(p))),
            ..before
        }),
        Err(e) => (r matches AdapterStep::Done(res) && res@ == (
            "adapter.load_project"@,
            "Diagnostic: "@ + host_error_text(e),
        )) && after == (AdapterStateView {
            status: AdapterHostState::Failed,
            last_result: Some(("adapter.load_project"@, "Diagnostic: "@ + host_error_text(e))),
            ..before
        }),
    }
}

/// `after` is `before` with one more request sent: a handshake at protocol
/// version 0 from the editor `elcarax-app` for `project_path`, numbered
/// with `before`'s next request number.
pub open spec fn handshake_sent(before: SessionView, after: SessionView, project_path: Option<Seq<char>>) -> bool {
    &&& after.sent.len() == before.sent.len() + 1
    &&& after.sent.take(before.sent.len() as int) == before.sent
    &&& after.sent.last().request_id == AdapterRequestId(before.next_request_id)
    &&& after.sent.last().message matches AdapterRequestMessage::Handshake(h) && h.protocol_version.0
        == 0 && h.editor_version@ == "elcarax-app"@ && opt_view(h.project_path) == project_path
}

/// `after` is `before` with one more request sent: loading the project at
/// `project_path`, numbered with `before`'s next request number.
pub open spec fn load_project_sent(before: SessionView, after: SessionView, project_path: Option<Seq<char>>) -> bool {
    &&& after.sent.len() == before.sent.len() + 1
    &&& after.sent.take(before.sent.len() as int) == before.sent
    &&& after.sent.last().request_id == AdapterRequestId(before.next_request_id)
    &&& after.sent.last().message matches AdapterRequestMessage::LoadProject(l) && opt_view(
        l.project_path,
    ) == project_path
}

/// What `adapter.load_project` does: the project's name is reported, or
/// the exchange failed.
pub open spec fn load_project_done(before: AdapterStateView, after: AdapterStateView, r: AdapterStep) -> bool {
    r matches AdapterStep::Done(res) && res@.0 == "adapter.load_project"@ && after.last_result
        == Some(res@) && if before.session is None {
        res@.1 == "Diagnostic: adapter is not running"@ && after.status == before.status
    } else {
        ||| (exists|name: Seq<char>| res@.1 == "loaded adapter project "@ + name) && after.status
            == before.status
        ||| is_failure_text(res@.1) && after.status == AdapterHostState::Failed
    } && match before.session {
        None => true,
        Some(bs) => after.session matches Some(s) && load_project_sent(bs, s, before.project_path)
            && one_more_outcome(bs, s) && exists|o: Result<LoadProjectResponse, AdapterHostError>|
            load_project_answer(s.outcomes.last(), o) && #[trigger] load_project_finished(
                AdapterStateView { session: after.session, ..before },
                after,
                o,
                r,
            ),
    }
}

/// What `adapter.show_diagnostics` does: the adapter's diagnostics replace
/// the panel's and are counted, or the exchange failed.
pub open spec fn diagnostics_done(before: AdapterStateView, after: AdapterStateView, r: AdapterStep) -> bool {
    r matches AdapterStep::Done(res) && res@.0 == "adapter.show_diagnostics"@ && after.last_result
        == Some(res@) && if before.session is None {
        res@.1 == "Diagnostic: adapter is not running"@ && after.status == before.status
            && after.diagnostics == before.diagnostics
    } else {
        ||| res@.1 == decimal(after.diagnostics.len()) + " adapter diagnostic(s)"@ && after.status
            == before.status && (after.session matches Some(s) && s.diagnostics == after.diagnostics)
        ||| is_failure_text(res@.1) && after.status == AdapterHostState::Failed
            && after.diagnostics == before.diagnostics
    } && match before.session {
        None => true,
        Some(bs) => after.session matches Some(s) && s.sent == bs.sent.push(
            request_to(bs, AdapterRequestMessage::GetDiagnostics(GetDiagnosticsRequest)),
        ) && one_more_outcome(bs, s) && exists|o: Result<GetDiagnosticsResponse, AdapterHostError>|
            diagnostics_answer(s.outcomes.last(), o) && #[trigger] diagnostics_finished(
                AdapterStateView { session: after.session, ..before },
                after,
                o,
                r,
            ),
    }
}

/// What the outcome of asking for the adapter's diagnostics does to the
/// panel: they replace the panel's and are counted, or the failure is
/// reported.
pub open spec fn diagnostics_finished(
    before: AdapterStateView,
    after: AdapterStateView,
    outcome: Result<GetDiagnosticsResponse, AdapterHostError>,
    r: AdapterStep,
) -> bool {
    match outcome {
        Ok(d) => {
            let message = decimal(d.diagnostics@.len()) + " adapter diagnostic(s)"@;
            &&& r matches AdapterStep::Done(res) && res@ == ("adapter.show_diagnostics"@, message)
            &&& after == (AdapterStateView {
                diagnostics: d.diagnostics@,
                last_result: Some(("adapter.show_diagnostics"@, message)),
                ..before
            })
        },
        Err(e) => (r matches AdapterStep::Done(res) && res@ == (
            "adapter.show_diagnostics"@,
            "Diagnostic: "@ + host_error_text(e),
        )) && after == (AdapterStateView {
            status: AdapterHostState::Failed,
            last_result: Some(("adapter.show_diagnostics"@, "Diagnostic: "@ + host_error_text(e))),
            ..before
        }),
    }
}

/// What `adapter.disconnect` does: without a session the panel is marked
/// stopped; else the adapter is shut down and forgotten, or the exchange
/// failed and the session stays.
pub open spec fn disconnect_done(before: AdapterStateView, after: AdapterStateView, r: AdapterStep) -> bool {
    r matches AdapterStep::Done(res) && res@.0 == "adapter.disconnect"@ && after.last_result == Some(
        res@,
    ) && if before.session is None {
        res@.1 == "adapter disconnected"@ && after.status == AdapterHostState::Stopped
            && after.session is None && after.id == before.id && after.name == before.name
    } else {
        ||| res@.1 == "adapter disconnected"@ && after.session is None && cleared(after)
        ||| is_failure_text(res@.1) && after.status == AdapterHostState::Failed && after.session
            is Some
    }
}

impl<T: AdapterTransport> Default for AdapterState<T> {
    fn default() -> (r: Self)
        ensures
            r@.session is None,
            r@.status == AdapterHostState::Disconnected,
            r@.last_result is None,
            r@.executable is None,
            r@.project_path is None,
            !r@.auto_connect,
    {
        AdapterState::new(AdapterLaunchConfig::default())
    }
}

} // verus!
