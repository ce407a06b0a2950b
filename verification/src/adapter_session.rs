//! A session with one adapter: requests are numbered and sent, events that
//! arrive before the answer are kept, and the answer is checked against
//! the request before the typed result is handed back.
use crate::adapter_frame::{frame_error_text, FrameError};
use crate::adapter_protocol::{
    adapter_error_text, AdapterCapabilities, AdapterDiagnostic, AdapterError, AdapterEvent,
    AdapterId, AdapterLine, AdapterLog, AdapterName, AdapterRequest, AdapterRequestId,
    AdapterRequestMessage, AdapterResponse, AdapterResponseMessage, AdapterVersion,
    ErrorResponse, GetDiagnosticsRequest, GetDiagnosticsResponse, GetViewportFrameRequest,
    GetViewportFrameResponse, HandshakeRequest, LoadProjectRequest, LoadProjectResponse,
    ShutdownRequest, ShutdownResponse,
};
use crate::text::{concat2, decimal, u64_to_text};
use vstd::prelude::*;

verus! {

#[derive(Debug, Clone, Copy, PartialEq, Eq, Structural)]
pub enum AdapterHostState {
    Disconnected,
    Starting,
    Connected,
    Failed,
    Stopped,
}

#[derive(Debug, Clone, PartialEq, Eq)]
pub enum AdapterHostError {
    SpawnFailed(String),
    MissingStdin,
    MissingStdout,
    TransportWrite(String),
    TransportRead(String),
    InvalidFrame(String),
    AdapterExited,
    MismatchedRequestId { expected: AdapterRequestId, actual: AdapterRequestId },
    UnexpectedResponse(String),
    Adapter(AdapterError),
    WorkerUnavailable,
    TimedOut,
}

pub open spec fn host_error_text(e: AdapterHostError) -> Seq<char> {
    match e {
        AdapterHostError::SpawnFailed(m) => "failed to spawn adapter: "@ + m@,
        AdapterHostError::MissingStdin => "adapter process stdin was not captured"@,
        AdapterHostError::MissingStdout => "adapter process stdout was not captured"@,
        AdapterHostError::TransportWrite(m) => "adapter write failed: "@ + m@,
        AdapterHostError::TransportRead(m) => "adapter read failed: "@ + m@,
        AdapterHostError::InvalidFrame(m) => "invalid adapter frame: "@ + m@,
        AdapterHostError::AdapterExited => "adapter exited before response"@,
        AdapterHostError::MismatchedRequestId { expected, actual } => "adapter response request ID mismatch: expected "@
            + decimal(expected.0 as nat) + ", received "@ + decimal(actual.0 as nat),
        AdapterHostError::UnexpectedResponse(m) => "unexpected adapter response: "@ + m@,
        AdapterHostError::Adapter(e) => adapter_error_text(e),
        AdapterHostError::WorkerUnavailable => "adapter worker is unavailable"@,
        AdapterHostError::TimedOut => "timed out waiting for adapter response"@,
    }
}

impl AdapterHostError {
    pub fn message(&self) -> (r: String)
        ensures
            r@ == host_error_text(*self),
    {
        match self {
            AdapterHostError::SpawnFailed(m) => concat2("failed to spawn adapter: ", m.as_str()),
            AdapterHostError::MissingStdin => String::from_str(
                "adapter process stdin was not captured",
            ),
            AdapterHostError::MissingStdout => String::from_str(
                "adapter process stdout was not captured",
            ),
            AdapterHostError::TransportWrite(m) => concat2("adapter write failed: ", m.as_str()),
            AdapterHostError::TransportRead(m) => concat2("adapter read failed: ", m.as_str()),
            AdapterHostError::InvalidFrame(m) => concat2("invalid adapter frame: ", m.as_str()),
            AdapterHostError::AdapterExited => String::from_str("adapter exited before response"),
            AdapterHostError::MismatchedRequestId { expected, actual } => {
                let e = u64_to_text(expected.0);
                let a = u64_to_text(actual.0);
                let head = concat2("adapter response request ID mismatch: expected ", e.as_str());
                let head = concat2(head.as_str(), ", received ");
                concat2(head.as_str(), a.as_str())
            },
            AdapterHostError::UnexpectedResponse(m) => concat2(
                "unexpected adapter response: ",
                m.as_str(),
            ),
            AdapterHostError::Adapter(e) => e.message(),
            AdapterHostError::WorkerUnavailable => String::from_str("adapter worker is unavailable"),
            AdapterHostError::TimedOut => String::from_str("timed out waiting for adapter response"),
        }
    }

    /// The host error for a frame error: an I/O error as a failed read, a
    /// stream that ends as an exited adapter, anything else as an invalid
    /// frame with the error's text.
    pub fn from_frame_error(error: FrameError) -> (r: Self)
        ensures
            match error {
                FrameError::Io(m) => r == AdapterHostError::TransportRead(m),
                FrameError::UnexpectedEof => r == AdapterHostError::AdapterExited,
                other => r matches AdapterHostError::InvalidFrame(t) && t@ == frame_error_text(
                    other,
                ),
            },
    {
        match error {
            FrameError::Io(m) => AdapterHostError::TransportRead(m),
            FrameError::UnexpectedEof => AdapterHostError::AdapterExited,
            other => AdapterHostError::InvalidFrame(other.message()),
        }
    }
}

/// The program that runs an adapter, with its arguments.
#[derive(Debug, Clone, PartialEq, Eq)]
pub struct AdapterProcessSpec {
    pub executable: String,
    pub args: Vec<String>,
}

impl AdapterProcessSpec {
    pub fn new(executable: &str) -> (r: Self)
        ensures
            r.executable@ == executable@,
            r.args@.len() == 0,
    {
        AdapterProcessSpec { executable: executable.to_owned(), args: Vec::new() }
    }

    /// The game adapter over standard input and output: the mock adapter
    /// run by cargo.
    pub fn stdio_game_adapter() -> (r: Self)
        ensures
            r.executable@ == "cargo"@,
            r.args@.map_values(|a: String| a@) == mock_adapter_args(),
    {
        Self::cargo_mock_adapter()
    }

    pub fn cargo_mock_adapter() -> (r: Self)
        ensures
            r.executable@ == "cargo"@,
            r.args@.map_values(|a: String| a@) == mock_adapter_args(),
    {
        let mut args: Vec<String> = Vec::new();
        args.push(String::from_str("run"));
        args.push(String::from_str("--quiet"));
        args.push(String::from_str("-p"));
        args.push(String::from_str("elcarax_game_adapter"));
        assert(args@.map_values(|a: String| a@) =~= mock_adapter_args());
        AdapterProcessSpec { executable: String::from_str("cargo"), args }
    }

    /// The spec with one more argument.
    pub fn with_arg(self, arg: &str) -> (r: Self)
        ensures
            r.executable == self.executable,
            r.args@.len() == self.args@.len() + 1,
            r.args@.drop_last() == self.args@,
            r.args@.last()@ == arg@,
    {
        let mut args = self.args;
        let ghost before = args@;
        args.push(arg.to_owned());
        assert(args@.drop_last() =~= before);
        AdapterProcessSpec { executable: self.executable, args }
    }
}

pub open spec fn mock_adapter_args() -> Seq<Seq<char>> {
    seq!["run"@, "--quiet"@, "-p"@, "elcarax_game_adapter"@]
}

/// Who the adapter said it is, and what it can do.
#[derive(Debug, Clone, PartialEq, Eq)]
pub struct AdapterSessionInfo {
    pub id: AdapterId,
    pub name: AdapterName,
    pub version: AdapterVersion,
    pub capabilities: AdapterCapabilities,
}

/// Carries requests to an adapter and its lines back. An implementation
/// turns requests into frames and frames into lines; a frame that cannot
/// be read is reported as an error, and the end of the adapter's output as
/// no line.
pub trait AdapterTransport {
    fn send_request(&mut self, request: &AdapterRequest) -> Result<(), AdapterHostError>;

    fn recv_line(&mut self) -> Result<Option<AdapterLine>, AdapterHostError>;

    fn shutdown(&mut self) -> Result<(), AdapterHostError>;
}

/// What one received item does to an exchange.
#[derive(Debug, PartialEq, Eq)]
pub enum ExchangeStep {
    Continue,
    Done(Result<AdapterResponse, AdapterHostError>),
}

/// What is known of a session besides its transport.
pub struct SessionView {
    pub state: AdapterHostState,
    pub next_request_id: u64,
    pub diagnostics: Seq<AdapterDiagnostic>,
    pub logs: Seq<AdapterLog>,
    pub info: Option<AdapterSessionInfo>,
    /// The requests handed to the transport, in order.
    pub sent: Seq<AdapterRequest>,
    /// What each exchange came to, in order: the answer, or the error.
    pub outcomes: Seq<Result<AdapterResponseMessage, AdapterHostError>>,
}

/// A session is left as it was, but for its state.
pub open spec fn same_but_state(a: SessionView, b: SessionView) -> bool {
    &&& a.next_request_id == b.next_request_id
    &&& a.diagnostics == b.diagnostics
    &&& a.logs == b.logs
    &&& a.info == b.info
    &&& a.sent == b.sent
    &&& a.outcomes == b.outcomes
}

/// The effect of receiving `item` while waiting for the answer to request
/// `expected`.
pub open spec fn received(
    before: SessionView,
    after: SessionView,
    expected: AdapterRequestId,
    item: Result<Option<AdapterLine>, AdapterHostError>,
    step: ExchangeStep,
) -> bool {
    match item {
        Err(e) => step == ExchangeStep::Done(Err(e)) && after == before,
        Ok(None) => step == ExchangeStep::Done(Err(AdapterHostError::AdapterExited))
            && after.state == AdapterHostState::Failed && same_but_state(after, before),
        Ok(Some(AdapterLine::Event(AdapterEvent::Diagnostic(d)))) => step == ExchangeStep::Continue
            && after.diagnostics == before.diagnostics.push(d) && after.state == before.state
            && after.logs == before.logs && after.info == before.info && after.next_request_id
            == before.next_request_id && after.sent == before.sent && after.outcomes == before.outcomes,
        Ok(Some(AdapterLine::Event(AdapterEvent::Log(l)))) => step == ExchangeStep::Continue
            && after.logs == before.logs.push(l) && after.state == before.state
            && after.diagnostics == before.diagnostics && after.info == before.info
            && after.next_request_id == before.next_request_id && after.sent == before.sent
            && after.outcomes == before.outcomes,
        Ok(Some(AdapterLine::Response(resp))) => if resp.request_id != expected {
            step == ExchangeStep::Done(
                Err(
                    AdapterHostError::MismatchedRequestId {
                        expected,
                        actual: resp.request_id,
                    },
                ),
            ) && after == before
        } else {
            match resp.message {
                AdapterResponseMessage::Error(ErrorResponse { error }) => step
                    == ExchangeStep::Done(Err(AdapterHostError::Adapter(error))) && after.state
                    == AdapterHostState::Failed && same_but_state(after, before),
                _ => step == ExchangeStep::Done(Ok(resp)) && after == before,
            }
        },
    }
}

/// What any exchange leaves of a session: its numbering and identity, its
/// state or a failure, and every diagnostic and log it had.
pub open spec fn exchange_keeps(before: SessionView, after: SessionView) -> bool {
    &&& after.next_request_id == before.next_request_id
    &&& after.info == before.info
    &&& (after.state == before.state || after.state == AdapterHostState::Failed)
    &&& after.diagnostics.len() >= before.diagnostics.len()
    &&& after.diagnostics.take(before.diagnostics.len() as int) == before.diagnostics
    &&& after.logs.len() >= before.logs.len()
    &&& after.logs.take(before.logs.len() as int) == before.logs
}

/// A failed exchange leaves the session as it was or failed, with every
/// diagnostic and log it had.
pub open spec fn failure_keeps(before: SessionView, after: SessionView) -> bool {
    &&& (after.state == before.state || after.state == AdapterHostState::Failed)
    &&& after.info == before.info
    &&& after.diagnostics.len() >= before.diagnostics.len()
    &&& after.diagnostics.take(before.diagnostics.len() as int) == before.diagnostics
    &&& after.logs.len() >= before.logs.len()
    &&& after.logs.take(before.logs.len() as int) == before.logs
}

/// The request a session sends next with `message`: numbered with its
/// next request number.
pub open spec fn request_to(v: SessionView, message: AdapterRequestMessage) -> AdapterRequest {
    AdapterRequest { request_id: AdapterRequestId(v.next_request_id), message }
}

/// What an exchange came to: the answer's message, or the error.
pub open spec fn exchange_outcome(r: Result<(Vec<AdapterEvent>, AdapterResponse), AdapterHostError>) -> Result<
    AdapterResponseMessage,
    AdapterHostError,
> {
    match r {
        Ok((_, resp)) => Ok(resp.message),
        Err(e) => Err(e),
    }
}

/// What a project answer gives: the project response, or an unexpected
/// response error naming what came instead; an error stays as it was.
pub open spec fn load_project_answer(
    response: Result<AdapterResponseMessage, AdapterHostError>,
    r: Result<LoadProjectResponse, AdapterHostError>,
) -> bool {
    match response {
        Err(e) => r == Err::<LoadProjectResponse, AdapterHostError>(e),
        Ok(AdapterResponseMessage::LoadProject(p)) => r == Ok::<LoadProjectResponse, AdapterHostError>(p),
        Ok(other) => r matches Err(AdapterHostError::UnexpectedResponse(m)) && m@ == response_kind_name(
            other,
        ),
    }
}

/// What a frame answer gives: the frame response, or an unexpected response
/// error naming what came instead; an error stays as it was.
pub open spec fn viewport_frame_answer(
    response: Result<AdapterResponseMessage, AdapterHostError>,
    r: Result<GetViewportFrameResponse, AdapterHostError>,
) -> bool {
    match response {
        Err(e) => r == Err::<GetViewportFrameResponse, AdapterHostError>(e),
        Ok(AdapterResponseMessage::GetViewportFrame(v)) => r == Ok::<
            GetViewportFrameResponse,
            AdapterHostError,
        >(v),
        Ok(other) => r matches Err(AdapterHostError::UnexpectedResponse(m)) && m@ == response_kind_name(
            other,
        ),
    }
}

/// What a diagnostics answer gives: the diagnostics response, or an
/// unexpected response error naming what came instead; an error stays as it
/// was.
pub open spec fn diagnostics_answer(
    response: Result<AdapterResponseMessage, AdapterHostError>,
    r: Result<GetDiagnosticsResponse, AdapterHostError>,
) -> bool {
    match response {
        Err(e) => r == Err::<GetDiagnosticsResponse, AdapterHostError>(e),
        Ok(AdapterResponseMessage::GetDiagnostics(d)) => r == Ok::<
            GetDiagnosticsResponse,
            AdapterHostError,
        >(d),
        Ok(other) => r matches Err(AdapterHostError::UnexpectedResponse(m)) && m@ == response_kind_name(
            other,
        ),
    }
}

/// What a shutdown answer gives: the shutdown response, or an unexpected
/// response error naming what came instead; an error stays as it was.
pub open spec fn shutdown_answer(
    response: Result<AdapterResponseMessage, AdapterHostError>,
    r: Result<ShutdownResponse, AdapterHostError>,
) -> bool {
    match response {
        Err(e) => r == Err::<ShutdownResponse, AdapterHostError>(e),
        Ok(AdapterResponseMessage::Shutdown(s)) => r == Ok::<ShutdownResponse, AdapterHostError>(s),
        Ok(other) => r matches Err(AdapterHostError::UnexpectedResponse(m)) && m@ == response_kind_name(
            other,
        ),
    }
}

/// What a handshake answer gives: the adapter's description, or an
/// unexpected response error; an error stays as it was.
pub open spec fn handshake_answer(
    response: Result<AdapterResponseMessage, AdapterHostError>,
    r: Result<AdapterSessionInfo, AdapterHostError>,
) -> bool {
    match response {
        Err(e) => r == Err::<AdapterSessionInfo, AdapterHostError>(e),
        Ok(AdapterResponseMessage::Handshake(h)) => r matches Ok(i) && same_info(
            i,
            AdapterSessionInfo {
                id: h.adapter_id,
                name: h.adapter_name,
                version: h.adapter_version,
                capabilities: h.capabilities,
            },
        ),
        Ok(_) => r matches Err(AdapterHostError::UnexpectedResponse(m)) && m@
            == "handshake did not return handshake response"@,
    }
}

/// `after` is `before` with the outcome of one more exchange recorded last.
pub open spec fn one_more_outcome(
    before: SessionView,
    after: SessionView,
) -> bool {
    &&& after.outcomes.len() == before.outcomes.len() + 1
    &&& after.outcomes.drop_last() == before.outcomes
}

/// The next request number after `n`: one more, stopping at the largest.
pub open spec fn next_id_after(n: u64) -> u64 {
    if n == u64::MAX {
        n
    } else {
        (n + 1) as u64
    }
}

/// The name of a response's kind, used to report an unexpected response.
pub open spec fn response_kind_name(m: AdapterResponseMessage) -> Seq<char> {
    match m {
        AdapterResponseMessage::Handshake(_) => "Handshake"@,
        AdapterResponseMessage::LoadProject(_) => "LoadProject"@,
        AdapterResponseMessage::GetDiagnostics(_) => "GetDiagnostics"@,
        AdapterResponseMessage::GetViewportFrame(_) => "GetViewportFrame"@,
        AdapterResponseMessage::Shutdown(_) => "Shutdown"@,
        AdapterResponseMessage::Error(_) => "Error"@,
    }
}

fn response_kind(m: &AdapterResponseMessage) -> (r: String)
    ensures
        r@ == response_kind_name(*m),
{
    match m {
        AdapterResponseMessage::Handshake(_) => String::from_str("Handshake"),
        AdapterResponseMessage::LoadProject(_) => String::from_str("LoadProject"),
        AdapterResponseMessage::GetDiagnostics(_) => String::from_str("GetDiagnostics"),
        AdapterResponseMessage::GetViewportFrame(_) => String::from_str("GetViewportFrame"),
        AdapterResponseMessage::Shutdown(_) => String::from_str("Shutdown"),
        AdapterResponseMessage::Error(_) => String::from_str("Error"),
    }
}

/// A session with an adapter over a transport.
pub struct AdapterSession<T> {
    transport: T,
    state: AdapterHostState,
    next_request_id: u64,
    diagnostics: Vec<AdapterDiagnostic>,
    logs: Vec<AdapterLog>,
    info: Option<AdapterSessionInfo>,
    sent: Ghost<Seq<AdapterRequest>>,
    outcomes: Ghost<Seq<Result<AdapterResponseMessage, AdapterHostError>>>,
}

impl<T> View for AdapterSession<T> {
    type V = SessionView;

    closed spec fn view(&self) -> SessionView {
        SessionView {
            state: self.state,
            next_request_id: self.next_request_id,
            diagnostics: self.diagnostics@,
            logs: self.logs@,
            info: self.info,
            sent: self.sent@,
            outcomes: self.outcomes@,
        }
    }
}

impl<T: AdapterTransport> AdapterSession<T> {
    /// A session that is starting: no answer yet, requests numbered from 1.
    pub fn new(transport: T) -> (r: Self)
        ensures
            r@.state == AdapterHostState::Starting,
            r@.next_request_id == 1,
            r@.diagnostics.len() == 0,
            r@.logs.len() == 0,
            r@.info is None,
            r@.sent.len() == 0,
            r@.outcomes.len() == 0,
            r.transport_view() == transport,
    {
        AdapterSession {
            transport,
            state: AdapterHostState::Starting,
            next_request_id: 1,
            diagnostics: Vec::new(),
            logs: Vec::new(),
            info: None,
            sent: Ghost(Seq::empty()),
            outcomes: Ghost(Seq::empty()),
        }
    }

    pub closed spec fn transport_view(&self) -> T {
        self.transport
    }

    pub fn state(&self) -> (r: AdapterHostState)
        ensures
            r == self@.state,
    {
        self.state
    }

    /// The diagnostics the adapter reported, by event or on request.
    pub fn diagnostics(&self) -> (r: &[AdapterDiagnostic])
        ensures
            r@ == self@.diagnostics,
    {
        self.diagnostics.as_slice()
    }

    pub fn logs(&self) -> (r: &[AdapterLog])
        ensures
            r@ == self@.logs,
    {
        self.logs.as_slice()
    }

    /// Who the adapter is, once a handshake succeeded.
    pub fn info(&self) -> (r: Option<&AdapterSessionInfo>)
        ensures
            r == match self@.info {
                Some(i) => Some(&i),
                None => None::<&AdapterSessionInfo>,
            },
    {
        match &self.info {
            Some(i) => Some(i),
            None => None,
        }
    }

    pub fn transport(&self) -> (r: &T)
        ensures
            *r == self.transport_view(),
    {
        &self.transport
    }

    /// The number for the next request; numbers count up from 1 and stop
    /// at the largest.
    fn next_request_id(&mut self) -> (r: AdapterRequestId)
        ensures
            r.0 == old(self)@.next_request_id,
            final(self)@.next_request_id == next_id_after(old(self)@.next_request_id),
            final(self)@.state == old(self)@.state,
            final(self)@.diagnostics == old(self)@.diagnostics,
            final(self)@.logs == old(self)@.logs,
            final(self)@.info == old(self)@.info,
            final(self)@.sent == old(self)@.sent,
            final(self)@.outcomes == old(self)@.outcomes,
    {
        let id = AdapterRequestId(self.next_request_id);
        self.next_request_id = self.next_request_id.saturating_add(1);
        id
    }

    /// Takes one item received while waiting for the answer to `expected`:
    /// an error ends the wait with it; the end of the adapter's output fails
    /// the session; an event is kept and the wait goes on; an answer to
    /// another request is refused; an error answer fails the session; any
    /// other answer ends the wait.
    pub fn on_received(
        &mut self,
        expected: AdapterRequestId,
        item: Result<Option<AdapterLine>, AdapterHostError>,
    ) -> (r: ExchangeStep)
        ensures
            received(old(self)@, final(self)@, expected, item, r),
            final(self).transport_view() == old(self).transport_view(),
    {
        match item {
            Err(e) => ExchangeStep::Done(Err(e)),
            Ok(None) => {
                self.state = AdapterHostState::Failed;
                ExchangeStep::Done(Err(AdapterHostError::AdapterExited))
            },
            Ok(Some(AdapterLine::Event(AdapterEvent::Diagnostic(d)))) => {
                self.diagnostics.push(d);
                ExchangeStep::Continue
            },
            Ok(Some(AdapterLine::Event(AdapterEvent::Log(l)))) => {
                self.logs.push(l);
                ExchangeStep::Continue
            },
            Ok(Some(AdapterLine::Response(response))) => {
                if response.request_id.0 != expected.0 {
                    return ExchangeStep::Done(
                        Err(
                            AdapterHostError::MismatchedRequestId {
                                expected,
                                actual: response.request_id,
                            },
                        ),
                    );
                }
                match response.message {
                    AdapterResponseMessage::Error(ErrorResponse { error }) => {
                        self.state = AdapterHostState::Failed;
                        ExchangeStep::Done(Err(AdapterHostError::Adapter(error)))
                    },
                    message => ExchangeStep::Done(
                        Ok(AdapterResponse { request_id: response.request_id, message }),
                    ),
                }
            },
        }
    }

    /// Sends a request and waits for its answer, keeping the events that
    /// come first. A transport that fails to send leaves the session as it
    /// was. The wait gives up, as timed out, after `u64::MAX` lines without
    /// an answer.
    pub fn send_request(&mut self, request: AdapterRequest) -> (r: Result<
        (Vec<AdapterEvent>, AdapterResponse),
        AdapterHostError,
    >)
        ensures
            exchange_keeps(old(self)@, final(self)@),
            final(self)@.sent == old(self)@.sent.push(request),
            final(self)@.outcomes == old(self)@.outcomes.push(exchange_outcome(r)),
            r matches Ok((_, resp)) ==> resp.request_id == request.request_id
                && !(resp.message is Error) && final(self)@.state == old(self)@.state,
    {
        let r = self.exchange(request);
        self.outcomes = Ghost(self.outcomes@.push(exchange_outcome(r)));
        r
    }

    fn exchange(&mut self, request: AdapterRequest) -> (r: Result<
        (Vec<AdapterEvent>, AdapterResponse),
        AdapterHostError,
    >)
        ensures
            exchange_keeps(old(self)@, final(self)@),
            final(self)@.sent == old(self)@.sent.push(request),
            final(self)@.outcomes == old(self)@.outcomes,
            r matches Ok((_, resp)) ==> resp.request_id == request.request_id
                && !(resp.message is Error) && final(self)@.state == old(self)@.state,
    {
        let expected = request.request_id;
        let ghost start = self@;
        proof {
            assert(start.diagnostics.take(start.diagnostics.len() as int) =~= start.diagnostics);
            assert(start.logs.take(start.logs.len() as int) =~= start.logs);
        }
        let sent = self.transport.send_request(&request);
        self.sent = Ghost(self.sent@.push(request));
        match sent {
            Ok(()) => {},
            Err(e) => {
                return Err(e);
            },
        }
        let mut events: Vec<AdapterEvent> = Vec::new();
        let mut budget: u64 = u64::MAX;
        while budget > 0
            invariant
                exchange_keeps(start, self@),
                self@.sent == start.sent.push(request),
                self@.outcomes == start.outcomes,
                self@.state == start.state,
                start == old(self)@,
                expected == request.request_id,
            decreases budget,
        {
            let item = self.transport.recv_line();
            let kept = match &item {
                Ok(Some(AdapterLine::Event(e))) => Some(e.clone()),
                _ => None,
            };
            let ghost before = self@;
            let step = self.on_received(expected, item);
            proof {
                assert(self@.diagnostics.take(start.diagnostics.len() as int) =~= before.diagnostics.take(
                    start.diagnostics.len() as int,
                ));
                assert(self@.logs.take(start.logs.len() as int) =~= before.logs.take(
                    start.logs.len() as int,
                ));
            }
            match step {
                ExchangeStep::Continue => {
                    match kept {
                        Some(e) => events.push(e),
                        None => {},
                    }
                },
                ExchangeStep::Done(Ok(response)) => {
                    return Ok((events, response));
                },
                ExchangeStep::Done(Err(e)) => {
                    return Err(e);
                },
            }
            budget = budget - 1;
        }
        Err(AdapterHostError::TimedOut)
    }

    fn send(&mut self, message: AdapterRequestMessage) -> (r: Result<
        AdapterResponseMessage,
        AdapterHostError,
    >)
        ensures
            final(self)@.next_request_id == next_id_after(old(self)@.next_request_id),
            final(self)@.info == old(self)@.info,
            failure_keeps(old(self)@, final(self)@),
            final(self)@.sent == old(self)@.sent.push(request_to(old(self)@, message)),
            final(self)@.outcomes == old(self)@.outcomes.push(r),
            r matches Ok(m) ==> final(self)@.state == old(self)@.state && !(m is Error),
    {
        let request_id = self.next_request_id();
        let request = AdapterRequest::new(request_id, message);
        match self.send_request(request) {
            Ok((_events, response)) => Ok(response.message),
            Err(e) => Err(e),
        }
    }

    /// What a handshake answer does: a handshake response records who the
    /// adapter is and connects the session; any other answer fails it.
    pub fn finish_handshake(&mut self, response: Result<AdapterResponseMessage, AdapterHostError>) -> (r: Result<
        AdapterSessionInfo,
        AdapterHostError,
    >)
        ensures
            final(self).transport_view() == old(self).transport_view(),
            final(self)@.sent == old(self)@.sent,
            final(self)@.outcomes == old(self)@.outcomes,
            match response {
                Err(e) => r == Err::<AdapterSessionInfo, AdapterHostError>(e) && final(self)@
                    == old(self)@,
                Ok(AdapterResponseMessage::Handshake(h)) => {
                    let info = AdapterSessionInfo {
                        id: h.adapter_id,
                        name: h.adapter_name,
                        version: h.adapter_version,
                        capabilities: h.capabilities,
                    };
                    &&& r matches Ok(i) && same_info(i, info)
                    &&& final(self)@.info == Some(info)
                    &&& final(self)@.state == AdapterHostState::Connected
                    &&& final(self)@.next_request_id == old(self)@.next_request_id
                    &&& final(self)@.diagnostics == old(self)@.diagnostics
                    &&& final(self)@.logs == old(self)@.logs
                },
                Ok(_) => (r matches Err(AdapterHostError::UnexpectedResponse(m)) && m@
                    == "handshake did not return handshake response"@) && final(self)@.state
                    == AdapterHostState::Failed && same_but_state(final(self)@, old(self)@),
            },
    {
        match response {
            Err(e) => Err(e),
            Ok(AdapterResponseMessage::Handshake(h)) => {
                let copy = AdapterSessionInfo {
                    id: AdapterId::new(h.adapter_id.as_str()),
                    name: AdapterName::new(h.adapter_name.as_str()),
                    version: AdapterVersion::new(h.adapter_version.as_str()),
                    capabilities: h.capabilities,
                };
                self.info = Some(
                    AdapterSessionInfo {
                        id: h.adapter_id,
                        name: h.adapter_name,
                        version: h.adapter_version,
                        capabilities: h.capabilities,
                    },
                );
                self.state = AdapterHostState::Connected;
                Ok(copy)
            },
            Ok(_) => {
                self.state = AdapterHostState::Failed;
                Err(
                    AdapterHostError::UnexpectedResponse(
                        String::from_str("handshake did not return handshake response"),
                    ),
                )
            },
        }
    }

    /// Sends a handshake and takes its answer.
    pub fn handshake(&mut self, request: HandshakeRequest) -> (r: Result<
        AdapterSessionInfo,
        AdapterHostError,
    >)
        ensures
            r is Err ==> failure_keeps(old(self)@, final(self)@),
            one_more_outcome(old(self)@, final(self)@),
            handshake_answer(final(self)@.outcomes.last(), r),
            final(self)@.sent == old(self)@.sent.push(
                request_to(old(self)@, AdapterRequestMessage::Handshake(request)),
            ),
            final(self)@.next_request_id == next_id_after(old(self)@.next_request_id),
            r matches Ok(i) ==> final(self)@.state == AdapterHostState::Connected && (final(
                self)@.info matches Some(j) && same_info(i, j)),
            r is Err ==> final(self)@.info == old(self)@.info,
    {
        let response = self.send(AdapterRequestMessage::Handshake(request));
        assert(self@.outcomes.drop_last() =~= old(self)@.outcomes);
        self.finish_handshake(response)
    }

    /// What a project answer gives: the project response, or an unexpected
    /// response error naming what came instead.
    pub fn finish_load_project(response: Result<AdapterResponseMessage, AdapterHostError>) -> (r: Result<
        LoadProjectResponse,
        AdapterHostError,
    >)
        ensures
            load_project_answer(response, r),
    {
        match response {
            Err(e) => Err(e),
            Ok(AdapterResponseMessage::LoadProject(p)) => Ok(p),
            Ok(other) => Err(AdapterHostError::UnexpectedResponse(response_kind(&other))),
        }
    }

    pub fn load_project(&mut self, request: LoadProjectRequest) -> (r: Result<
        LoadProjectResponse,
        AdapterHostError,
    >)
        ensures
            r is Err ==> failure_keeps(old(self)@, final(self)@),
            one_more_outcome(old(self)@, final(self)@),
            load_project_answer(final(self)@.outcomes.last(), r),
            final(self)@.sent == old(self)@.sent.push(
                request_to(old(self)@, AdapterRequestMessage::LoadProject(request)),
            ),
            final(self)@.next_request_id == next_id_after(old(self)@.next_request_id),
            final(self)@.info == old(self)@.info,
            r is Ok ==> final(self)@.state == old(self)@.state,
    {
        let response = self.send(AdapterRequestMessage::LoadProject(request));
        assert(self@.outcomes.drop_last() =~= old(self)@.outcomes);
        Self::finish_load_project(response)
    }

    /// What a diagnostics answer gives: the diagnostics response, or an
    /// unexpected response error naming what came instead.
    pub fn finish_diagnostics_answer(response: Result<AdapterResponseMessage, AdapterHostError>) -> (r: Result<
        GetDiagnosticsResponse,
        AdapterHostError,
    >)
        ensures
            diagnostics_answer(response, r),
    {
        match response {
            Err(e) => Err(e),
            Ok(AdapterResponseMessage::GetDiagnostics(d)) => Ok(d),
            Ok(other) => Err(AdapterHostError::UnexpectedResponse(response_kind(&other))),
        }
    }

    /// What a diagnostics answer does: its diagnostics replace the
    /// session's; any other answer is an unexpected response.
    pub fn finish_get_diagnostics(&mut self, response: Result<AdapterResponseMessage, AdapterHostError>) -> (r: Result<
        GetDiagnosticsResponse,
        AdapterHostError,
    >)
        ensures
            final(self).transport_view() == old(self).transport_view(),
            final(self)@.sent == old(self)@.sent,
            final(self)@.outcomes == old(self)@.outcomes,
            match response {
                Err(e) => r == Err::<GetDiagnosticsResponse, AdapterHostError>(e) && final(self)@
                    == old(self)@,
                Ok(AdapterResponseMessage::GetDiagnostics(d)) => r == Ok::<
                    GetDiagnosticsResponse,
                    AdapterHostError,
                >(d) && final(self)@.diagnostics == d.diagnostics@ && final(self)@.state == old(
                    self)@.state && final(self)@.logs == old(self)@.logs && final(self)@.info == old(
                    self)@.info && final(self)@.next_request_id == old(self)@.next_request_id,
                Ok(other) => (r matches Err(AdapterHostError::UnexpectedResponse(m)) && m@
                    == response_kind_name(other)) && final(self)@ == old(self)@,
            },
    {
        match response {
            Err(e) => Err(e),
            Ok(AdapterResponseMessage::GetDiagnostics(d)) => {
                self.diagnostics = clone_diagnostics(&d.diagnostics);
                Ok(d)
            },
            Ok(other) => Err(AdapterHostError::UnexpectedResponse(response_kind(&other))),
        }
    }

    /// Asks for the adapter's diagnostics.
    pub fn get_diagnostics(&mut self, request: GetDiagnosticsRequest) -> (r: Result<
        GetDiagnosticsResponse,
        AdapterHostError,
    >)
        ensures
            r is Err ==> failure_keeps(old(self)@, final(self)@),
            one_more_outcome(old(self)@, final(self)@),
            diagnostics_answer(final(self)@.outcomes.last(), r),
            final(self)@.sent == old(self)@.sent.push(
                request_to(old(self)@, AdapterRequestMessage::GetDiagnostics(request)),
            ),
            final(self)@.next_request_id == next_id_after(old(self)@.next_request_id),
            final(self)@.info == old(self)@.info,
            r matches Ok(d) ==> final(self)@.state == old(self)@.state && final(self)@.diagnostics
                == d.diagnostics@,
    {
        let response = self.send(AdapterRequestMessage::GetDiagnostics(request));
        assert(self@.outcomes.drop_last() =~= old(self)@.outcomes);
        self.finish_get_diagnostics(response)
    }

    pub fn finish_get_viewport_frame(response: Result<AdapterResponseMessage, AdapterHostError>) -> (r: Result<
        GetViewportFrameResponse,
        AdapterHostError,
    >)
        ensures
            viewport_frame_answer(response, r),
    {
        match response {
            Err(e) => Err(e),
            Ok(AdapterResponseMessage::GetViewportFrame(v)) => Ok(v),
            Ok(other) => Err(AdapterHostError::UnexpectedResponse(response_kind(&other))),
        }
    }

    /// Asks for a rendered frame of a viewport.
    pub fn get_viewport_frame(&mut self, request: GetViewportFrameRequest) -> (r: Result<
        GetViewportFrameResponse,
        AdapterHostError,
    >)
        ensures
            r is Err ==> failure_keeps(old(self)@, final(self)@),
            one_more_outcome(old(self)@, final(self)@),
            viewport_frame_answer(final(self)@.outcomes.last(), r),
            final(self)@.sent == old(self)@.sent.push(
                request_to(old(self)@, AdapterRequestMessage::GetViewportFrame(request)),
            ),
            final(self)@.next_request_id == next_id_after(old(self)@.next_request_id),
            final(self)@.info == old(self)@.info,
            r is Ok ==> final(self)@.state == old(self)@.state,
    {
        let response = self.send(AdapterRequestMessage::GetViewportFrame(request));
        assert(self@.outcomes.drop_last() =~= old(self)@.outcomes);
        Self::finish_get_viewport_frame(response)
    }

    /// What a shutdown answer does: the session stops.
    pub fn finish_shutdown(&mut self, response: Result<AdapterResponseMessage, AdapterHostError>) -> (r: Result<
        ShutdownResponse,
        AdapterHostError,
    >)
        ensures
            final(self).transport_view() == old(self).transport_view(),
            final(self)@.sent == old(self)@.sent,
            final(self)@.outcomes == old(self)@.outcomes,
            match response {
                Err(e) => r == Err::<ShutdownResponse, AdapterHostError>(e) && final(self)@ == old(
                    self)@,
                Ok(AdapterResponseMessage::Shutdown(s)) => r == Ok::<
                    ShutdownResponse,
                    AdapterHostError,
                >(s) && final(self)@.state == AdapterHostState::Stopped && same_but_state(
                    final(self)@,
                    old(self)@,
                ),
                Ok(other) => (r matches Err(AdapterHostError::UnexpectedResponse(m)) && m@
                    == response_kind_name(other)) && final(self)@ == old(self)@,
            },
    {
        match response {
            Err(e) => Err(e),
            Ok(AdapterResponseMessage::Shutdown(s)) => {
                self.state = AdapterHostState::Stopped;
                Ok(s)
            },
            Ok(other) => Err(AdapterHostError::UnexpectedResponse(response_kind(&other))),
        }
    }

    /// Asks the adapter to shut down.
    pub fn shutdown_request(&mut self, request: ShutdownRequest) -> (r: Result<
        ShutdownResponse,
        AdapterHostError,
    >)
        ensures
            r is Err ==> failure_keeps(old(self)@, final(self)@),
            one_more_outcome(old(self)@, final(self)@),
            shutdown_answer(final(self)@.outcomes.last(), r),
            final(self)@.sent == old(self)@.sent.push(
                request_to(old(self)@, AdapterRequestMessage::Shutdown(request)),
            ),
            final(self)@.next_request_id == next_id_after(old(self)@.next_request_id),
            final(self)@.info == old(self)@.info,
            r is Ok ==> final(self)@.state == AdapterHostState::Stopped,
    {
        let response = self.send(AdapterRequestMessage::Shutdown(request));
        assert(self@.outcomes.drop_last() =~= old(self)@.outcomes);
        self.finish_shutdown(response)
    }

    /// Closes the transport.
    pub fn shutdown_transport(&mut self) -> (r: Result<(), AdapterHostError>)
        ensures
            final(self)@ == old(self)@,
    {
        self.transport.shutdown()
    }
}

/// Two descriptions of an adapter that say the same.
pub open spec fn same_info(a: AdapterSessionInfo, b: AdapterSessionInfo) -> bool {
    &&& a.id@ == b.id@
    &&& a.name@ == b.name@
    &&& a.version@ == b.version@
    &&& a.capabilities == b.capabilities
}

fn clone_diagnostics(d: &Vec<AdapterDiagnostic>) -> (r: Vec<AdapterDiagnostic>)
    ensures
        r@ == d@,
{
    let mut out: Vec<AdapterDiagnostic> = Vec::new();
    let mut i: usize = 0;
    while i < d.len()
        invariant
            i <= d@.len(),
            out@ == d@.take(i as int),
        decreases d@.len() - i,
    {
        let item = &d[i];
        let copy = AdapterDiagnostic {
            severity: item.severity,
            source: item.source.clone(),
            message: item.message.clone(),
        };
        out.push(copy);
        assert(out@ =~= d@.take(i + 1));
        i = i + 1;
    }
    assert(d@.take(d@.len() as int) =~= d@);
    out
}

/// A transport for tests: it answers with the lines it was given, in
/// order, each read or failed to read as it would be from a frame; it keeps
/// the requests sent; or it stands for an adapter that has exited.
#[derive(Debug)]
pub struct FakeAdapterTransport {
    responses: Vec<Result<AdapterLine, FrameError>>,
    writes: Vec<AdapterRequest>,
    exit_on_read: bool,
}

impl FakeAdapterTransport {
    pub fn new(responses: Vec<Result<AdapterLine, FrameError>>) -> (r: Self)
        ensures
            r.pending() == responses@,
            r.written().len() == 0,
            !r.exits(),
    {
        FakeAdapterTransport { responses, writes: Vec::new(), exit_on_read: false }
    }

    /// A transport whose adapter has exited: every read finds the end of
    /// its output.
    pub fn exiting() -> (r: Self)
        ensures
            r.pending().len() == 0,
            r.written().len() == 0,
            r.exits(),
    {
        FakeAdapterTransport { responses: Vec::new(), writes: Vec::new(), exit_on_read: true }
    }

    pub closed spec fn pending(&self) -> Seq<Result<AdapterLine, FrameError>> {
        self.responses@
    }

    pub closed spec fn written(&self) -> Seq<AdapterRequest> {
        self.writes@
    }

    pub closed spec fn exits(&self) -> bool {
        self.exit_on_read
    }

    /// The requests sent so far.
    pub fn writes(&self) -> (r: &[AdapterRequest])
        ensures
            r@ == self.written(),
    {
        self.writes.as_slice()
    }
}

pub(crate) fn copy_text_option(o: &Option<String>) -> (r: Option<String>)
    ensures
        r == *o,
{
    match o {
        Some(s) => Some(s.clone()),
        None => None,
    }
}

/// A copy of a request, equal to it.
fn copy_request(request: &AdapterRequest) -> (r: AdapterRequest)
    ensures
        r == *request,
{
    let message = match &request.message {
        AdapterRequestMessage::Handshake(h) => AdapterRequestMessage::Handshake(
            HandshakeRequest {
                protocol_version: h.protocol_version,
                editor_version: h.editor_version.clone(),
                project_path: copy_text_option(&h.project_path),
            },
        ),
        AdapterRequestMessage::LoadProject(l) => AdapterRequestMessage::LoadProject(
            LoadProjectRequest { project_path: copy_text_option(&l.project_path) },
        ),
        AdapterRequestMessage::GetSceneSnapshot(g) => AdapterRequestMessage::GetSceneSnapshot(*g),
        AdapterRequestMessage::GetDiagnostics(g) => AdapterRequestMessage::GetDiagnostics(*g),
        AdapterRequestMessage::GetViewportFrame(g) => AdapterRequestMessage::GetViewportFrame(*g),
        AdapterRequestMessage::Shutdown(g) => AdapterRequestMessage::Shutdown(*g),
    };
    AdapterRequest { request_id: request.request_id, message }
}

impl AdapterTransport for FakeAdapterTransport {
    /// Keeps the request; sending always succeeds.
    fn send_request(&mut self, request: &AdapterRequest) -> (r: Result<(), AdapterHostError>)
        ensures
            r is Ok,
            final(self).written() == old(self).written().push(*request),
            final(self).pending() == old(self).pending(),
            final(self).exits() == old(self).exits(),
    {
        self.writes.push(copy_request(request));
        Ok(())
    }

    /// The end of the output when the adapter has exited or no line is
    /// left; else the first line given, taken off, with a line that could
    /// not be read reported as an invalid frame.
    fn recv_line(&mut self) -> (r: Result<Option<AdapterLine>, AdapterHostError>)
        ensures
            final(self).written() == old(self).written(),
            final(self).exits() == old(self).exits(),
            old(self).exits() || old(self).pending().len() == 0 ==> r == Ok::<
                Option<AdapterLine>,
                AdapterHostError,
            >(None) && final(self).pending() == old(self).pending(),
            !old(self).exits() && old(self).pending().len() > 0 ==> final(self).pending()
                == old(self).pending().drop_first() && match old(self).pending()[0] {
                Ok(line) => r == Ok::<Option<AdapterLine>, AdapterHostError>(Some(line)),
                Err(e) => r matches Err(AdapterHostError::InvalidFrame(m)) && m@ == frame_error_text(
                    e,
                ),
            },
    {
        if self.exit_on_read {
            return Ok(None);
        }
        if self.responses.len() == 0 {
            return Ok(None);
        }
        let ghost before = self.responses@;
        let first = self.responses.remove(0);
        assert(self.responses@ =~= before.drop_first());
        match first {
            Ok(line) => Ok(Some(line)),
            Err(e) => Err(AdapterHostError::InvalidFrame(e.message())),
        }
    }

    fn shutdown(&mut self) -> Result<(), AdapterHostError> {
        Ok(())
    }
}

} // verus!
