//! The decisions of an adapter host whose session runs on a worker: which
//! request number comes next, when a request may be submitted, what each
//! report of the worker does to the host, how a wait for one answer ends,
//! and how a shutdown ends. Whoever runs the worker feeds its reports in.
use crate::adapter_protocol::{
    AdapterEvent, AdapterId, AdapterName, AdapterRequestId, AdapterResponse,
    AdapterResponseMessage, AdapterVersion, ErrorResponse, ShutdownResponse,
};
use crate::adapter_session::{
    next_id_after, same_info, AdapterHostError, AdapterHostState, AdapterSessionInfo,
};
use vstd::prelude::*;

verus! {

/// What the host hands back for one report of its worker.
#[derive(Debug, Clone, PartialEq, Eq)]
pub enum AdapterHostPollItem {
    Event(AdapterEvent),
    Response { request_id: AdapterRequestId, message: AdapterResponseMessage },
    Failed(AdapterHostError),
    Stopped,
}

/// What a worker reports: an event, an answer, its failure, or its end.
#[derive(Debug, Clone, PartialEq, Eq)]
pub enum WorkerEvent {
    Event(AdapterEvent),
    Response(AdapterResponse),
    Failed(AdapterHostError),
    Stopped,
}

/// Where a wait for one answer stands after a report.
#[derive(Debug, Clone, PartialEq, Eq)]
pub enum WaitStep {
    Answered(AdapterResponseMessage),
    Failed(AdapterHostError),
    Pending,
}

/// Where a shutdown stands after a report: still waiting, with whether the
/// adapter has accepted so far, or finished.
#[derive(Debug, PartialEq, Eq)]
pub enum ShutdownStep {
    Continue(bool),
    Finished(Result<ShutdownResponse, AdapterHostError>),
}

pub struct HostView {
    pub state: AdapterHostState,
    pub next_request_id: u64,
    pub pending_events: Seq<AdapterEvent>,
    pub info: Option<AdapterSessionInfo>,
    pub worker_running: bool,
}

/// `v` with its state replaced by `s`.
pub open spec fn with_state(v: HostView, s: AdapterHostState) -> HostView {
    HostView {
        state: s,
        next_request_id: v.next_request_id,
        pending_events: v.pending_events,
        info: v.info,
        worker_running: v.worker_running,
    }
}

/// `v` with its next request number counted on.
pub open spec fn with_next_id(v: HostView) -> HostView {
    HostView { next_request_id: next_id_after(v.next_request_id), ..v }
}

/// `v` connected to the adapter described by `info`.
pub open spec fn connected_to(v: HostView, info: AdapterSessionInfo) -> HostView {
    HostView { state: AdapterHostState::Connected, info: Some(info), ..v }
}

/// `v` with its worker released.
pub open spec fn released(v: HostView) -> HostView {
    HostView { worker_running: false, ..v }
}

/// What one worker report does to the host and what the host hands back:
/// events and answers pass through; an error answer, a worker failure or
/// the worker's end set the host's state.
pub open spec fn ingested(
    before: HostView,
    after: HostView,
    event: WorkerEvent,
    item: AdapterHostPollItem,
) -> bool {
    match event {
        WorkerEvent::Event(e) => item == AdapterHostPollItem::Event(e) && after == before,
        WorkerEvent::Response(resp) => match resp.message {
            AdapterResponseMessage::Error(ErrorResponse { error }) => item
                == AdapterHostPollItem::Failed(AdapterHostError::Adapter(error)) && after
                == with_state(before, AdapterHostState::Failed),
            m => item == AdapterHostPollItem::Response { request_id: resp.request_id, message: m }
                && after == before,
        },
        WorkerEvent::Failed(e) => item == AdapterHostPollItem::Failed(e) && after == with_state(
            before,
            AdapterHostState::Failed,
        ),
        WorkerEvent::Stopped => item == AdapterHostPollItem::Stopped && after == with_state(
            before,
            AdapterHostState::Stopped,
        ),
    }
}

/// How a wait for the answer to `expected` goes on after a report: the
/// answer ends it, a failure ends it, an event is kept for later, the
/// worker's end is an exited adapter, and answers to other requests are
/// passed over.
pub open spec fn waited(
    before: HostView,
    after: HostView,
    expected: AdapterRequestId,
    event: WorkerEvent,
    step: WaitStep,
) -> bool {
    match event {
        WorkerEvent::Event(e) => step == WaitStep::Pending && after == HostView {
            pending_events: before.pending_events.push(e),
            ..before
        },
        WorkerEvent::Response(resp) => match resp.message {
            AdapterResponseMessage::Error(ErrorResponse { error }) => step == WaitStep::Failed(
                AdapterHostError::Adapter(error),
            ) && after == with_state(before, AdapterHostState::Failed),
            m => after == before && if resp.request_id == expected {
                step == WaitStep::Answered(m)
            } else {
                step == WaitStep::Pending
            },
        },
        WorkerEvent::Failed(e) => step == WaitStep::Failed(e) && after == with_state(
            before,
            AdapterHostState::Failed,
        ),
        WorkerEvent::Stopped => step == WaitStep::Failed(AdapterHostError::AdapterExited) && after
            == with_state(before, AdapterHostState::Stopped),
    }
}

/// How a shutdown goes on after what its wait gave: the worker's end or a
/// wait that ran out finish it, stopped, with what the adapter said; a
/// shutdown answer records whether it accepted; a failure finishes it
/// failed.
pub open spec fn shutdown_stepped(
    before: HostView,
    after: HostView,
    accepted: bool,
    outcome: Result<WorkerEvent, AdapterHostError>,
    step: ShutdownStep,
) -> bool {
    match outcome {
        Ok(WorkerEvent::Stopped) | Err(AdapterHostError::TimedOut) => step
            == ShutdownStep::Finished(Ok(ShutdownResponse { accepted })) && after == with_state(
            before,
            AdapterHostState::Stopped,
        ),
        Ok(WorkerEvent::Response(resp)) => after == before && match resp.message {
            AdapterResponseMessage::Shutdown(v) => step == ShutdownStep::Continue(v.accepted),
            _ => step == ShutdownStep::Continue(accepted),
        },
        Ok(WorkerEvent::Event(_)) => step == ShutdownStep::Continue(accepted) && after == before,
        Ok(WorkerEvent::Failed(e)) | Err(e) => step == ShutdownStep::Finished(Err(e)) && after
            == with_state(before, AdapterHostState::Failed),
    }
}

/// The host's own state: its connection state, the next request number,
/// the events that arrived while it waited, who the adapter is, and
/// whether a worker runs.
pub struct AdapterHostCore {
    state: AdapterHostState,
    next_request_id: u64,
    pending_events: Vec<AdapterEvent>,
    info: Option<AdapterSessionInfo>,
    worker_running: bool,
}

impl View for AdapterHostCore {
    type V = HostView;

    closed spec fn view(&self) -> HostView {
        HostView {
            state: self.state,
            next_request_id: self.next_request_id,
            pending_events: self.pending_events@,
            info: self.info,
            worker_running: self.worker_running,
        }
    }
}

impl AdapterHostCore {
    /// A host with no adapter: disconnected, requests numbered from 1.
    pub fn disconnected() -> (r: Self)
        ensures
            r@.state == AdapterHostState::Disconnected,
            r@.next_request_id == 1,
            r@.pending_events.len() == 0,
            r@.info is None,
            !r@.worker_running,
    {
        AdapterHostCore {
            state: AdapterHostState::Disconnected,
            next_request_id: 1,
            pending_events: Vec::new(),
            info: None,
            worker_running: false,
        }
    }

    /// A host whose worker was just started: starting, requests numbered
    /// from 1.
    pub fn started() -> (r: Self)
        ensures
            r@.state == AdapterHostState::Starting,
            r@.next_request_id == 1,
            r@.pending_events.len() == 0,
            r@.info is None,
            r@.worker_running,
    {
        AdapterHostCore {
            state: AdapterHostState::Starting,
            next_request_id: 1,
            pending_events: Vec::new(),
            info: None,
            worker_running: true,
        }
    }

    pub fn state(&self) -> (r: AdapterHostState)
        ensures
            r == self@.state,
    {
        self.state
    }

    pub fn info(&self) -> (r: Option<&AdapterSessionInfo>)
        ensures
            match self@.info {
                Some(i) => r == Some(&i),
                None => r is None,
            },
    {
        match &self.info {
            Some(i) => Some(i),
            None => None,
        }
    }

    pub fn pending_events(&self) -> (r: &[AdapterEvent])
        ensures
            r@ == self@.pending_events,
    {
        self.pending_events.as_slice()
    }

    pub fn worker_running(&self) -> (r: bool)
        ensures
            r == self@.worker_running,
    {
        self.worker_running
    }

    /// The next request number, counting on and stopping at the largest.
    pub fn allocate_request_id(&mut self) -> (r: AdapterRequestId)
        ensures
            r.0 == old(self)@.next_request_id,
            final(self)@ == with_next_id(old(self)@),
    {
        let id = AdapterRequestId(self.next_request_id);
        self.next_request_id = self.next_request_id.saturating_add(1);
        id
    }

    /// Numbers a request to submit; refused, with nothing changed, when no
    /// worker runs or the host has failed.
    pub fn begin_submit(&mut self) -> (r: Result<AdapterRequestId, AdapterHostError>)
        ensures
            !old(self)@.worker_running || old(self)@.state == AdapterHostState::Failed ==> r
                == Err::<AdapterRequestId, AdapterHostError>(AdapterHostError::AdapterExited)
                && final(self)@ == old(self)@,
            old(self)@.worker_running && old(self)@.state != AdapterHostState::Failed ==> (r
                matches Ok(id) && id.0 == old(self)@.next_request_id) && final(self)@ == with_next_id(
                old(self)@,
            ),
    {
        if !self.worker_running || self.state == AdapterHostState::Failed {
            return Err(AdapterHostError::AdapterExited);
        }
        Ok(self.allocate_request_id())
    }

    /// Takes one report of the worker.
    pub fn ingest_worker_event(&mut self, event: WorkerEvent) -> (r: AdapterHostPollItem)
        ensures
            ingested(old(self)@, final(self)@, event, r),
    {
        match event {
            WorkerEvent::Event(e) => AdapterHostPollItem::Event(e),
            WorkerEvent::Response(response) => {
                let request_id = response.request_id;
                match response.message {
                    AdapterResponseMessage::Error(ErrorResponse { error }) => {
                        self.state = AdapterHostState::Failed;
                        AdapterHostPollItem::Failed(AdapterHostError::Adapter(error))
                    },
                    message => AdapterHostPollItem::Response { request_id, message },
                }
            },
            WorkerEvent::Failed(error) => {
                self.state = AdapterHostState::Failed;
                AdapterHostPollItem::Failed(error)
            },
            WorkerEvent::Stopped => {
                self.state = AdapterHostState::Stopped;
                AdapterHostPollItem::Stopped
            },
        }
    }

    /// The worker could not be reached: the host fails with that error.
    pub fn worker_failed(&mut self, error: AdapterHostError) -> (r: AdapterHostPollItem)
        ensures
            r == AdapterHostPollItem::Failed(error),
            final(self)@ == with_state(old(self)@, AdapterHostState::Failed),
    {
        self.state = AdapterHostState::Failed;
        AdapterHostPollItem::Failed(error)
    }

    /// Takes one report while waiting for the answer to `expected`.
    pub fn wait_step(&mut self, expected: AdapterRequestId, event: WorkerEvent) -> (r: WaitStep)
        ensures
            waited(old(self)@, final(self)@, expected, event, r),
    {
        match self.ingest_worker_event(event) {
            AdapterHostPollItem::Response { request_id, message } => {
                if request_id.0 == expected.0 {
                    WaitStep::Answered(message)
                } else {
                    WaitStep::Pending
                }
            },
            AdapterHostPollItem::Failed(error) => WaitStep::Failed(error),
            AdapterHostPollItem::Event(e) => {
                self.pending_events.push(e);
                WaitStep::Pending
            },
            AdapterHostPollItem::Stopped => {
                self.state = AdapterHostState::Stopped;
                WaitStep::Failed(AdapterHostError::AdapterExited)
            },
        }
    }

    /// What a handshake answer does: a handshake response records who the
    /// adapter is and connects the host; any other answer fails it.
    pub fn finish_handshake(&mut self, response: Result<AdapterResponseMessage, AdapterHostError>) -> (r: Result<
        AdapterSessionInfo,
        AdapterHostError,
    >)
        ensures
            match response {
                Err(e) => r == Err::<AdapterSessionInfo, AdapterHostError>(e) && final(self)@
                    == old(self)@,
                Ok(AdapterResponseMessage::Handshake(h)) => {
                    let info = AdapterSessionInfo {
                        id: h.adapter_id,
                        name: h.adapter_name,
                        version: h.adapter_version,
                        capabilities: h.capabilities,
                    };
                    &&& r matches Ok(i) && same_info(i, info)
                    &&& final(self)@ == connected_to(old(self)@, info)
                },
                Ok(_) => (r matches Err(AdapterHostError::UnexpectedResponse(m)) && m@
                    == "handshake did not return handshake response"@) && final(self)@
                    == with_state(old(self)@, AdapterHostState::Failed),
            },
    {
        match response {
            Err(e) => Err(e),
            Ok(AdapterResponseMessage::Handshake(h)) => {
                let copy = AdapterSessionInfo {
                    id: AdapterId::new(h.adapter_id.as_str()),
                    name: AdapterName::new(h.adapter_name.as_str()),
                    version: AdapterVersion::new(h.adapter_version.as_str()),
                    capabilities: h.capabilities,
                };
                self.info = Some(
                    AdapterSessionInfo {
                        id: h.adapter_id,
                        name: h.adapter_name,
                        version: h.adapter_version,
                        capabilities: h.capabilities,
                    },
                );
                self.state = AdapterHostState::Connected;
                Ok(copy)
            },
            Ok(_) => {
                self.state = AdapterHostState::Failed;
                Err(
                    AdapterHostError::UnexpectedResponse(
                        String::from_str("handshake did not return handshake response"),
                    ),
                )
            },
        }
    }

    /// Starts a shutdown: without a worker the host is stopped at once and
    /// `false` comes back; else the worker is released and `true` says to
    /// wait for it.
    pub fn begin_shutdown(&mut self) -> (r: bool)
        ensures
            r == old(self)@.worker_running,
            !final(self)@.worker_running,
            !r ==> final(self)@ == with_state(old(self)@, AdapterHostState::Stopped),
            r ==> final(self)@ == released(old(self)@),
    {
        if !self.worker_running {
            self.state = AdapterHostState::Stopped;
            return false;
        }
        self.worker_running = false;
        true
    }

    /// Takes what one wait of a shutdown gave.
    pub fn shutdown_step(&mut self, accepted: bool, outcome: Result<WorkerEvent, AdapterHostError>) -> (r: ShutdownStep)
        ensures
            shutdown_stepped(old(self)@, final(self)@, accepted, outcome, r),
    {
        match outcome {
            Ok(WorkerEvent::Stopped) | Err(AdapterHostError::TimedOut) => {
                self.state = AdapterHostState::Stopped;
                ShutdownStep::Finished(Ok(ShutdownResponse { accepted }))
            },
            Ok(WorkerEvent::Response(response)) => match response.message {
                AdapterResponseMessage::Shutdown(v) => ShutdownStep::Continue(v.accepted),
                _ => ShutdownStep::Continue(accepted),
            },
            Ok(WorkerEvent::Event(_)) => ShutdownStep::Continue(accepted),
            Ok(WorkerEvent::Failed(e)) | Err(e) => {
                self.state = AdapterHostState::Failed;
                ShutdownStep::Finished(Err(e))
            },
        }
    }
}

} // verus!
