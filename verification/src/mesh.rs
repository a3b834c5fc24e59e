//! The radio worker: what it does with each thing that comes to it.
//!
//! The worker waits on the radio and on the session at once. Whatever comes
//! first is handed to `worker_step`, or to `mock_step` where a mock stands
//! in for the radio, and the worker carries out the action that comes back.

use vstd::prelude::*;
use crate::router::{outbound, DecisionView, Frame, OutboundText, Routed, Router};
use crate::types::{MeshEvent, MeshEventView, PeerRecord, PeerView, UiEvent, UiEventView};

verus! {

/// Number of events that each queue between worker and session holds.
pub const QUEUE_CAPACITY: usize = 100;

/// Milliseconds that the session waits for a key before it redraws.
pub const TICK_MILLIS: u64 = 250;

/// Seconds between two greetings of the mock.
pub const MOCK_HELLO_SECS: u64 = 10;

/// The node number of the mock.
pub const MOCK_NODE_NUM: u32 = 0x12345678;

/// What the radio worker talks to.
#[derive(Clone, Debug, PartialEq, Eq)]
pub enum Endpoint {
    /// A mock of a radio, for trying the program out.
    Mock,
    /// The radio at this device path.
    Device(String),
}

/// An `Endpoint` as a mathematical value.
pub enum EndpointView {
    Mock,
    Device(Seq<char>),
}

impl View for Endpoint {
    type V = EndpointView;

    open spec fn view(&self) -> EndpointView {
        match self {
            Endpoint::Mock => EndpointView::Mock,
            Endpoint::Device(path) => EndpointView::Device(path@),
        }
    }
}

/// The arguments of `v` as mathematical values.
pub open spec fn args_view(v: Seq<String>) -> Seq<Seq<char>> {
    v.map_values(|s: String| s@)
}

/// The endpoint that the arguments of the process select. The program's
/// name comes first and exactly one argument follows it: the word `mock`,
/// or a device path.
pub open spec fn endpoint_of(args: Seq<Seq<char>>) -> Option<EndpointView> {
    if args.len() != 2 {
        None
    } else if args[1] == "mock"@ {
        Some(EndpointView::Mock)
    } else {
        Some(EndpointView::Device(args[1]))
    }
}

/// An optional endpoint as a mathematical value.
pub open spec fn endpoint_view(endpoint: Option<Endpoint>) -> Option<EndpointView> {
    match endpoint {
        Some(e) => Some(e@),
        None => None,
    }
}

/// The endpoint that the arguments of the process select, or `None` if
/// they select none.
pub fn select_endpoint(args: &Vec<String>) -> (endpoint: Option<Endpoint>)
    ensures
        endpoint_view(endpoint) == endpoint_of(args_view(args@)),
{
    if args.len() != 2 {
        return None;
    }
    let mock: String = "mock".to_owned();
    if args[1] == mock {
        Some(Endpoint::Mock)
    } else {
        Some(Endpoint::Device(args[1].clone()))
    }
}

/// What comes to the radio worker.
#[derive(Clone, Debug, PartialEq, Eq)]
pub enum WorkerInput {
    /// A frame from the radio.
    Frame(Frame),
    /// An event from the session.
    Intent(UiEvent),
    /// The radio has ended its stream and the session has closed its queue.
    Exhausted,
}

/// What the radio worker has to do next.
#[derive(Clone, Debug, PartialEq, Eq)]
pub enum WorkerAction {
    /// Wait for the next input; this is what became of the frame.
    Continue(Routed),
    /// Send this text through the transport, then wait for the next input.
    /// If the transport fails, the worker ends with its error.
    Send(OutboundText),
    /// End without error.
    Stop,
}

/// One step of the radio worker.
pub fn worker_step(router: &mut Router, input: WorkerInput) -> (action: WorkerAction)
    ensures
        final(router).queue() == old(router).queue(),
        match input {
            WorkerInput::Frame(frame) => {
                &&& final(router)@ == old(router)@.routed(frame@)
                &&& action matches WorkerAction::Continue(routed)
                &&& match old(router)@.decision(frame@) {
                    DecisionView::Ignore => routed == Routed::Ignored,
                    DecisionView::IdentitySet => routed == Routed::IdentitySet,
                    DecisionView::Reject(anomaly) => routed == Routed::Rejected(anomaly),
                    DecisionView::Emit(_) => routed is Forwarded || routed is Dropped,
                }
            },
            WorkerInput::Intent(event) => {
                &&& final(router)@ == old(router)@
                &&& action matches WorkerAction::Send(request)
                &&& request@ == outbound(event@)
            },
            WorkerInput::Exhausted => {
                &&& final(router)@ == old(router)@
                &&& action == WorkerAction::Stop
            },
        },
{
    match input {
        WorkerInput::Frame(frame) => WorkerAction::Continue(router.handle_packet_from_radio(frame)),
        WorkerInput::Intent(event) => WorkerAction::Send(router.handle_ui_event(event)),
        WorkerInput::Exhausted => WorkerAction::Stop,
    }
}

/// What comes to the mock of the radio worker.
#[derive(Clone, Debug, PartialEq, Eq)]
pub enum MockInput {
    /// The mock starts.
    Start,
    /// `MOCK_HELLO_SECS` seconds have passed.
    Tick,
    /// An event from the session.
    Intent(UiEvent),
    /// The session has closed its queue.
    Exhausted,
}

/// What the mock has to do next.
#[derive(Clone, Debug, PartialEq, Eq)]
pub enum MockAction {
    /// Hand this event to the session, then wait for the next input.
    Emit(MeshEvent),
    /// End without error.
    Stop,
}

/// A `MockAction` as a mathematical value.
pub enum MockActionView {
    Emit(MeshEventView),
    Stop,
}

impl View for MockAction {
    type V = MockActionView;

    open spec fn view(&self) -> MockActionView {
        match self {
            MockAction::Emit(event) => MockActionView::Emit(event@),
            MockAction::Stop => MockActionView::Stop,
        }
    }
}

/// The node that the mock announces.
pub open spec fn mock_record() -> PeerView {
    PeerView { num: MOCK_NODE_NUM, long_name: Some("Mock User"@) }
}

/// A `MockInput` as a mathematical value.
pub enum MockInputView {
    Start,
    Tick,
    Intent(UiEventView),
    Exhausted,
}

impl View for MockInput {
    type V = MockInputView;

    open spec fn view(&self) -> MockInputView {
        match self {
            MockInput::Start => MockInputView::Start,
            MockInput::Tick => MockInputView::Tick,
            MockInput::Intent(event) => MockInputView::Intent(event@),
            MockInput::Exhausted => MockInputView::Exhausted,
        }
    }
}

/// What the mock does: it announces its node when it starts, greets from
/// that node at each tick, and echoes each text of the session as if the
/// node addressed had sent it.
pub open spec fn mock_action(input: MockInputView) -> MockActionView {
    match input {
        MockInputView::Start => MockActionView::Emit(MeshEventView::NodeAvailable(mock_record())),
        MockInputView::Tick => MockActionView::Emit(
            MeshEventView::Message { node_id: MOCK_NODE_NUM, message: "Hello from mock user!"@ },
        ),
        MockInputView::Intent(UiEventView::Message { node_id, message }) => MockActionView::Emit(
            MeshEventView::Message { node_id, message },
        ),
        MockInputView::Exhausted => MockActionView::Stop,
    }
}

/// The node that the mock announces.
pub fn mock_node() -> (record: PeerRecord)
    ensures
        record@ == mock_record(),
{
    PeerRecord { num: MOCK_NODE_NUM, long_name: Some("Mock User".to_owned()) }
}

/// One step of the mock.
pub fn mock_step(input: MockInput) -> (action: MockAction)
    ensures
        action@ == mock_action(input@),
{
    match input {
        MockInput::Start => MockAction::Emit(MeshEvent::NodeAvailable(Box::new(mock_node()))),
        MockInput::Tick => MockAction::Emit(
            MeshEvent::Message {
                node_id: MOCK_NODE_NUM,
                message: "Hello from mock user!".to_owned(),
            },
        ),
        MockInput::Intent(UiEvent::Message { node_id, message }) => MockAction::Emit(
            MeshEvent::Message { node_id, message },
        ),
        MockInput::Exhausted => MockAction::Stop,
    }
}

} // verus!
