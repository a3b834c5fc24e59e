//! The router: what the radio worker does with each frame from the radio,
//! and with each event from the session.

use vstd::prelude::*;
use tokio::sync::mpsc::Sender;
use crate::channel::{try_send, SendFault};
use crate::types::{
    copy_name, name_view, MeshEvent, MeshEventView, PeerRecord, PeerView, UiEvent, UiEventView,
};

verus! {

/// What a frame from the radio carries, as far as the router tells frames
/// apart.
#[derive(Clone, Debug, PartialEq, Eq)]
pub enum Payload {
    /// The radio announces the node number of this client.
    MyInfo(u32),
    /// A node of the mesh is described.
    NodeInfo(PeerRecord),
    /// The node `from` sent the text `text`.
    Text { from: u32, text: String },
    /// Anything else: configuration, telemetry, administration.
    Other,
}

/// A `Payload` as a mathematical value.
pub enum PayloadView {
    MyInfo(u32),
    NodeInfo(PeerView),
    Text { from: u32, text: Seq<char> },
    Other,
}

impl View for Payload {
    type V = PayloadView;

    open spec fn view(&self) -> PayloadView {
        match self {
            Payload::MyInfo(num) => PayloadView::MyInfo(*num),
            Payload::NodeInfo(record) => PayloadView::NodeInfo(record@),
            Payload::Text { from, text } => PayloadView::Text { from: *from, text: text@ },
            Payload::Other => PayloadView::Other,
        }
    }
}

/// One decoded frame from the radio. The transport owes each frame a
/// payload, but may fail to give one.
#[derive(Clone, Debug, PartialEq, Eq)]
pub struct Frame {
    pub payload: Option<Payload>,
}

/// A `Frame` as a mathematical value.
pub struct FrameView {
    pub payload: Option<PayloadView>,
}

impl View for Frame {
    type V = FrameView;

    open spec fn view(&self) -> FrameView {
        FrameView {
            payload: match self.payload {
                Some(p) => Some(p@),
                None => None,
            },
        }
    }
}

/// A frame that breaks the protocol. It is dropped and the session goes on.
#[derive(Copy, Clone, Debug, PartialEq, Eq, Structural)]
pub enum Anomaly {
    /// The frame carries no payload.
    MissingPayload,
    /// The radio announces a node number for this client, which has one.
    DuplicateIdentity,
}

/// What the router makes of one frame.
#[derive(Clone, Debug, PartialEq, Eq)]
pub enum Decision {
    /// The frame is of no interest to the session.
    Ignore,
    /// The frame gave this client its node number.
    IdentitySet,
    /// The frame gives rise to this event for the session.
    Emit(MeshEvent),
    /// The frame breaks the protocol.
    Reject(Anomaly),
}

/// A `Decision` as a mathematical value.
pub enum DecisionView {
    Ignore,
    IdentitySet,
    Emit(MeshEventView),
    Reject(Anomaly),
}

impl View for Decision {
    type V = DecisionView;

    open spec fn view(&self) -> DecisionView {
        match self {
            Decision::Ignore => DecisionView::Ignore,
            Decision::IdentitySet => DecisionView::IdentitySet,
            Decision::Emit(event) => DecisionView::Emit(event@),
            Decision::Reject(anomaly) => DecisionView::Reject(*anomaly),
        }
    }
}

/// What became of one frame.
#[derive(Copy, Clone, Debug, PartialEq, Eq, Structural)]
pub enum Routed {
    /// The frame was of no interest to the session.
    Ignored,
    /// The frame gave this client its node number.
    IdentitySet,
    /// The event that the frame gave rise to is on the queue to the session.
    Forwarded,
    /// The event that the frame gave rise to was dropped, because the queue
    /// to the session did not take it.
    Dropped(SendFault),
    /// The frame broke the protocol and was dropped.
    Rejected(Anomaly),
}

/// What became of a frame that gave rise to an event, from what the queue
/// answered.
pub fn routed_after_send(sent: Result<(), SendFault>) -> (routed: Routed)
    ensures
        routed == match sent {
            Ok(()) => Routed::Forwarded,
            Err(fault) => Routed::Dropped(fault),
        },
{
    match sent {
        Ok(()) => Routed::Forwarded,
        Err(fault) => Routed::Dropped(fault),
    }
}

/// A request to the transport to send a text.
#[derive(Clone, Debug, PartialEq, Eq)]
pub struct OutboundText {
    /// The node that the text goes to.
    pub destination: u32,
    /// The text.
    pub text: String,
    /// The index of the channel that the text goes over.
    pub channel: u32,
    /// Whether the receiver is asked to acknowledge the text.
    pub want_ack: bool,
}

/// An `OutboundText` as a mathematical value.
pub struct OutboundTextView {
    pub destination: u32,
    pub text: Seq<char>,
    pub channel: u32,
    pub want_ack: bool,
}

impl View for OutboundText {
    type V = OutboundTextView;

    open spec fn view(&self) -> OutboundTextView {
        OutboundTextView {
            destination: self.destination,
            text: self.text@,
            channel: self.channel,
            want_ack: self.want_ack,
        }
    }
}

/// The channel that texts go over: the primary one.
pub const PRIMARY_CHANNEL: u32 = 0;

/// The node number that the router gives as its own while the radio has
/// announced none.
pub const UNASSIGNED_NODE: u32 = 0;

/// The request that carries out `event`: the text goes to the node of the
/// event over the primary channel, and no acknowledgement is asked for.
pub open spec fn outbound(event: UiEventView) -> OutboundTextView {
    match event {
        UiEventView::Message { node_id, message } => OutboundTextView {
            destination: node_id,
            text: message,
            channel: PRIMARY_CHANNEL,
            want_ack: false,
        },
    }
}

/// The state of a router.
pub struct RouterView {
    /// The node number of this client, once the radio has announced it.
    pub node_num: Option<u32>,
    /// The name under which this client is known on the mesh, once a
    /// description of its own node has come by.
    pub user: Option<Seq<char>>,
}

impl RouterView {
    /// The state a router starts in.
    pub open spec fn initial() -> RouterView {
        RouterView { node_num: None, user: None }
    }

    /// The state after `frame`. The node number is set by the first frame
    /// that announces one and never again. The name is taken from each
    /// description of the node that has that number.
    pub open spec fn routed(self, frame: FrameView) -> RouterView {
        match frame.payload {
            Some(PayloadView::MyInfo(num)) => if self.node_num is None {
                RouterView { node_num: Some(num), ..self }
            } else {
                self
            },
            Some(PayloadView::NodeInfo(record)) => if self.node_num == Some(record.num) {
                RouterView { user: record.long_name, ..self }
            } else {
                self
            },
            _ => self,
        }
    }

    /// What the router makes of `frame` in this state.
    pub open spec fn decision(self, frame: FrameView) -> DecisionView {
        match frame.payload {
            None => DecisionView::Reject(Anomaly::MissingPayload),
            Some(PayloadView::MyInfo(num)) => if self.node_num is None {
                DecisionView::IdentitySet
            } else {
                DecisionView::Reject(Anomaly::DuplicateIdentity)
            },
            Some(PayloadView::NodeInfo(record)) => DecisionView::Emit(
                MeshEventView::NodeAvailable(record),
            ),
            Some(PayloadView::Text { from, text }) => DecisionView::Emit(
                MeshEventView::Message { node_id: from, message: text },
            ),
            Some(PayloadView::Other) => DecisionView::Ignore,
        }
    }

    /// The state after the frames of `frames`, taken in order.
    pub open spec fn routed_all(self, frames: Seq<FrameView>) -> RouterView
        decreases frames.len(),
    {
        if frames.len() == 0 {
            self
        } else {
            self.routed_all(frames.drop_last()).routed(frames.last())
        }
    }

    /// The node number that the router gives as its own.
    pub open spec fn source_node_id(self) -> u32 {
        match self.node_num {
            Some(num) => num,
            None => UNASSIGNED_NODE,
        }
    }
}

/// Once the node number of this client is set, no frame changes it.
pub proof fn lemma_identity_is_kept(router: RouterView, frame: FrameView)
    requires
        router.node_num is Some,
    ensures
        router.routed(frame).node_num == router.node_num,
{
}

/// Once the node number of this client is set, no run of frames changes it.
pub proof fn lemma_identity_is_kept_through(router: RouterView, frames: Seq<FrameView>)
    requires
        router.node_num is Some,
    ensures
        router.routed_all(frames).node_num == router.node_num,
    decreases frames.len(),
{
    if frames.len() > 0 {
        lemma_identity_is_kept_through(router, frames.drop_last());
        lemma_identity_is_kept(router.routed_all(frames.drop_last()), frames.last());
    }
}

/// Of two frames that announce a node number to a new router, the first
/// sets it and the second is rejected.
pub proof fn lemma_identity_set_once(first: u32, second: u32)
    ensures
        ({
            let one = FrameView { payload: Some(PayloadView::MyInfo(first)) };
            let two = FrameView { payload: Some(PayloadView::MyInfo(second)) };
            let start = RouterView::initial();
            &&& start.decision(one) == DecisionView::IdentitySet
            &&& start.routed(one).node_num == Some(first)
            &&& start.routed(one).decision(two) == DecisionView::Reject(
                Anomaly::DuplicateIdentity,
            )
            &&& start.routed(one).routed(two).node_num == Some(first)
        }),
{
}

/// The router of a radio worker.
pub struct Router {
    user: Option<String>,
    node_num: Option<u32>,
    ui_channel: Sender<MeshEvent>,
}

impl View for Router {
    type V = RouterView;

    closed spec fn view(&self) -> RouterView {
        RouterView { node_num: self.node_num, user: name_view(self.user) }
    }
}

impl Router {
    /// The queue that the router hands its events to.
    pub closed spec fn queue(&self) -> Sender<MeshEvent> {
        self.ui_channel
    }

    /// A router in its initial state, which hands its events to
    /// `ui_channel`.
    pub fn new(ui_channel: Sender<MeshEvent>) -> (router: Router)
        ensures
            router@ == RouterView::initial(),
            router.queue() == ui_channel,
    {
        Router { user: None, node_num: None, ui_channel }
    }

    /// Takes one frame: changes the router as the frame asks and says what
    /// the frame comes to.
    pub fn classify(&mut self, frame: Frame) -> (decision: Decision)
        ensures
            final(self)@ == old(self)@.routed(frame@),
            final(self).queue() == old(self).queue(),
            decision@ == old(self)@.decision(frame@),
    {
        match frame.payload {
            None => Decision::Reject(Anomaly::MissingPayload),
            Some(Payload::MyInfo(num)) => {
                if self.node_num.is_some() {
                    Decision::Reject(Anomaly::DuplicateIdentity)
                } else {
                    self.node_num = Some(num);
                    Decision::IdentitySet
                }
            },
            Some(Payload::NodeInfo(record)) => {
                match self.node_num {
                    Some(num) => {
                        if num == record.num {
                            self.user = copy_name(&record.long_name);
                        }
                    },
                    None => {},
                }
                Decision::Emit(MeshEvent::NodeAvailable(Box::new(record)))
            },
            Some(Payload::Text { from, text }) => Decision::Emit(
                MeshEvent::Message { node_id: from, message: text },
            ),
            Some(Payload::Other) => Decision::Ignore,
        }
    }

    /// Takes one frame and hands the event that it gives rise to, if any,
    /// to the queue to the session, without waiting. The router changes the
    /// same whether or not the queue takes the event.
    pub fn handle_packet_from_radio(&mut self, packet: Frame) -> (routed: Routed)
        ensures
            final(self)@ == old(self)@.routed(packet@),
            final(self).queue() == old(self).queue(),
            match old(self)@.decision(packet@) {
                DecisionView::Ignore => routed == Routed::Ignored,
                DecisionView::IdentitySet => routed == Routed::IdentitySet,
                DecisionView::Reject(anomaly) => routed == Routed::Rejected(anomaly),
                DecisionView::Emit(_) => routed is Forwarded || routed is Dropped,
            },
    {
        match self.classify(packet) {
            Decision::Ignore => Routed::Ignored,
            Decision::IdentitySet => Routed::IdentitySet,
            Decision::Reject(anomaly) => Routed::Rejected(anomaly),
            Decision::Emit(event) => routed_after_send(try_send(&self.ui_channel, event)),
        }
    }

    /// The request to the transport that carries out `event`.
    pub fn handle_ui_event(&self, event: UiEvent) -> (request: OutboundText)
        ensures
            request@ == outbound(event@),
    {
        match event {
            UiEvent::Message { node_id, message } => OutboundText {
                destination: node_id,
                text: message,
                channel: PRIMARY_CHANNEL,
                want_ack: false,
            },
        }
    }

    /// The node number that the router gives as its own: the one that the
    /// radio announced, or `UNASSIGNED_NODE` while it has announced none.
    pub fn source_node_id(&self) -> (num: u32)
        ensures
            num == self@.source_node_id(),
    {
        match self.node_num {
            Some(num) => num,
            None => UNASSIGNED_NODE,
        }
    }

    /// The node number of this client, once the radio has announced it.
    pub fn node_num(&self) -> (num: Option<u32>)
        ensures
            num == self@.node_num,
    {
        self.node_num
    }

    /// The name under which this client is known on the mesh.
    pub fn user(&self) -> (name: Option<String>)
        ensures
            name_view(name) == self@.user,
    {
        copy_name(&self.user)
    }
}

} // verus!
