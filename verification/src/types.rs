//! The values that travel between the radio worker and the session.

use vstd::prelude::*;

verus! {

/// What is known of one node of the mesh: its number and, once the node has
/// announced it, the name to show for it.
#[derive(Clone, Debug, PartialEq, Eq)]
pub struct PeerRecord {
    pub num: u32,
    pub long_name: Option<String>,
}

/// A `PeerRecord` as a mathematical value.
pub struct PeerView {
    pub num: u32,
    pub long_name: Option<Seq<char>>,
}

/// An optional text as a mathematical value.
pub open spec fn name_view(name: Option<String>) -> Option<Seq<char>> {
    match name {
        Some(s) => Some(s@),
        None => None,
    }
}

impl View for PeerRecord {
    type V = PeerView;

    open spec fn view(&self) -> PeerView {
        PeerView { num: self.num, long_name: name_view(self.long_name) }
    }
}

/// A copy of an optional text.
pub fn copy_name(name: &Option<String>) -> (copy: Option<String>)
    ensures
        name_view(copy) == name_view(*name),
{
    match name {
        Some(s) => Some(s.clone()),
        None => None,
    }
}

/// The name shown for a node that has announced none.
pub open spec fn unknown_name() -> Seq<char> {
    "UNK"@
}

impl PeerView {
    /// The name to show for the node.
    pub open spec fn display_name(self) -> Seq<char> {
        match self.long_name {
            Some(name) => name,
            None => unknown_name(),
        }
    }
}

impl PeerRecord {
    /// The name to show for the node: the name it announced, or a
    /// placeholder if it announced none.
    pub fn display_name(&self) -> (name: String)
        ensures
            name@ == self@.display_name(),
    {
        match &self.long_name {
            Some(name) => name.clone(),
            None => "UNK".to_owned(),
        }
    }

    /// A copy of this record.
    pub fn duplicate(&self) -> (copy: PeerRecord)
        ensures
            copy@ == self@,
    {
        PeerRecord { num: self.num, long_name: copy_name(&self.long_name) }
    }
}

/// Events originating from the user interface and going to the radio worker.
#[derive(Clone, Debug, PartialEq, Eq)]
pub enum UiEvent {
    /// Send the text `message` to the node `node_id`.
    Message { node_id: u32, message: String },
}

/// A `UiEvent` as a mathematical value.
pub enum UiEventView {
    Message { node_id: u32, message: Seq<char> },
}

impl View for UiEvent {
    type V = UiEventView;

    open spec fn view(&self) -> UiEventView {
        match self {
            UiEvent::Message { node_id, message } => UiEventView::Message {
                node_id: *node_id,
                message: message@,
            },
        }
    }
}

/// Events originating from the radio worker and going to the user interface.
#[derive(Clone, Debug, PartialEq, Eq)]
pub enum MeshEvent {
    /// A node was announced, for the first time or again.
    NodeAvailable(Box<PeerRecord>),
    /// The node `node_id` sent the text `message`.
    Message { node_id: u32, message: String },
}

/// A `MeshEvent` as a mathematical value.
pub enum MeshEventView {
    NodeAvailable(PeerView),
    Message { node_id: u32, message: Seq<char> },
}

impl View for MeshEvent {
    type V = MeshEventView;

    open spec fn view(&self) -> MeshEventView {
        match self {
            MeshEvent::NodeAvailable(record) => MeshEventView::NodeAvailable(record@),
            MeshEvent::Message { node_id, message } => MeshEventView::Message {
                node_id: *node_id,
                message: message@,
            },
        }
    }
}

/// Whether the first round of events from the radio has been taken in.
#[derive(Copy, Clone, Debug, PartialEq, Eq, Structural)]
pub enum AppState {
    Loading,
    Loaded,
}

/// The specific element of the UI that is currently focused.
#[derive(Copy, Clone, Debug, PartialEq, Eq, Structural)]
pub enum Focus {
    NodeList,
    Conversation,
    Input,
    Search,
}

/// A key of the operator's keyboard, as far as the session tells keys apart.
#[derive(Copy, Clone, Debug, PartialEq, Eq, Structural)]
pub enum Key {
    Esc,
    Tab,
    BackTab,
    Up,
    Down,
    Enter,
    Backspace,
    Char(char),
    Other,
}

} // verus!
