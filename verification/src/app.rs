//! The session that runs: the peer directory, the focus, the text being
//! written and the conversation, between the two queues.

use vstd::prelude::*;
use tokio::sync::mpsc::{Receiver, Sender};
use crate::channel::{pending, try_recv, try_send, SendFault};
use crate::directory::{
    ascending, lemma_present_iff_listed, place, record_of, records_view, upsert_record,
};
use crate::focus::{next_focus, previous_focus};
use crate::session::{lemma_apply_keeps_wf, lemma_pressed_keeps_wf, Session, StepView};
use crate::text::{byte_len, delete_char, insert_char, trimmed, trimmed_text};
use crate::types::{
    AppState, Focus, Key, MeshEvent, MeshEventView, PeerRecord, UiEvent, UiEventView,
};

verus! {

/// The texts of `v` as mathematical values.
pub open spec fn texts_view(v: Seq<String>) -> Seq<Seq<char>> {
    v.map_values(|s: String| s@)
}

/// The events of `v` as mathematical values.
pub open spec fn events_view(v: Seq<MeshEvent>) -> Seq<MeshEventView> {
    v.map_values(|e: MeshEvent| e@)
}

/// An optional index as a mathematical value.
pub open spec fn index_view(index: Option<usize>) -> Option<nat> {
    match index {
        Some(i) => Some(i as nat),
        None => None,
    }
}

/// An optional event as a mathematical value.
pub open spec fn outgoing_view(event: Option<UiEvent>) -> Option<UiEventView> {
    match event {
        Some(e) => Some(e@),
        None => None,
    }
}

/// What the caller of the session has to do after a key.
#[derive(Clone, Debug, PartialEq, Eq)]
pub enum Step {
    /// Nothing.
    Continue,
    /// End the session.
    Quit,
    /// Hand the event to the radio worker.
    Send(UiEvent),
}

impl View for Step {
    type V = StepView;

    open spec fn view(&self) -> StepView {
        match self {
            Step::Continue => StepView::Continue,
            Step::Quit => StepView::Quit,
            Step::Send(event) => StepView::Send(event@),
        }
    }
}

/// What a key came to, once an event it gave rise to was handed on.
#[derive(Copy, Clone, Debug, PartialEq, Eq, Structural)]
pub enum Flow {
    /// The session goes on.
    Continue,
    /// The session ends.
    Quit,
    /// A message was put on the queue to the radio worker.
    Sent,
    /// A message was dropped because the queue did not take it.
    Dropped(SendFault),
}

/// What a key that sends a message came to, from what the queue answered.
pub fn flow_after_send(sent: Result<(), SendFault>) -> (flow: Flow)
    ensures
        flow == match sent {
            Ok(()) => Flow::Sent,
            Err(fault) => Flow::Dropped(fault),
        },
{
    match sent {
        Ok(()) => Flow::Sent,
        Err(fault) => Flow::Dropped(fault),
    }
}

/// A running session.
pub struct App {
    receiver: Receiver<MeshEvent>,
    transmitter: Sender<UiEvent>,
    nodes: Vec<PeerRecord>,
    input: String,
    search: String,
    focus: Option<Focus>,
    selected: Option<usize>,
    vertical_scroll: usize,
    current_contact: Option<u32>,
    state: AppState,
    current_conversation: Vec<String>,
}

impl View for App {
    type V = Session;

    closed spec fn view(&self) -> Session {
        Session {
            nodes: records_view(self.nodes@),
            selected: index_view(self.selected),
            contact: self.current_contact,
            focus: self.focus,
            input: self.input@,
            search: self.search@,
            scroll: self.vertical_scroll,
            state: self.state,
            conversation: texts_view(self.current_conversation@),
        }
    }
}

impl App {
    /// What holds of a session between any two calls.
    pub open spec fn wf(&self) -> bool {
        self@.wf()
    }

    /// A session in its initial state, between the two queues.
    pub fn new(receiver: Receiver<MeshEvent>, transmitter: Sender<UiEvent>) -> (app: App)
        ensures
            app@ == Session::initial(),
            app.wf(),
    {
        let app = App {
            receiver,
            transmitter,
            nodes: Vec::new(),
            input: String::new(),
            search: String::new(),
            focus: None,
            selected: None,
            vertical_scroll: 0,
            current_contact: None,
            state: AppState::Loading,
            current_conversation: Vec::new(),
        };
        assert(records_view(app.nodes@) =~= Seq::empty());
        assert(texts_view(app.current_conversation@) =~= Seq::empty());
        assert(byte_len(Seq::<char>::empty()) == 0);
        app
    }

    /// Takes in one event from the radio worker.
    pub fn apply_event(&mut self, event: MeshEvent)
        requires
            old(self).wf(),
        ensures
            final(self).wf(),
            final(self)@ == old(self)@.apply(event@),
    {
        proof {
            lemma_apply_keeps_wf(self@, event@);
        }
        match event {
            MeshEvent::NodeAvailable(record) => {
                let was_empty: bool = self.nodes.len() == 0;
                let (place, known) = upsert_record(&mut self.nodes, *record);
                if was_empty {
                    self.selected = Some(0);
                } else if !known {
                    if let Some(i) = self.selected {
                        if place <= i {
                            self.selected = Some(i + 1);
                        }
                    }
                }
                self.state = AppState::Loaded;
            },
            MeshEvent::Message { node_id: _, message } => {
                self.current_conversation.push(message);
                assert(texts_view(self.current_conversation@) =~= texts_view(
                    old(self).current_conversation@,
                ).push(message@));
            },
        }
    }

    /// Takes in the events of `events`, in order.
    pub fn apply_events(&mut self, events: Vec<MeshEvent>)
        requires
            old(self).wf(),
        ensures
            final(self).wf(),
            final(self)@ == old(self)@.apply_all(events_view(events@)),
    {
        let ghost all = events_view(events@);
        for event in it: events
            invariant
                self.wf(),
                events_view(it.seq()) == all,
                self@ == old(self)@.apply_all(all.take(it.index() as int)),
        {
            proof {
                let done = it.index() as int;
                assert(event@ == all[done]);
                assert(all.take(done + 1).drop_last() =~= all.take(done));
                assert(all.take(done + 1).last() == all[done]);
            }
            self.apply_event(event);
        }
        assert(all.take(all.len() as int) =~= all);
    }

    /// Takes off the queue the events that wait there when the call is
    /// made, oldest first. The session itself is left as it is.
    pub fn drain(&mut self) -> (events: Vec<MeshEvent>)
        ensures
            final(self)@ == old(self)@,
    {
        let budget: usize = pending(&self.receiver);
        let mut events: Vec<MeshEvent> = Vec::new();
        let mut taken: usize = 0;
        while taken < budget
            invariant
                self@ == old(self)@,
            decreases budget - taken,
        {
            match try_recv(&mut self.receiver) {
                Some(event) => events.push(event),
                None => break ,
            }
            taken = taken + 1;
        }
        events
    }

    /// One tick: takes in the events that wait on the queue, in the order
    /// in which they came, and marks the session as loaded. Which events
    /// wait depends on the radio worker.
    pub fn update(&mut self)
        requires
            old(self).wf(),
        ensures
            final(self).wf(),
            exists|events: Seq<MeshEventView>|
                final(self)@ == (#[trigger] old(self)@.apply_all(events)).loaded(),
    {
        let events = self.drain();
        let ghost taken = events_view(events@);
        self.apply_events(events);
        self.state = AppState::Loaded;
        assert(self@ == old(self)@.apply_all(taken).loaded());
    }

    /// Moves the selection cursor one node down, stopping at the last.
    pub fn next_node(&mut self)
        requires
            old(self).wf(),
        ensures
            final(self).wf(),
            final(self)@ == old(self)@.next_node(),
    {
        if self.nodes.len() == 0 {
            return ;
        }
        let i: usize = match self.selected {
            Some(i) => if i < self.nodes.len() - 1 {
                i + 1
            } else {
                i
            },
            None => 0,
        };
        self.selected = Some(i);
    }

    /// Moves the selection cursor one node up, stopping at the first.
    pub fn previous_node(&mut self)
        requires
            old(self).wf(),
        ensures
            final(self).wf(),
            final(self)@ == old(self)@.previous_node(),
    {
        if self.nodes.len() == 0 {
            return ;
        }
        let i: usize = match self.selected {
            Some(i) => if i > 0 {
                i - 1
            } else {
                i
            },
            None => 0,
        };
        self.selected = Some(i);
    }

    /// Makes the node under the selection cursor the contact. The node is
    /// looked up in the listing as it stands now.
    pub fn choose_contact(&mut self)
        requires
            old(self).wf(),
        ensures
            final(self).wf(),
            final(self)@ == old(self)@.contact_chosen(),
    {
        if let Some(i) = self.selected {
            if i < self.nodes.len() {
                let id: u32 = self.nodes[i].num;
                assert(records_view(self.nodes@)[i as int].num == id);
                self.current_contact = Some(id);
            }
        }
    }

    /// Scrolls the conversation one line down.
    pub fn scroll_down(&mut self)
        ensures
            final(self)@ == old(self)@.scrolled_down(),
    {
        self.vertical_scroll = self.vertical_scroll.saturating_add(1);
    }

    /// Scrolls the conversation one line up, stopping at the top.
    pub fn scroll_up(&mut self)
        ensures
            final(self)@ == old(self)@.scrolled_up(),
    {
        self.vertical_scroll = self.vertical_scroll.saturating_sub(1);
    }

    /// Commits `text`, the message as it is to be sent: if it is not empty
    /// and there is a contact, it is echoed in the conversation and
    /// returned as an event for the radio worker. The message being written
    /// is cleared either way.
    pub fn commit_text(&mut self, text: String) -> (event: Option<UiEvent>)
        requires
            old(self).wf(),
        ensures
            final(self).wf(),
            final(self)@ == old(self)@.committed(text@),
            outgoing_view(event) == old(self)@.outgoing(text@),
    {
        let event = if text.as_str().is_empty() {
            None
        } else {
            match self.current_contact {
                Some(node_id) => {
                    self.current_conversation.push(text.clone());
                    assert(texts_view(self.current_conversation@) =~= texts_view(
                        old(self).current_conversation@,
                    ).push(text@));
                    Some(UiEvent::Message { node_id, message: text })
                },
                None => None,
            }
        };
        self.input = String::new();
        assert(byte_len(Seq::<char>::empty()) == 0);
        event
    }

    /// Commits the message being written, without the white space around
    /// it.
    pub fn commit_input(&mut self) -> (event: Option<UiEvent>)
        requires
            old(self).wf(),
        ensures
            final(self).wf(),
            final(self)@ == old(self)@.committed(trimmed(old(self)@.input)),
            outgoing_view(event) == old(self)@.outgoing(trimmed(old(self)@.input)),
    {
        let text = trimmed_text(&self.input);
        self.commit_text(text)
    }

    /// Takes one key: changes the session as the key asks and says what
    /// the caller has to do.
    pub fn press(&mut self, key: Key) -> (step: Step)
        requires
            old(self).wf(),
        ensures
            final(self).wf(),
            final(self)@ == old(self)@.pressed(key),
            step@ == old(self)@.step(key),
    {
        proof {
            lemma_pressed_keeps_wf(self@, key);
        }
        if self.state == AppState::Loading {
            return match key {
                Key::Char(c) => if c == 'q' {
                    Step::Quit
                } else {
                    Step::Continue
                },
                _ => Step::Continue,
            };
        }
        match key {
            Key::Esc => {
                self.focus = None;
                Step::Continue
            },
            Key::Tab => {
                self.focus = Some(next_focus(self.focus));
                Step::Continue
            },
            Key::BackTab => {
                self.focus = Some(previous_focus(self.focus));
                Step::Continue
            },
            _ => match self.focus {
                Some(Focus::NodeList) => {
                    match key {
                        Key::Down => self.next_node(),
                        Key::Up => self.previous_node(),
                        Key::Char(c) => if c == 'j' {
                            self.next_node()
                        } else if c == 'k' {
                            self.previous_node()
                        },
                        Key::Enter => self.choose_contact(),
                        _ => {},
                    }
                    Step::Continue
                },
                Some(Focus::Conversation) => {
                    match key {
                        Key::Down => self.scroll_down(),
                        Key::Up => self.scroll_up(),
                        Key::Char(c) => if c == 'j' {
                            self.scroll_down()
                        } else if c == 'k' {
                            self.scroll_up()
                        },
                        _ => {},
                    }
                    Step::Continue
                },
                Some(Focus::Input) => match key {
                    Key::Char(c) => {
                        let _ = insert_char(&mut self.input, c);
                        Step::Continue
                    },
                    Key::Backspace => {
                        delete_char(&mut self.input);
                        Step::Continue
                    },
                    Key::Enter => match self.commit_input() {
                        Some(event) => Step::Send(event),
                        None => Step::Continue,
                    },
                    _ => Step::Continue,
                },
                Some(Focus::Search) => {
                    match key {
                        Key::Char(c) => {
                            let _ = insert_char(&mut self.search, c);
                        },
                        Key::Backspace => {
                            delete_char(&mut self.search);
                        },
                        _ => {},
                    }
                    Step::Continue
                },
                None => match key {
                    Key::Char(c) => if c == 'q' {
                        Step::Quit
                    } else {
                        Step::Continue
                    },
                    _ => Step::Continue,
                },
            },
        }
    }

    /// Takes one key and hands the message that it sends, if any, to the
    /// queue to the radio worker, without waiting. The session changes the
    /// same whether or not the queue takes the message.
    pub fn handle_key(&mut self, key: Key) -> (flow: Flow)
        requires
            old(self).wf(),
        ensures
            final(self).wf(),
            final(self)@ == old(self)@.pressed(key),
            match old(self)@.step(key) {
                StepView::Continue => flow == Flow::Continue,
                StepView::Quit => flow == Flow::Quit,
                StepView::Send(_) => flow is Sent || flow is Dropped,
            },
    {
        match self.press(key) {
            Step::Continue => Flow::Continue,
            Step::Quit => Flow::Quit,
            Step::Send(event) => flow_after_send(try_send(&self.transmitter, event)),
        }
    }

    /// The part of the screen that takes the keys.
    pub fn focus(&self) -> (focus: Option<Focus>)
        ensures
            focus == self@.focus,
    {
        self.focus
    }

    /// Whether events were taken in yet.
    pub fn state(&self) -> (state: AppState)
        ensures
            state == self@.state,
    {
        self.state
    }

    /// The selection cursor: an index into the listing.
    pub fn selected(&self) -> (index: Option<usize>)
        ensures
            index_view(index) == self@.selected,
    {
        self.selected
    }

    /// How far the conversation is scrolled.
    pub fn vertical_scroll(&self) -> (offset: usize)
        ensures
            offset == self@.scroll,
    {
        self.vertical_scroll
    }

    /// The number of the node that messages go to.
    pub fn current_contact(&self) -> (contact: Option<u32>)
        ensures
            contact == self@.contact,
    {
        self.current_contact
    }

    /// The message being written.
    pub fn input(&self) -> (text: &String)
        ensures
            text@ == self@.input,
    {
        &self.input
    }

    /// The search text being written.
    pub fn search(&self) -> (text: &String)
        ensures
            text@ == self@.search,
    {
        &self.search
    }

    /// The messages sent and received, oldest first.
    pub fn conversation(&self) -> (log: &Vec<String>)
        ensures
            texts_view(log@) == self@.conversation,
    {
        &self.current_conversation
    }

    /// Whether `record` passes the search. The search text does not narrow
    /// the listing: every record passes.
    pub fn matches_search(&self, record: &PeerRecord) -> (shown: bool)
        ensures
            shown,
    {
        true
    }

    /// The nodes to show, by ascending node number.
    pub fn get_sorted_nodes(&self) -> (listing: Vec<PeerRecord>)
        ensures
            records_view(listing@) == self@.nodes,
            self.wf() ==> ascending(records_view(listing@)),
    {
        let mut listing: Vec<PeerRecord> = Vec::new();
        let mut i: usize = 0;
        while i < self.nodes.len()
            invariant
                i <= self.nodes.len(),
                listing.len() == i,
                forall|j: int| 0 <= j < i ==> (#[trigger] listing[j])@ == self.nodes[j]@,
            decreases self.nodes.len() - i,
        {
            if self.matches_search(&self.nodes[i]) {
                listing.push(self.nodes[i].duplicate());
            }
            i += 1;
        }
        assert(records_view(listing@) =~= records_view(self.nodes@));
        listing
    }

    /// The record of the contact, as the directory holds it now.
    pub fn contact_record(&self) -> (record: Option<PeerRecord>)
        requires
            self.wf(),
        ensures
            record is Some <==> self@.contact is Some,
            record matches Some(r) ==> record_of(self@.nodes, self@.contact->0) == Some(r@),
    {
        match self.current_contact {
            Some(id) => {
                let k: usize = place(&self.nodes, id);
                proof {
                    lemma_present_iff_listed(self@.nodes, id);
                }
                Some(self.nodes[k].duplicate())
            },
            None => None,
        }
    }
}

} // verus!
