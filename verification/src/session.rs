//! The session as a mathematical value, and what events and keys do to it.
//!
//! `App` in the module `app` is the session that runs; its view is a
//! `Session`, and its contracts are stated over the functions here.

use vstd::prelude::*;
use crate::directory::{
    ascending, contains_id, lemma_rank_splits, lemma_upsert_ascending, lemma_upsert_elements,
    listing_of, present, rank, upsert,
};
use crate::focus::{advance, retreat};
use crate::text::{
    byte_len, deleted, inserted, lemma_deleted_byte_len,
    lemma_inserted_fits, lemma_trimmed_byte_len, lemma_trimmed_edges, trimmed, white_space,
    MAX_INPUT_BYTES,
};
use crate::types::{AppState, Focus, Key, MeshEventView, PeerView, UiEventView};

verus! {

/// The state of a session.
pub struct Session {
    /// The directory: the known nodes by ascending node number.
    pub nodes: Seq<PeerView>,
    /// The selection cursor: an index into `nodes`.
    pub selected: Option<nat>,
    /// The node that messages go to.
    pub contact: Option<u32>,
    /// The part of the screen that takes the keys.
    pub focus: Option<Focus>,
    /// The message being written.
    pub input: Seq<char>,
    /// The search text being written.
    pub search: Seq<char>,
    /// How far the conversation is scrolled.
    pub scroll: usize,
    /// Whether events were taken in yet.
    pub state: AppState,
    /// The messages sent and received, oldest first.
    pub conversation: Seq<Seq<char>>,
}

/// What the caller of the session has to do after a key.
pub enum StepView {
    /// Nothing.
    Continue,
    /// End the session.
    Quit,
    /// Hand the event to the radio worker.
    Send(UiEventView),
}

impl Session {
    /// The state a session starts in.
    pub open spec fn initial() -> Session {
        Session {
            nodes: Seq::empty(),
            selected: None,
            contact: None,
            focus: None,
            input: Seq::empty(),
            search: Seq::empty(),
            scroll: 0,
            state: AppState::Loading,
            conversation: Seq::empty(),
        }
    }

    /// What holds of every state that a session reaches.
    pub open spec fn wf(self) -> bool {
        &&& ascending(self.nodes)
        &&& match self.selected {
            None => self.nodes.len() == 0,
            Some(i) => i < self.nodes.len(),
        }
        &&& match self.contact {
            None => true,
            Some(id) => contains_id(self.nodes, id),
        }
        &&& byte_len(self.input) <= MAX_INPUT_BYTES
        &&& byte_len(self.search) <= MAX_INPUT_BYTES
    }

    /// The node number under the selection cursor.
    pub open spec fn selected_id(self) -> Option<u32> {
        match self.selected {
            Some(i) if i < self.nodes.len() => Some(self.nodes[i as int].num),
            _ => None,
        }
    }

    /// The state after `record` was announced. The first record of an empty
    /// directory takes the cursor. Later the cursor stays with its node: it
    /// moves one down when a new node is put before it.
    pub open spec fn node_announced(self, record: PeerView) -> Session {
        let place = rank(self.nodes, record.num);
        let known = present(self.nodes, record.num);
        Session {
            nodes: upsert(self.nodes, record),
            selected: if self.nodes.len() == 0 {
                Some(0nat)
            } else {
                match self.selected {
                    Some(i) if !known && place <= i => Some(i + 1),
                    other => other,
                }
            },
            state: AppState::Loaded,
            ..self
        }
    }

    /// The state after the text `message` was received.
    pub open spec fn message_received(self, message: Seq<char>) -> Session {
        Session { conversation: self.conversation.push(message), ..self }
    }

    /// The state after one event from the radio worker.
    pub open spec fn apply(self, event: MeshEventView) -> Session {
        match event {
            MeshEventView::NodeAvailable(record) => self.node_announced(record),
            MeshEventView::Message { node_id, message } => self.message_received(message),
        }
    }

    /// The state after the events of `events`, taken in order.
    pub open spec fn apply_all(self, events: Seq<MeshEventView>) -> Session
        decreases events.len(),
    {
        if events.len() == 0 {
            self
        } else {
            self.apply_all(events.drop_last()).apply(events.last())
        }
    }

    /// The state after a round of events was taken in.
    pub open spec fn loaded(self) -> Session {
        Session { state: AppState::Loaded, ..self }
    }

    /// The cursor one node down, stopping at the last.
    pub open spec fn next_node(self) -> Session {
        if self.nodes.len() == 0 {
            self
        } else {
            Session {
                selected: match self.selected {
                    Some(i) => if i + 1 < self.nodes.len() {
                        Some(i + 1)
                    } else {
                        Some(i)
                    },
                    None => Some(0nat),
                },
                ..self
            }
        }
    }

    /// The cursor one node up, stopping at the first.
    pub open spec fn previous_node(self) -> Session {
        if self.nodes.len() == 0 {
            self
        } else {
            Session {
                selected: match self.selected {
                    Some(i) => if i > 0 {
                        Some((i - 1) as nat)
                    } else {
                        Some(i)
                    },
                    None => Some(0nat),
                },
                ..self
            }
        }
    }

    /// The node under the cursor becomes the contact.
    pub open spec fn contact_chosen(self) -> Session {
        match self.selected_id() {
            Some(id) => Session { contact: Some(id), ..self },
            None => self,
        }
    }

    /// The conversation one line further down; the offset saturates.
    pub open spec fn scrolled_down(self) -> Session {
        Session {
            scroll: if self.scroll < usize::MAX {
                (self.scroll + 1) as usize
            } else {
                self.scroll
            },
            ..self
        }
    }

    /// The conversation one line further up, stopping at the top.
    pub open spec fn scrolled_up(self) -> Session {
        Session {
            scroll: if self.scroll > 0 {
                (self.scroll - 1) as usize
            } else {
                self.scroll
            },
            ..self
        }
    }

    /// Whether committing `text` sends a message: it must not be empty and
    /// there must be a contact.
    pub open spec fn sends(self, text: Seq<char>) -> bool {
        text.len() > 0 && self.contact is Some
    }

    /// The event that committing `text` hands to the radio worker.
    pub open spec fn outgoing(self, text: Seq<char>) -> Option<UiEventView> {
        if self.sends(text) {
            Some(UiEventView::Message { node_id: self.contact->0, message: text })
        } else {
            None
        }
    }

    /// The state after `text` was committed: the message being written is
    /// gone, and if `text` is sent it is echoed in the conversation.
    pub open spec fn committed(self, text: Seq<char>) -> Session {
        Session {
            input: Seq::empty(),
            conversation: if self.sends(text) {
                self.conversation.push(text)
            } else {
                self.conversation
            },
            ..self
        }
    }

    /// The state after `key` was pressed.
    pub open spec fn pressed(self, key: Key) -> Session {
        if self.state == AppState::Loading {
            self
        } else {
            match key {
                Key::Esc => Session { focus: None, ..self },
                Key::Tab => Session { focus: Some(advance(self.focus)), ..self },
                Key::BackTab => Session { focus: Some(retreat(self.focus)), ..self },
                _ => match self.focus {
                    Some(Focus::NodeList) => match key {
                        Key::Down | Key::Char('j') => self.next_node(),
                        Key::Up | Key::Char('k') => self.previous_node(),
                        Key::Enter => self.contact_chosen(),
                        _ => self,
                    },
                    Some(Focus::Conversation) => match key {
                        Key::Down | Key::Char('j') => self.scrolled_down(),
                        Key::Up | Key::Char('k') => self.scrolled_up(),
                        _ => self,
                    },
                    Some(Focus::Input) => match key {
                        Key::Char(c) => Session { input: inserted(self.input, c), ..self },
                        Key::Backspace => Session { input: deleted(self.input), ..self },
                        Key::Enter => self.committed(trimmed(self.input)),
                        _ => self,
                    },
                    Some(Focus::Search) => match key {
                        Key::Char(c) => Session { search: inserted(self.search, c), ..self },
                        Key::Backspace => Session { search: deleted(self.search), ..self },
                        _ => self,
                    },
                    None => self,
                },
            }
        }
    }

    /// What the caller has to do after `key` was pressed in this state.
    pub open spec fn step(self, key: Key) -> StepView {
        if key == Key::Char('q') && (self.state == AppState::Loading || self.focus is None) {
            StepView::Quit
        } else if self.state == AppState::Loaded && self.focus == Some(Focus::Input) && key
            == Key::Enter {
            match self.outgoing(trimmed(self.input)) {
                Some(event) => StepView::Send(event),
                None => StepView::Continue,
            }
        } else {
            StepView::Continue
        }
    }
}

/// A session starts well formed.
pub proof fn lemma_initial_is_wf()
    ensures
        Session::initial().wf(),
{
    assert(byte_len(Seq::<char>::empty()) == 0);
}

/// Every event leaves a session well formed.
pub proof fn lemma_apply_keeps_wf(s: Session, event: MeshEventView)
    requires
        s.wf(),
    ensures
        s.apply(event).wf(),
{
    match event {
        MeshEventView::NodeAvailable(record) => {
            lemma_upsert_ascending(s.nodes, record);
            lemma_rank_splits(s.nodes, record.num);
            if s.contact is Some {
                let id = s.contact->0;
                let i = choose|i: int| 0 <= i < s.nodes.len() && #[trigger] s.nodes[i].num == id;
                lemma_upsert_elements(s.nodes, record, i);
            }
        },
        MeshEventView::Message { node_id, message } => {},
    }
}

/// Every run of events leaves a session well formed. In particular the
/// directory is listed by ascending node number, whatever was announced and
/// in whatever order.
pub proof fn lemma_apply_all_keeps_wf(s: Session, events: Seq<MeshEventView>)
    requires
        s.wf(),
    ensures
        s.apply_all(events).wf(),
        ascending(s.apply_all(events).nodes),
    decreases events.len(),
{
    if events.len() > 0 {
        lemma_apply_all_keeps_wf(s, events.drop_last());
        lemma_apply_keeps_wf(s.apply_all(events.drop_last()), events.last());
    }
}

/// The directory only grows: a node that is listed stays listed through
/// every event, and no key changes the directory.
pub proof fn lemma_directory_only_grows(s: Session, event: MeshEventView, key: Key, id: u32)
    requires
        s.wf(),
        contains_id(s.nodes, id),
    ensures
        contains_id(s.apply(event).nodes, id),
        s.apply(event).nodes.len() >= s.nodes.len(),
        s.pressed(key).nodes == s.nodes,
{
    match event {
        MeshEventView::NodeAvailable(record) => {
            let i = choose|i: int| 0 <= i < s.nodes.len() && #[trigger] s.nodes[i].num == id;
            lemma_upsert_elements(s.nodes, record, i);
            lemma_upsert_ascending(s.nodes, record);
        },
        MeshEventView::Message { node_id, message } => {},
    }
}

/// The events that announce the records of `records`, in order.
pub open spec fn announcements(records: Seq<PeerView>) -> Seq<MeshEventView> {
    records.map_values(|r: PeerView| MeshEventView::NodeAvailable(r))
}

/// What a new session lists after a run of announcements is the listing of
/// the announced records, which does not depend on the order of arrival.
pub proof fn lemma_announcements_give_listing(records: Seq<PeerView>)
    ensures
        Session::initial().apply_all(announcements(records)).nodes == listing_of(records),
    decreases records.len(),
{
    if records.len() > 0 {
        lemma_announcements_give_listing(records.drop_last());
        assert(announcements(records).drop_last() =~= announcements(records.drop_last()));
    }
}

/// Announcing a record twice is the same as announcing it once.
pub proof fn lemma_announcing_twice(s: Session, record: PeerView)
    requires
        s.wf(),
    ensures
        s.node_announced(record).node_announced(record) == s.node_announced(record),
{
    lemma_upsert_ascending(s.nodes, record);
    let once = s.node_announced(record);
    let twice = once.node_announced(record);
    let k = rank(s.nodes, record.num);
    lemma_rank_splits(s.nodes, record.num);
    assert(rank(once.nodes, record.num) == k);
    assert(once.nodes[k] == record);
    assert(twice.nodes == once.nodes.update(k, record));
    assert(twice.nodes =~= once.nodes);
}

/// The first record of an empty directory takes the selection cursor.
pub proof fn lemma_first_node_takes_cursor(s: Session, record: PeerView)
    requires
        s.nodes.len() == 0,
    ensures
        s.node_announced(record).nodes == seq![record],
        s.node_announced(record).selected == Some(0nat),
        s.node_announced(record).selected_id() == Some(record.num),
{
    assert(s.node_announced(record).nodes =~= seq![record]);
}

/// Once the cursor is on a node it stays on that node through every event,
/// though its index moves when a node is put before it; and the contact
/// stays the same.
pub proof fn lemma_selection_is_stable(s: Session, event: MeshEventView)
    requires
        s.wf(),
        s.selected is Some,
    ensures
        s.apply(event).selected_id() == s.selected_id(),
        s.apply(event).contact == s.contact,
{
    match event {
        MeshEventView::NodeAvailable(record) => {
            lemma_upsert_ascending(s.nodes, record);
            lemma_rank_splits(s.nodes, record.num);
            lemma_upsert_elements(s.nodes, record, s.selected->0 as int);
        },
        MeshEventView::Message { node_id, message } => {},
    }
}

/// The same through a run of events.
pub proof fn lemma_selection_is_stable_through(s: Session, events: Seq<MeshEventView>)
    requires
        s.wf(),
        s.selected is Some,
    ensures
        s.apply_all(events).selected_id() == s.selected_id(),
        s.apply_all(events).contact == s.contact,
        s.apply_all(events).selected is Some,
    decreases events.len(),
{
    if events.len() > 0 {
        let before = s.apply_all(events.drop_last());
        lemma_selection_is_stable_through(s, events.drop_last());
        lemma_apply_all_keeps_wf(s, events.drop_last());
        lemma_selection_is_stable(before, events.last());
        lemma_apply_keeps_wf(before, events.last());
    }
}

/// Every key leaves a session well formed.
pub proof fn lemma_pressed_keeps_wf(s: Session, key: Key)
    requires
        s.wf(),
    ensures
        s.pressed(key).wf(),
{
    if let Key::Char(c) = key {
        lemma_inserted_fits(s.input, c);
        lemma_inserted_fits(s.search, c);
    }
    lemma_deleted_byte_len(s.input);
    lemma_deleted_byte_len(s.search);
    assert(byte_len(Seq::<char>::empty()) == 0);
    if s.selected is Some {
        let i = s.selected->0 as int;
        assert(s.nodes[i].num == s.selected_id()->0);
    }
}

/// Committing the message always clears it. With a contact, a message that
/// is more than white space is sent to the contact, trimmed, and echoed once
/// in the conversation. Without a contact, or with nothing but white space,
/// nothing is sent and the conversation stays as it is.
pub proof fn lemma_commit_clears(s: Session)
    requires
        s.state == AppState::Loaded,
        s.focus == Some(Focus::Input),
    ensures
        s.pressed(Key::Enter).input == Seq::<char>::empty(),
        s.contact is Some && trimmed(s.input).len() > 0 ==> {
            &&& s.step(Key::Enter) == StepView::Send(
                UiEventView::Message { node_id: s.contact->0, message: trimmed(s.input) },
            )
            &&& s.pressed(Key::Enter).conversation == s.conversation.push(trimmed(s.input))
        },
        s.contact is None || trimmed(s.input).len() == 0 ==> {
            &&& s.step(Key::Enter) == StepView::Continue
            &&& s.pressed(Key::Enter).conversation == s.conversation
        },
        s.pressed(Key::Enter) == (Session {
            input: s.pressed(Key::Enter).input,
            conversation: s.pressed(Key::Enter).conversation,
            ..s
        }),
{
}

/// A character typed into a message that already fills a frame is not
/// taken: the message stays as it is.
pub proof fn lemma_full_input_rejects(s: Session, c: char)
    requires
        byte_len(s.input) >= MAX_INPUT_BYTES,
    ensures
        s.pressed(Key::Char(c)).input == s.input,
{
    lemma_inserted_fits(s.input, c);
}

/// A message that is sent goes to the contact, who is in the directory; it
/// is not empty, has no white space at either end, and fits in one frame.
pub proof fn lemma_sent_message_fits(s: Session, key: Key)
    requires
        s.wf(),
        s.step(key) is Send,
    ensures
        s.step(key)->Send_0 == (UiEventView::Message {
            node_id: s.contact->0,
            message: trimmed(s.input),
        }),
        s.contact is Some,
        contains_id(s.nodes, s.contact->0),
        0 < trimmed(s.input).len(),
        byte_len(trimmed(s.input)) <= MAX_INPUT_BYTES,
        !white_space(trimmed(s.input).first()),
        !white_space(trimmed(s.input).last()),
{
    lemma_trimmed_byte_len(s.input);
    lemma_trimmed_edges(s.input);
}

} // verus!
