use meshcom::app::{App, Flow, Step};
use meshcom::channel::SendFault;
use meshcom::types::{AppState, Focus, Key, MeshEvent, PeerRecord, UiEvent};
use tokio::sync::mpsc::error::TryRecvError;
use tokio::sync::mpsc::{channel, Receiver, Sender};

fn peer(num: u32, name: &str) -> PeerRecord {
    PeerRecord { num, long_name: Some(name.to_string()) }
}

fn announce(num: u32, name: &str) -> MeshEvent {
    MeshEvent::NodeAvailable(Box::new(peer(num, name)))
}

fn session(capacity: usize) -> (App, Sender<MeshEvent>, Receiver<UiEvent>) {
    let (mesh_tx, mesh_rx) = channel::<MeshEvent>(capacity);
    let (ui_tx, ui_rx) = channel::<UiEvent>(capacity);
    (App::new(mesh_rx, ui_tx), mesh_tx, ui_rx)
}

fn numbers(app: &App) -> Vec<u32> {
    app.get_sorted_nodes().iter().map(|r| r.num).collect()
}

fn type_text(app: &mut App, text: &str) {
    for c in text.chars() {
        assert_eq!(app.handle_key(Key::Char(c)), Flow::Continue);
    }
}

/// A loaded session with the contact 42 and the focus on the input.
fn writing_to_42(capacity: usize) -> (App, Sender<MeshEvent>, Receiver<UiEvent>) {
    let (mut app, mesh_tx, ui_rx) = session(capacity);
    app.apply_event(announce(42, "Alice"));
    assert_eq!(app.handle_key(Key::Tab), Flow::Continue);
    assert_eq!(app.handle_key(Key::Enter), Flow::Continue);
    assert_eq!(app.current_contact(), Some(42));
    assert_eq!(app.handle_key(Key::Tab), Flow::Continue);
    assert_eq!(app.handle_key(Key::Tab), Flow::Continue);
    assert_eq!(app.focus(), Some(Focus::Input));
    (app, mesh_tx, ui_rx)
}

#[test]
fn a_new_session_is_empty_and_loading() {
    let (app, _mesh_tx, _ui_rx) = session(4);
    assert_eq!(app.state(), AppState::Loading);
    assert_eq!(app.focus(), None);
    assert_eq!(app.selected(), None);
    assert_eq!(app.current_contact(), None);
    assert_eq!(app.vertical_scroll(), 0);
    assert_eq!(app.input().as_str(), "");
    assert_eq!(app.search().as_str(), "");
    assert!(app.conversation().is_empty());
    assert!(app.get_sorted_nodes().is_empty());
    assert!(app.contact_record().is_none());
}

#[test]
fn directory_is_listed_by_ascending_number_whatever_the_arrival_order() {
    let orders: Vec<Vec<u32>> = vec![
        vec![10, 20, 30],
        vec![10, 30, 20],
        vec![20, 10, 30],
        vec![20, 30, 10],
        vec![30, 10, 20],
        vec![30, 20, 10],
    ];
    for order in orders {
        let (mut app, _mesh_tx, _ui_rx) = session(4);
        for num in order {
            app.apply_event(announce(num, "node"));
            let listed = numbers(&app);
            let mut sorted = listed.clone();
            sorted.sort();
            assert_eq!(listed, sorted);
        }
        assert_eq!(numbers(&app), vec![10, 20, 30]);
    }
}

#[test]
fn directory_order_holds_at_the_ends_of_the_number_range() {
    let (mut app, _mesh_tx, _ui_rx) = session(4);
    app.apply_event(announce(u32::MAX, "last"));
    app.apply_event(announce(0, "first"));
    app.apply_event(announce(0x8000_0000, "middle"));
    assert_eq!(numbers(&app), vec![0, 0x8000_0000, u32::MAX]);
}

#[test]
fn announcing_a_record_twice_is_announcing_it_once() {
    let (mut once, _t1, _r1) = session(4);
    let (mut twice, _t2, _r2) = session(4);
    for app in [&mut once, &mut twice] {
        app.apply_event(announce(5, "five"));
        app.apply_event(announce(9, "nine"));
    }
    once.apply_event(announce(7, "seven"));
    twice.apply_event(announce(7, "seven"));
    twice.apply_event(announce(7, "seven"));
    assert_eq!(once.get_sorted_nodes(), twice.get_sorted_nodes());
    assert_eq!(once.get_sorted_nodes(), vec![peer(5, "five"), peer(7, "seven"), peer(9, "nine")]);
    assert_eq!(once.selected(), twice.selected());
    assert_eq!(once.state(), twice.state());
}

#[test]
fn a_later_announcement_replaces_the_record_of_its_node() {
    let (mut app, _mesh_tx, _ui_rx) = session(4);
    app.apply_event(MeshEvent::NodeAvailable(Box::new(PeerRecord { num: 5, long_name: None })));
    app.apply_event(announce(9, "nine"));
    app.apply_event(announce(5, "five"));
    assert_eq!(app.get_sorted_nodes(), vec![peer(5, "five"), peer(9, "nine")]);
    assert_eq!(app.selected(), Some(0));
}

#[test]
fn the_first_node_takes_the_cursor() {
    let (mut app, _mesh_tx, _ui_rx) = session(4);
    assert_eq!(app.selected(), None);
    app.apply_event(announce(50, "fifty"));
    assert_eq!(app.selected(), Some(0));
    assert_eq!(app.get_sorted_nodes()[0].num, 50);
    assert_eq!(app.state(), AppState::Loaded);
}

#[test]
fn the_cursor_stays_with_its_node_while_the_directory_grows() {
    let (mut app, _mesh_tx, _ui_rx) = session(4);
    app.apply_event(announce(50, "fifty"));
    app.apply_event(announce(10, "ten"));
    assert_eq!(app.selected(), Some(1));
    app.apply_event(announce(70, "seventy"));
    assert_eq!(app.selected(), Some(1));
    app.apply_event(announce(30, "thirty"));
    assert_eq!(app.selected(), Some(2));
    app.apply_event(announce(30, "thirty again"));
    assert_eq!(app.selected(), Some(2));
    app.apply_event(MeshEvent::Message { node_id: 10, message: "hi".to_string() });
    assert_eq!(app.selected(), Some(2));
    let index = app.selected().unwrap();
    assert_eq!(app.get_sorted_nodes()[index].num, 50);
}

#[test]
fn the_contact_stays_while_the_directory_grows() {
    let (mut app, _mesh_tx, _ui_rx) = session(4);
    app.apply_event(announce(50, "fifty"));
    app.handle_key(Key::Tab);
    app.handle_key(Key::Enter);
    assert_eq!(app.current_contact(), Some(50));
    app.apply_event(announce(10, "ten"));
    app.apply_event(announce(50, "fifty, renamed"));
    assert_eq!(app.current_contact(), Some(50));
    assert_eq!(app.contact_record(), Some(peer(50, "fifty, renamed")));
}

#[test]
fn commit_takes_the_node_under_the_cursor_in_the_listing_of_the_moment() {
    let (mut app, _mesh_tx, _ui_rx) = session(4);
    app.apply_event(announce(20, "twenty"));
    app.apply_event(announce(30, "thirty"));
    app.handle_key(Key::Tab);
    app.handle_key(Key::Down);
    assert_eq!(app.selected(), Some(1));
    app.apply_event(announce(10, "ten"));
    app.handle_key(Key::Enter);
    assert_eq!(app.current_contact(), Some(30));
}

#[test]
fn the_cursor_stops_at_both_ends_of_the_listing() {
    let (mut app, _mesh_tx, _ui_rx) = session(4);
    app.next_node();
    assert_eq!(app.selected(), None);
    app.previous_node();
    assert_eq!(app.selected(), None);
    for num in [1, 2, 3] {
        app.apply_event(announce(num, "node"));
    }
    assert_eq!(app.selected(), Some(0));
    app.previous_node();
    assert_eq!(app.selected(), Some(0));
    app.next_node();
    assert_eq!(app.selected(), Some(1));
    app.next_node();
    assert_eq!(app.selected(), Some(2));
    app.next_node();
    assert_eq!(app.selected(), Some(2));
    app.previous_node();
    assert_eq!(app.selected(), Some(1));
}

#[test]
fn the_node_list_takes_arrows_and_letters() {
    let (mut app, _mesh_tx, _ui_rx) = session(4);
    for num in [1, 2, 3] {
        app.apply_event(announce(num, "node"));
    }
    app.handle_key(Key::Tab);
    app.handle_key(Key::Char('j'));
    assert_eq!(app.selected(), Some(1));
    app.handle_key(Key::Down);
    assert_eq!(app.selected(), Some(2));
    app.handle_key(Key::Char('k'));
    assert_eq!(app.selected(), Some(1));
    app.handle_key(Key::Up);
    assert_eq!(app.selected(), Some(0));
    app.handle_key(Key::Char('x'));
    app.handle_key(Key::Backspace);
    app.handle_key(Key::Other);
    assert_eq!(app.selected(), Some(0));
    assert_eq!(app.input().as_str(), "");
}

#[test]
fn the_conversation_scrolls_down_without_bound_and_up_to_the_top() {
    let (mut app, _mesh_tx, _ui_rx) = session(4);
    app.apply_event(announce(1, "one"));
    app.handle_key(Key::Tab);
    app.handle_key(Key::Tab);
    assert_eq!(app.focus(), Some(Focus::Conversation));
    app.handle_key(Key::Up);
    assert_eq!(app.vertical_scroll(), 0);
    app.handle_key(Key::Down);
    app.handle_key(Key::Char('j'));
    app.handle_key(Key::Down);
    assert_eq!(app.vertical_scroll(), 3);
    app.handle_key(Key::Char('k'));
    app.handle_key(Key::Up);
    assert_eq!(app.vertical_scroll(), 1);
    app.handle_key(Key::Up);
    app.handle_key(Key::Up);
    assert_eq!(app.vertical_scroll(), 0);
    assert_eq!(app.selected(), Some(0));
}

#[test]
fn a_full_message_takes_no_more_characters() {
    let (mut app, _mesh_tx, _ui_rx) = writing_to_42(4);
    for _ in 0..237 {
        app.handle_key(Key::Char('a'));
    }
    assert_eq!(app.input().len(), 237);
    let full = app.input().clone();
    app.handle_key(Key::Char('b'));
    assert_eq!(app.input(), &full);
    app.handle_key(Key::Char('é'));
    assert_eq!(app.input(), &full);
    app.handle_key(Key::Backspace);
    assert_eq!(app.input().len(), 236);
    app.handle_key(Key::Char('b'));
    assert_eq!(app.input().len(), 237);
    assert!(app.input().ends_with("ab"));
}

#[test]
fn a_character_that_would_pass_the_limit_is_not_taken() {
    let (mut app, _mesh_tx, _ui_rx) = writing_to_42(4);
    for _ in 0..235 {
        app.handle_key(Key::Char('a'));
    }
    app.handle_key(Key::Char('€'));
    assert_eq!(app.input().len(), 235);
    app.handle_key(Key::Char('é'));
    assert_eq!(app.input().len(), 237);
    app.handle_key(Key::Backspace);
    assert_eq!(app.input().len(), 235);
    app.handle_key(Key::Char('a'));
    app.handle_key(Key::Char('😀'));
    assert_eq!(app.input().len(), 236);
    app.handle_key(Key::Char('é'));
    assert_eq!(app.input().len(), 236);
}

#[test]
fn commit_sends_echoes_and_clears() {
    let (mut app, _mesh_tx, mut ui_rx) = writing_to_42(4);
    type_text(&mut app, "hello");
    assert_eq!(app.input().as_str(), "hello");
    assert_eq!(app.handle_key(Key::Enter), Flow::Sent);
    assert_eq!(app.input().as_str(), "");
    assert_eq!(
        ui_rx.try_recv(),
        Ok(UiEvent::Message { node_id: 42, message: "hello".to_string() })
    );
    assert_eq!(ui_rx.try_recv(), Err(TryRecvError::Empty));
    assert_eq!(app.conversation(), &vec!["hello".to_string()]);
}

#[test]
fn commit_without_contact_clears_and_sends_nothing() {
    let (mut app, _mesh_tx, mut ui_rx) = session(4);
    app.apply_event(announce(42, "Alice"));
    app.handle_key(Key::Tab);
    app.handle_key(Key::Tab);
    app.handle_key(Key::Tab);
    assert_eq!(app.focus(), Some(Focus::Input));
    assert_eq!(app.current_contact(), None);
    type_text(&mut app, "hello");
    assert_eq!(app.handle_key(Key::Enter), Flow::Continue);
    assert_eq!(app.input().as_str(), "");
    assert_eq!(ui_rx.try_recv(), Err(TryRecvError::Empty));
    assert!(app.conversation().is_empty());
}

#[test]
fn commit_trims_the_message() {
    let (mut app, _mesh_tx, mut ui_rx) = writing_to_42(4);
    type_text(&mut app, "  hello world \t");
    assert_eq!(app.handle_key(Key::Enter), Flow::Sent);
    assert_eq!(
        ui_rx.try_recv(),
        Ok(UiEvent::Message { node_id: 42, message: "hello world".to_string() })
    );
    assert_eq!(app.conversation(), &vec!["hello world".to_string()]);
}

#[test]
fn commit_of_white_space_clears_and_sends_nothing() {
    let (mut app, _mesh_tx, mut ui_rx) = writing_to_42(4);
    type_text(&mut app, "   ");
    assert_eq!(app.handle_key(Key::Enter), Flow::Continue);
    assert_eq!(app.input().as_str(), "");
    assert_eq!(ui_rx.try_recv(), Err(TryRecvError::Empty));
    assert!(app.conversation().is_empty());
    assert_eq!(app.handle_key(Key::Enter), Flow::Continue);
    assert_eq!(ui_rx.try_recv(), Err(TryRecvError::Empty));
}

#[test]
fn press_returns_the_event_and_leaves_the_queue_alone() {
    let (mut app, _mesh_tx, mut ui_rx) = writing_to_42(4);
    type_text(&mut app, "hi");
    assert_eq!(
        app.press(Key::Enter),
        Step::Send(UiEvent::Message { node_id: 42, message: "hi".to_string() })
    );
    assert_eq!(ui_rx.try_recv(), Err(TryRecvError::Empty));
    assert_eq!(app.conversation(), &vec!["hi".to_string()]);
    assert_eq!(app.press(Key::Enter), Step::Continue);
}

#[test]
fn commit_text_takes_the_text_as_it_is() {
    let (mut app, _mesh_tx, _ui_rx) = writing_to_42(4);
    type_text(&mut app, "draft");
    assert_eq!(
        app.commit_text(" as given ".to_string()),
        Some(UiEvent::Message { node_id: 42, message: " as given ".to_string() })
    );
    assert_eq!(app.input().as_str(), "");
    assert_eq!(app.conversation(), &vec![" as given ".to_string()]);
    assert_eq!(app.commit_text(String::new()), None);
    assert_eq!(app.conversation().len(), 1);
}

#[test]
fn a_full_queue_drops_the_message_and_the_session_goes_on() {
    let (mut app, _mesh_tx, mut ui_rx) = writing_to_42(1);
    type_text(&mut app, "one");
    assert_eq!(app.handle_key(Key::Enter), Flow::Sent);
    type_text(&mut app, "two");
    assert_eq!(app.handle_key(Key::Enter), Flow::Dropped(SendFault::Full));
    assert_eq!(app.input().as_str(), "");
    assert_eq!(app.conversation(), &vec!["one".to_string(), "two".to_string()]);
    assert_eq!(
        ui_rx.try_recv(),
        Ok(UiEvent::Message { node_id: 42, message: "one".to_string() })
    );
    assert_eq!(ui_rx.try_recv(), Err(TryRecvError::Empty));
    type_text(&mut app, "three");
    assert_eq!(app.handle_key(Key::Enter), Flow::Sent);
}

#[test]
fn a_closed_queue_drops_the_message_and_the_session_goes_on() {
    let (mut app, _mesh_tx, ui_rx) = writing_to_42(4);
    drop(ui_rx);
    type_text(&mut app, "lost");
    assert_eq!(app.handle_key(Key::Enter), Flow::Dropped(SendFault::Closed));
    assert_eq!(app.input().as_str(), "");
    assert_eq!(app.conversation(), &vec!["lost".to_string()]);
}

#[test]
fn backspace_removes_the_last_character() {
    let (mut app, _mesh_tx, _ui_rx) = writing_to_42(4);
    app.handle_key(Key::Backspace);
    assert_eq!(app.input().as_str(), "");
    type_text(&mut app, "añ");
    app.handle_key(Key::Backspace);
    assert_eq!(app.input().as_str(), "a");
    app.handle_key(Key::Backspace);
    app.handle_key(Key::Backspace);
    assert_eq!(app.input().as_str(), "");
}

#[test]
fn the_search_text_is_edited_like_a_message_and_narrows_nothing() {
    let (mut app, _mesh_tx, mut ui_rx) = session(4);
    app.apply_event(announce(1, "one"));
    app.apply_event(announce(2, "two"));
    app.handle_key(Key::Tab);
    app.handle_key(Key::BackTab);
    assert_eq!(app.focus(), Some(Focus::Search));
    type_text(&mut app, "one");
    assert_eq!(app.search().as_str(), "one");
    assert_eq!(app.input().as_str(), "");
    app.handle_key(Key::Backspace);
    assert_eq!(app.search().as_str(), "on");
    assert_eq!(app.handle_key(Key::Enter), Flow::Continue);
    assert_eq!(app.search().as_str(), "on");
    assert_eq!(numbers(&app), vec![1, 2]);
    assert!(app.matches_search(&peer(2, "two")));
    assert_eq!(ui_rx.try_recv(), Err(TryRecvError::Empty));
    for _ in 0..300 {
        app.handle_key(Key::Char('x'));
    }
    assert_eq!(app.search().len(), 237);
}

#[test]
fn quit_ends_the_session_only_without_focus() {
    let (mut app, _mesh_tx, _ui_rx) = session(4);
    app.apply_event(announce(1, "one"));
    assert_eq!(app.handle_key(Key::Char('x')), Flow::Continue);
    assert_eq!(app.handle_key(Key::Char('q')), Flow::Quit);
    app.handle_key(Key::Tab);
    assert_eq!(app.handle_key(Key::Char('q')), Flow::Continue);
    app.handle_key(Key::Tab);
    app.handle_key(Key::Tab);
    assert_eq!(app.handle_key(Key::Char('q')), Flow::Continue);
    assert_eq!(app.input().as_str(), "q");
    app.handle_key(Key::Esc);
    assert_eq!(app.focus(), None);
    assert_eq!(app.handle_key(Key::Char('q')), Flow::Quit);
    assert_eq!(app.input().as_str(), "q");
}

#[test]
fn a_loading_session_takes_only_quit() {
    let (mut app, _mesh_tx, _ui_rx) = session(4);
    assert_eq!(app.state(), AppState::Loading);
    assert_eq!(app.handle_key(Key::Tab), Flow::Continue);
    assert_eq!(app.focus(), None);
    assert_eq!(app.handle_key(Key::Char('a')), Flow::Continue);
    assert_eq!(app.handle_key(Key::Char('q')), Flow::Quit);
    app.update();
    assert_eq!(app.state(), AppState::Loaded);
    assert_eq!(app.handle_key(Key::Tab), Flow::Continue);
    assert_eq!(app.focus(), Some(Focus::NodeList));
}

#[test]
fn release_always_leads_to_no_focus() {
    let (mut app, _mesh_tx, _ui_rx) = session(4);
    app.update();
    for steps in 0..5 {
        for _ in 0..steps {
            app.handle_key(Key::Tab);
        }
        app.handle_key(Key::Esc);
        assert_eq!(app.focus(), None);
    }
}

#[test]
fn update_takes_in_all_waiting_events_in_order() {
    let (mut app, mesh_tx, _ui_rx) = session(8);
    mesh_tx.try_send(announce(3, "three")).unwrap();
    mesh_tx.try_send(MeshEvent::Message { node_id: 3, message: "first".to_string() }).unwrap();
    mesh_tx.try_send(announce(1, "one")).unwrap();
    mesh_tx.try_send(MeshEvent::Message { node_id: 1, message: "second".to_string() }).unwrap();
    mesh_tx.try_send(announce(2, "two")).unwrap();
    app.update();
    assert_eq!(numbers(&app), vec![1, 2, 3]);
    assert_eq!(app.selected(), Some(2));
    assert_eq!(app.conversation(), &vec!["first".to_string(), "second".to_string()]);
    assert_eq!(app.state(), AppState::Loaded);
    assert_eq!(mesh_tx.capacity(), 8);
    app.update();
    assert_eq!(numbers(&app), vec![1, 2, 3]);
}

#[test]
fn update_goes_on_when_the_radio_worker_is_gone() {
    let (mut app, mesh_tx, _ui_rx) = session(8);
    mesh_tx.try_send(announce(3, "three")).unwrap();
    drop(mesh_tx);
    app.update();
    assert_eq!(numbers(&app), vec![3]);
    app.update();
    assert_eq!(numbers(&app), vec![3]);
    assert_eq!(app.state(), AppState::Loaded);
}

#[test]
fn drain_takes_the_events_and_leaves_the_session() {
    let (mut app, mesh_tx, _ui_rx) = session(8);
    mesh_tx.try_send(announce(3, "three")).unwrap();
    mesh_tx.try_send(announce(1, "one")).unwrap();
    let events = app.drain();
    assert_eq!(events, vec![announce(3, "three"), announce(1, "one")]);
    assert!(app.get_sorted_nodes().is_empty());
    assert_eq!(app.state(), AppState::Loading);
    assert!(app.drain().is_empty());
    app.apply_events(events);
    assert_eq!(numbers(&app), vec![1, 3]);
    assert_eq!(app.selected(), Some(1));
}

#[test]
fn received_messages_are_logged_whoever_sent_them() {
    let (mut app, _mesh_tx, _ui_rx) = session(4);
    app.apply_event(MeshEvent::Message { node_id: 9, message: "from nine".to_string() });
    app.apply_event(MeshEvent::Message { node_id: 8, message: "from eight".to_string() });
    assert_eq!(
        app.conversation(),
        &vec!["from nine".to_string(), "from eight".to_string()]
    );
    assert!(app.get_sorted_nodes().is_empty());
    assert_eq!(app.state(), AppState::Loading);
}
