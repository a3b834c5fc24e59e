use meshcom::channel::SendFault;
use meshcom::mesh::{
    mock_node, mock_step, select_endpoint, worker_step, Endpoint, MockAction, MockInput,
    WorkerAction, WorkerInput, MOCK_HELLO_SECS, MOCK_NODE_NUM, QUEUE_CAPACITY, TICK_MILLIS,
};
use meshcom::router::{Anomaly, Frame, OutboundText, Payload, Routed, Router};
use meshcom::store::{InMemoryStore, Store};
use meshcom::types::{MeshEvent, PeerRecord, UiEvent};
use tokio::sync::mpsc::channel;
use tokio::sync::mpsc::error::TryRecvError;

fn args(words: &[&str]) -> Vec<String> {
    words.iter().map(|w| w.to_string()).collect()
}

#[test]
fn the_figures_of_the_loops() {
    assert_eq!(QUEUE_CAPACITY, 100);
    assert_eq!(TICK_MILLIS, 250);
    assert_eq!(MOCK_HELLO_SECS, 10);
    assert_eq!(MOCK_NODE_NUM, 0x12345678);
}

#[test]
fn exactly_one_argument_selects_the_endpoint() {
    assert_eq!(select_endpoint(&args(&["meshcom", "mock"])), Some(Endpoint::Mock));
    assert_eq!(
        select_endpoint(&args(&["meshcom", "/dev/ttyUSB0"])),
        Some(Endpoint::Device("/dev/ttyUSB0".to_string()))
    );
    assert_eq!(
        select_endpoint(&args(&["meshcom", "Mock"])),
        Some(Endpoint::Device("Mock".to_string()))
    );
    assert_eq!(select_endpoint(&args(&["meshcom", ""])), Some(Endpoint::Device(String::new())));
    assert_eq!(select_endpoint(&args(&["mock", "x"])), Some(Endpoint::Device("x".to_string())));
}

#[test]
fn any_other_number_of_arguments_selects_none() {
    assert_eq!(select_endpoint(&args(&[])), None);
    assert_eq!(select_endpoint(&args(&["meshcom"])), None);
    assert_eq!(select_endpoint(&args(&["meshcom", "mock", "mock"])), None);
    assert_eq!(select_endpoint(&args(&["meshcom", "/dev/ttyUSB0", "x", "y"])), None);
}

#[test]
fn the_worker_routes_frames_sends_intents_and_stops_when_exhausted() {
    let (tx, mut rx) = channel::<MeshEvent>(1);
    let mut router = Router::new(tx);
    assert_eq!(
        worker_step(&mut router, WorkerInput::Frame(Frame { payload: Some(Payload::MyInfo(9)) })),
        WorkerAction::Continue(Routed::IdentitySet)
    );
    assert_eq!(router.node_num(), Some(9));
    assert_eq!(
        worker_step(&mut router, WorkerInput::Frame(Frame { payload: None })),
        WorkerAction::Continue(Routed::Rejected(Anomaly::MissingPayload))
    );
    let text = Frame { payload: Some(Payload::Text { from: 3, text: "a".to_string() }) };
    assert_eq!(
        worker_step(&mut router, WorkerInput::Frame(text.clone())),
        WorkerAction::Continue(Routed::Forwarded)
    );
    assert_eq!(
        worker_step(&mut router, WorkerInput::Frame(text)),
        WorkerAction::Continue(Routed::Dropped(SendFault::Full))
    );
    assert_eq!(
        worker_step(
            &mut router,
            WorkerInput::Intent(UiEvent::Message { node_id: 3, message: "b".to_string() })
        ),
        WorkerAction::Send(OutboundText {
            destination: 3,
            text: "b".to_string(),
            channel: 0,
            want_ack: false
        })
    );
    assert_eq!(worker_step(&mut router, WorkerInput::Exhausted), WorkerAction::Stop);
    assert_eq!(router.node_num(), Some(9));
    assert_eq!(rx.try_recv(), Ok(MeshEvent::Message { node_id: 3, message: "a".to_string() }));
    assert_eq!(rx.try_recv(), Err(TryRecvError::Empty));
}

#[test]
fn the_mock_announces_greets_and_echoes() {
    let node = PeerRecord { num: 0x12345678, long_name: Some("Mock User".to_string()) };
    assert_eq!(mock_node(), node);
    assert_eq!(
        mock_step(MockInput::Start),
        MockAction::Emit(MeshEvent::NodeAvailable(Box::new(node)))
    );
    assert_eq!(
        mock_step(MockInput::Tick),
        MockAction::Emit(MeshEvent::Message {
            node_id: 0x12345678,
            message: "Hello from mock user!".to_string()
        })
    );
    assert_eq!(
        mock_step(MockInput::Intent(UiEvent::Message { node_id: 77, message: "ping".to_string() })),
        MockAction::Emit(MeshEvent::Message { node_id: 77, message: "ping".to_string() })
    );
    assert_eq!(mock_step(MockInput::Exhausted), MockAction::Stop);
}

#[test]
fn a_store_keeps_one_record_for_each_node() {
    let mut store = InMemoryStore::new();
    assert!(store.get_nodes().is_empty());
    store.upsert_node(PeerRecord { num: 2, long_name: Some("two".to_string()) });
    store.upsert_node(PeerRecord { num: 1, long_name: None });
    store.upsert_node(PeerRecord { num: 2, long_name: Some("deux".to_string()) });
    let nodes = store.get_nodes();
    assert_eq!(nodes.len(), 2);
    assert_eq!(nodes.get(&1), Some(&PeerRecord { num: 1, long_name: None }));
    assert_eq!(nodes.get(&2), Some(&PeerRecord { num: 2, long_name: Some("deux".to_string()) }));
    assert_eq!(nodes.get(&3), None);
}

#[test]
fn a_copy_of_a_store_does_not_follow_the_store() {
    let mut store = InMemoryStore::new();
    store.upsert_node(PeerRecord { num: 1, long_name: None });
    let before = store.get_nodes();
    store.upsert_node(PeerRecord { num: 2, long_name: None });
    assert_eq!(before.len(), 1);
    assert_eq!(store.get_nodes().len(), 2);
}
