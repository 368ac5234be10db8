use rust_maelstrom::error::{Error, ErrorCode};
use rust_maelstrom::event::{BuiltInEvent, Event, EventBroker, EventId, Routing};
use rust_maelstrom::handler::{Handler, HandlerResponse, PeerHander, RequestType};
use rust_maelstrom::id_counter::SeqIdCounter;
use rust_maelstrom::input::{InputHandler, InputResponse, InputType};
use rust_maelstrom::message::{retain_unanswered, InitRequest, InitResponse, Message, PeerMessage};
use rust_maelstrom::node_handler::NodeHandler;
use rust_maelstrom::Node;

#[derive(Debug, Clone, PartialEq, Eq)]
struct Numbered(usize);

impl EventId for Numbered {
    fn event_id(&self) -> usize {
        self.0
    }

    fn get_event_id(&self) -> usize {
        self.0
    }
}

fn message<B>(src: &str, dest: &str, body: B) -> Message<B> {
    Message { src: src.to_string(), dest: dest.to_string(), body }
}

#[test]
fn split_keeps_the_envelope() {
    let (envelope, body) = message("a", "b", 7u8).split();
    assert_eq!(envelope, message("a", "b", ()));
    assert_eq!(body, 7);
}

#[test]
fn into_reply_swaps_the_ends() {
    let (envelope, body) = message("a", "b", 7u8).into_reply();
    assert_eq!(envelope, message("b", "a", ()));
    assert_eq!(body, 7);
    assert_eq!(envelope.with_body("x"), message("b", "a", "x"));
}

#[test]
fn peer_messages() {
    let peer = PeerMessage { src: 3, dest: Some(4), id: 9, body: "req" };
    let (envelope, body) = PeerMessage { src: 3, dest: Some(4), id: 9, body: "req" }.split();
    assert_eq!((envelope.src, envelope.dest, envelope.id, body), (3, Some(4), 9, "req"));
    let (reply, body) = peer.into_reply(4);
    assert_eq!((reply.src, reply.dest, reply.id, body), (4, Some(3), 9, "req"));
    let answered = reply.with_body(1u8);
    assert_eq!((answered.src, answered.dest, answered.id, answered.body), (4, Some(3), 9, 1));
    let request = PeerMessage { src: 1, dest: None, id: 9, body: () };
    assert!(request.matches_response(&message("x", "y", PeerMessage { src: 2, dest: Some(1), id: 9, body: 0u8 })));
    assert!(!request.matches_response(&message("x", "y", PeerMessage { src: 2, dest: Some(1), id: 8, body: 0u8 })));
}

#[test]
fn errors() {
    let e = Error::crash(12);
    assert!(matches!(e.code(), ErrorCode::Crash));
    assert_eq!(e.text(), "internal server error");
    assert_eq!(e.in_reply_to(), 12);
    let e = Error::new(ErrorCode::KeyDoesNotExist, "no key".to_string(), 3);
    assert!(matches!(e.code(), ErrorCode::KeyDoesNotExist));
    assert_eq!(e.text(), "no key");
    assert_eq!(e.in_reply_to(), 3);
}

#[test]
fn ids_count_up_from_one() {
    let mut ids = SeqIdCounter::new();
    assert_eq!(ids.next_id(), 1);
    assert_eq!(ids.next_id(), 2);
    assert_eq!(ids.next_id(), 3);
    let mut other = SeqIdCounter::default();
    assert_eq!(other.next_id(), 1);
}

#[test]
fn retry_forgets_answered_messages() {
    let mut pending = vec![
        message("n1", "n2", Numbered(1)),
        message("n1", "n3", Numbered(2)),
        message("n1", "n4", Numbered(1)),
    ];
    retain_unanswered(&mut pending, 1);
    assert_eq!(pending, vec![message("n1", "n3", Numbered(2))]);
    retain_unanswered(&mut pending, 5);
    assert_eq!(pending.len(), 1);
    retain_unanswered(&mut pending, 2);
    assert!(pending.is_empty());
}

#[test]
fn broker_hands_each_event_to_its_subscriber_once() {
    let mut broker = EventBroker::<Numbered>::new();
    let mut rx = broker.subscribe(5);
    let event = Event::Maelstrom(message("a", "b", Numbered(5)));
    assert_eq!(event.id(), 5);
    assert_eq!(broker.publish_event(event), Routing::Delivered);
    assert!(matches!(rx.try_recv(), Ok(Event::Maelstrom(m)) if m.body == Numbered(5)));
    assert_eq!(broker.publish_event(Event::Injected(message("a", "b", Numbered(5)))), Routing::NoSubscriber);
}

#[test]
fn broker_reports_a_gone_receiver() {
    let mut broker = EventBroker::<Numbered>::new();
    let rx = broker.subscribe(1);
    drop(rx);
    assert_eq!(broker.publish_event(Event::Injected(message("a", "b", Numbered(1)))), Routing::ReceiverGone);
    let _ = BuiltInEvent::Read;
}

struct TestNode {
    id: String,
    peers: Vec<String>,
}

impl Node<()> for TestNode {
    fn init(node_id: String, node_ids: Vec<String>, _state: ()) -> Self {
        TestNode { id: node_id, peers: node_ids }
    }
}

#[test]
fn node_handler_test() {
    let init_line = message(
        "init_node",
        "test_node_from_init",
        InitRequest::Init { msg_id: 123, node_id: "init_msg_node_id".to_string(), node_ids: Vec::new() },
    );
    let (node, response) = NodeHandler::<()>::init_node_from_message::<TestNode, ()>(init_line, ());
    assert_eq!(
        response,
        message("test_node_from_init", "init_node", InitResponse::InitOk { in_reply_to: 123 })
    );
    assert_eq!(node.id, "init_msg_node_id");
    assert!(node.peers.is_empty());
}

#[test]
fn handler_answers_go_back() {
    let handler = Handler::new(7u8);
    assert_eq!(handler.maelstrom_handler, 7);
    assert_eq!(handler.peer_handler.inner, 7);
    let m = Handler::<u8, PeerHander<u8>>::answer("c".to_string(), "n".to_string(), HandlerResponse::Maelstrom(1u8));
    assert_eq!((m.src.as_str(), m.dest.as_str()), ("n", "c"));
    assert!(matches!(m.body, HandlerResponse::Maelstrom(1)));
}

#[test]
fn peer_requests_are_unwrapped_and_answered() {
    let request = message("n1", "n2", PeerMessage { src: 1, dest: Some(2), id: 40, body: "ask" });
    let (plain, envelope) = PeerHander::<()>::unwrap_request(request);
    assert_eq!(plain, message("n1", "n2", "ask"));
    assert_eq!((envelope.src, envelope.dest, envelope.id), (1, Some(2), 40));
    let answer = PeerHander::<()>::wrap_response(envelope, 2, "done");
    assert_eq!((answer.src, answer.dest, answer.id, answer.body), (2, Some(1), 40, "done"));
}

#[test]
fn input_is_routed() {
    let response = message("n1", "n2", PeerMessage { src: 1, dest: Some(6), id: 3, body: 0u8 });
    match InputHandler::<u8, u8>::route(InputType::Response(response)) {
        InputResponse::HandlerMessage { id, message } => {
            assert_eq!(id, 6);
            assert_eq!(message.body.id, 3);
        }
        InputResponse::NewHandler(_) => panic!("a response starts no handler"),
    }
    let request = RequestType::Maelstrom(message("c", "n", 1u8));
    assert!(matches!(
        InputHandler::<u8, u8>::route(InputType::Request(request)),
        InputResponse::NewHandler(RequestType::Maelstrom(_))
    ));
}

#[test]
fn default_brokers_are_empty() {
    let mut broker = EventBroker::<Numbered>::default();
    assert_eq!(broker.publish_event(Event::Maelstrom(message("a", "b", Numbered(1)))), Routing::NoSubscriber);
    let mut replies = rust_maelstrom::service::event::EventBroker::<rust_maelstrom::broadcast::Request>::default();
    let m = message("a", "b", rust_maelstrom::broadcast::Request::Read { msg_id: 1 });
    assert_eq!(replies.publish_message_from_self(m.clone()), Err(m));
}

#[test]
fn broker_stops_after_an_event_no_one_waits_for() {
    let mut broker = EventBroker::<Numbered>::new();
    assert!(!broker.is_stopped());
    assert_eq!(broker.publish_event(Event::Maelstrom(message("a", "b", Numbered(4)))), Routing::NoSubscriber);
    assert!(broker.is_stopped());
    assert_eq!(broker.publish_event(Event::Maelstrom(message("a", "b", Numbered(4)))), Routing::Stopped);
}

#[test]
fn routing_hands_the_event_to_its_subscriber() {
    let mut broker = EventBroker::<Numbered>::new();
    let mut rx = broker.subscribe(2);
    let (tx, event) = broker.route_event(Event::Injected(message("a", "b", Numbered(2)))).unwrap();
    assert!(tx.send(event).is_ok());
    assert!(matches!(rx.try_recv(), Ok(Event::Injected(m)) if m.body == Numbered(2)));
}
