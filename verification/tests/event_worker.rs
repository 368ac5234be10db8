use rust_maelstrom::error::{Error, ErrorCode};
use rust_maelstrom::event_worker::{has_wildcard, EventWorker, Unmatched};
use rust_maelstrom::message::Message;
use rust_maelstrom::new_event::{deliver, BodyId, Event, Handoff, IntoBodyId, IntoMessageId, MessageId, SubscribeOption};

#[derive(Debug, Clone, PartialEq, Eq)]
enum Mock {
    First,
}

impl IntoBodyId<usize> for Mock {
    fn body_id(&self) -> usize {
        1
    }

    fn into_body_id(self) -> BodyId<usize> {
        BodyId(1)
    }

    fn clone_into_body_id(&self) -> BodyId<usize> {
        BodyId(1)
    }
}

#[derive(Debug, Clone, PartialEq, Eq)]
enum MockMsgBody {
    DoSomething,
    DoNothing,
}

impl IntoBodyId<usize> for MockMsgBody {
    fn body_id(&self) -> usize {
        self.clone_into_body_id().0
    }

    fn into_body_id(self) -> BodyId<usize> {
        self.clone_into_body_id()
    }

    fn clone_into_body_id(&self) -> BodyId<usize> {
        match self {
            MockMsgBody::DoSomething => BodyId(1),
            MockMsgBody::DoNothing => BodyId(2),
        }
    }
}

fn message<B>(src: &str, dest: &str, body: B) -> Message<B> {
    Message { src: src.to_string(), dest: dest.to_string(), body }
}

#[test]
fn two_events_test() {
    let mut worker = EventWorker::<Mock, Mock, usize>::new();
    let message_1 = message(&1.to_string(), &1.to_string(), Mock::First);
    let message_2 = message(&2.to_string(), &2.to_string(), Mock::First);
    let event_1 = Event::MessageRecived(message_1.clone());
    let event_2 = Event::MessageRecived(message_2.clone());

    worker.push_event(event_1.clone());
    worker.push_event(event_2.clone());
    assert_eq!(worker.try_consume_events(), Err(Unmatched));

    let (tx_2, mut msg_2) = tokio::sync::mpsc::unbounded_channel();
    worker.new_subscriber(message_2.clone_into_message_id(), SubscribeOption::AnyEvent(tx_2));
    assert_eq!(worker.try_consume_events(), Err(Unmatched));
    assert!(msg_2.try_recv().is_err());

    let (tx_1, mut msg_1) = tokio::sync::mpsc::unbounded_channel();
    worker.new_subscriber(message_1.clone_into_message_id(), SubscribeOption::AnyEvent(tx_1));
    assert_eq!(worker.try_consume_events(), Ok(()));

    assert_eq!(msg_1.try_recv(), Ok(event_1));
    assert_eq!(msg_2.try_recv(), Ok(event_2));
}

#[test]
fn wait_test() {
    let mut worker = EventWorker::<Mock, Mock, usize>::new();
    let message = message("1", &1.to_string(), Mock::First);
    let event = Event::MessageRecived(message.clone());
    worker.push_event(event.clone());
    assert_eq!(worker.try_consume_events(), Err(Unmatched));

    let (tx, mut recv) = tokio::sync::mpsc::unbounded_channel();
    worker.new_subscriber(message.clone_into_message_id(), SubscribeOption::AnyEvent(tx));
    assert_eq!(worker.try_consume_events(), Ok(()));
    assert_eq!(recv.try_recv(), Ok(event));
}

#[test]
fn specific_event_test() {
    let mut worker = EventWorker::<MockMsgBody, MockMsgBody, usize>::new();
    let message = message("testsrc", "testdest", MockMsgBody::DoSomething);

    let (tx, mut listner) = tokio::sync::mpsc::unbounded_channel();
    worker.new_subscriber(message.clone_into_message_id(), SubscribeOption::MessageRecived(tx));

    worker.push_event(Event::MessageSent(message.clone()));
    assert_eq!(worker.try_consume_events(), Ok(()));
    assert_eq!(listner.try_recv(), Err(tokio::sync::mpsc::error::TryRecvError::Empty));

    worker.push_event(Event::MessageRecived(message.clone()));
    assert_eq!(worker.try_consume_events(), Ok(()));
    assert!(matches!(listner.try_recv(), Ok(MockMsgBody::DoSomething)));
}

#[test]
fn events_keep_their_order() {
    let mut worker = EventWorker::<MockMsgBody, MockMsgBody, usize>::new();
    let first = message("a", "b", MockMsgBody::DoSomething);
    let second = message("a", "b", MockMsgBody::DoNothing);
    let (tx, mut rx) = tokio::sync::mpsc::unbounded_channel();
    worker.new_subscriber(
        MessageId { src: "*".to_string(), dest: "b".to_string(), id: BodyId(0) },
        SubscribeOption::AnyEvent(tx),
    );
    worker.push_event(Event::MessageRecived(first.clone()));
    worker.push_event(Event::MessageSent(second.clone()));
    assert_eq!(worker.try_consume_events(), Ok(()));
    assert_eq!(rx.try_recv(), Ok(Event::MessageRecived(first)));
    assert_eq!(rx.try_recv(), Ok(Event::MessageSent(second)));
}

#[test]
fn can_consume_needs_a_subscriber() {
    let mut worker = EventWorker::<MockMsgBody, MockMsgBody, usize>::new();
    let m = message("a", "b", MockMsgBody::DoNothing);
    let event = Event::MessageRecived(m.clone());
    assert!(!worker.can_consume_event(&event));
    assert!(worker.find_consumable_event(&event).is_none());
    assert_eq!(worker.match_dynamic_subscribers_position(&event), None);

    let (tx, rx) = tokio::sync::mpsc::unbounded_channel();
    worker.new_subscriber(m.clone_into_message_id(), SubscribeOption::AnyEvent(tx));
    assert!(worker.can_consume_event(&event));
    assert!(worker.find_consumable_event(&event).is_some());
    drop(rx);
    assert!(!worker.can_consume_event(&event));
}

#[test]
fn wildcard_subscriptions_are_dynamic() {
    let mut worker = EventWorker::<MockMsgBody, MockMsgBody, usize>::new();
    let (tx, _rx) = tokio::sync::mpsc::unbounded_channel();
    let event = Event::MessageRecived(message("x", "y", MockMsgBody::DoNothing));
    worker.new_subscriber(
        MessageId { src: "n1".to_string(), dest: "*".to_string(), id: BodyId(9) },
        SubscribeOption::AnyEvent(tx),
    );
    assert_eq!(worker.match_dynamic_subscribers_position(&event), Some(0));
    assert!(worker.match_dynamic_subcribers(&event).is_some());
    assert!(has_wildcard(&"a*b".to_string()));
    assert!(!has_wildcard(&"ab".to_string()));
    assert!(!has_wildcard(&String::new()));
}

#[test]
fn new_event_ends_the_subscription() {
    let mut worker = EventWorker::<MockMsgBody, MockMsgBody, usize>::new();
    let m = message("a", "b", MockMsgBody::DoSomething);
    let (tx, mut rx) = tokio::sync::mpsc::unbounded_channel();
    worker.new_subscriber(m.clone_into_message_id(), SubscribeOption::MessageRecived(tx));
    worker.new_event(Event::MessageRecived(m.clone()));
    assert_eq!(rx.try_recv(), Ok(MockMsgBody::DoSomething));
    let event = Event::MessageRecived(m.clone());
    assert!(worker.find_consumable_event(&event).is_none());
}

#[test]
fn received_message_subscriber_keeps_waiting_through_sent_messages() {
    let mut worker = EventWorker::<MockMsgBody, MockMsgBody, usize>::new();
    let m = message("a", "b", MockMsgBody::DoSomething);
    let (tx, mut rx) = tokio::sync::mpsc::unbounded_channel();
    worker.new_subscriber(m.clone_into_message_id(), SubscribeOption::MessageRecived(tx));
    worker.new_event(Event::MessageSent(m.clone()));
    assert!(rx.try_recv().is_err());
    let event = Event::MessageRecived(m.clone());
    assert!(worker.find_consumable_event(&event).is_some());
}

#[test]
fn settle_round_drops_after_five_failures() {
    let mut worker = EventWorker::<MockMsgBody, MockMsgBody, usize>::new();
    let m = message("a", "b", MockMsgBody::DoSomething);
    worker.push_event(Event::MessageRecived(m.clone()));
    let mut failed = 0;
    for _ in 0..5 {
        let r = worker.try_consume_events();
        failed = worker.settle_round(r, failed);
    }
    assert_eq!(failed, 5);
    assert!(worker.can_consume_event(&Event::MessageRecived(m.clone())) == false);
    let r = worker.try_consume_events();
    assert_eq!(r, Err(Unmatched));
    failed = worker.settle_round(r, failed);
    assert_eq!(failed, 6);
    assert_eq!(worker.try_consume_events(), Ok(()));
    assert_eq!(worker.settle_round(Ok(()), failed), 0);
}

#[test]
fn message_ids_of_messages() {
    let m = message("s", "d", MockMsgBody::DoNothing);
    let id: MessageId<usize> = m.clone_into_message_id();
    assert_eq!(id, MessageId { src: "s".to_string(), dest: "d".to_string(), id: BodyId(2) });
    assert_eq!(m.into_message_id(), id.clone());
    assert_eq!(id.clone().into_message_id(), id);
}

#[test]
fn subscribe_option_send_forms() {
    let body = MockMsgBody::DoNothing;
    let m = message("s", "d", body.clone());
    let (tx, mut rx) = tokio::sync::mpsc::unbounded_channel();
    let sent = SubscribeOption::<MockMsgBody, MockMsgBody>::MessageSent(tx);
    assert!(sent.send(Event::MessageSent(m.clone())));
    assert_eq!(rx.try_recv(), Ok(body));
    let (tx, _rx) = tokio::sync::mpsc::unbounded_channel();
    let recv = SubscribeOption::<MockMsgBody, MockMsgBody>::MessageRecived(tx);
    assert!(!recv.send(Event::Error(Error::new(ErrorCode::Crash, "x".to_string(), 1))));
}

#[test]
fn body_ids_from_numbers() {
    let id: BodyId<usize> = 1.into();
    assert_eq!(id, BodyId(1));
}

#[test]
fn handoffs_carry_the_requested_form() {
    let m = message("s", "d", MockMsgBody::DoSomething);
    let (tx, mut rx) = tokio::sync::mpsc::unbounded_channel();
    let recv = SubscribeOption::<MockMsgBody, MockMsgBody>::MessageRecived(tx);
    assert!(matches!(recv.handoff(Event::MessageSent(m.clone())), Handoff::Dropped));
    match recv.handoff(Event::MessageRecived(m.clone())) {
        Handoff::Received(_, body) => assert_eq!(body, MockMsgBody::DoSomething),
        _ => panic!("a received message hands over its body"),
    }
    let h = recv.handoff(Event::MessageRecived(m.clone()));
    assert!(deliver(h));
    assert_eq!(rx.try_recv(), Ok(MockMsgBody::DoSomething));

    let mut worker = EventWorker::<MockMsgBody, MockMsgBody, usize>::new();
    let (tx, mut all) = tokio::sync::mpsc::unbounded_channel();
    worker.new_subscriber(m.clone_into_message_id(), SubscribeOption::AnyEvent(tx));
    let event = Event::MessageSent(m.clone());
    match worker.route(event.clone()) {
        Ok(h) => assert!(deliver(h)),
        Err(_) => panic!("the event has a subscriber"),
    }
    assert_eq!(all.try_recv(), Ok(event.clone()));
    assert!(worker.route_exact(event.clone()).is_some());
    let other = Event::MessageSent(message("x", "y", MockMsgBody::DoNothing));
    assert!(worker.route(other.clone()).is_err());
    assert!(worker.route_exact(other).is_none());
}

#[test]
fn consumable_needs_the_right_kind_and_an_open_channel() {
    let m = message("s", "d", MockMsgBody::DoSomething);
    let (tx, rx) = tokio::sync::mpsc::unbounded_channel();
    let recv = SubscribeOption::<MockMsgBody, MockMsgBody>::MessageRecived(tx);
    assert!(recv.is_open());
    assert!(recv.consumable(&Event::MessageRecived(m.clone()), true));
    assert!(!recv.consumable(&Event::MessageRecived(m.clone()), false));
    assert!(!recv.consumable(&Event::MessageSent(m.clone()), true));
    drop(rx);
    assert!(!recv.is_open());

    let (tx, rx) = tokio::sync::mpsc::unbounded_channel();
    let mut worker = EventWorker::<MockMsgBody, MockMsgBody, usize>::new();
    worker.new_subscriber(m.clone_into_message_id(), SubscribeOption::AnyEvent(tx));
    let event = Event::MessageSent(m.clone());
    assert!(worker.can_consume_event(&event));
    drop(rx);
    assert!(!worker.can_consume_event(&event));
}
