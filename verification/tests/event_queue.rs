use rust_maelstrom::event_queue::{keep_listening, EventQueue};
use rust_maelstrom::message::Message;

fn text(s: &str) -> serde_json::Value {
    serde_json::Value::String(s.to_string())
}

#[test]
fn publishing_messages() {
    let topic = "test_topic".to_string();
    let mut event_queue = EventQueue::<String, serde_json::Value>::new();
    assert!(event_queue.get_messages(&topic).is_none());
    event_queue.publish_message(topic.clone(), text("hello world"));
    assert_eq!(event_queue.get_messages(&topic), Some(vec![text("hello world")]));
}

#[test]
fn publishing_more_messages() {
    let topic = "test_topic".to_string();
    let mut event_queue = EventQueue::<String, serde_json::Value>::new();
    assert!(event_queue.get_messages(&topic).is_none());
    event_queue.publish_message(topic.clone(), text("hello world"));
    assert_eq!(event_queue.get_messages(&topic), Some(vec![text("hello world")]));
    event_queue.publish_message(topic.clone(), text("my other message"));
    assert_eq!(
        event_queue.get_messages(&topic),
        Some(vec![text("hello world"), text("my other message")])
    );
}

#[test]
fn commit_offset() {
    let topic = "test_topic".to_string();
    let mut event_queue = EventQueue::<String, serde_json::Value>::new();
    assert!(event_queue.get_messages(&topic).is_none());
    event_queue.publish_message(topic.clone(), text("hello world"));
    assert_eq!(event_queue.get_messages(&topic), Some(vec![text("hello world")]));
    event_queue.commit_offset(topic.clone(), 1);
    assert!(event_queue.get_messages(&topic).unwrap().is_empty());
}

#[test]
fn messages_test() {
    let topic = "mytopic".to_string();
    let mut queue = EventQueue::<String, serde_json::Value>::new();

    let msg = Message { src: "none".to_string(), dest: "none".to_string(), body: () };
    let mut object = serde_json::Map::new();
    object.insert("src".to_string(), serde_json::Value::String(msg.src.clone()));
    object.insert("dest".to_string(), serde_json::Value::String(msg.dest.clone()));
    object.insert("body".to_string(), serde_json::Value::Null);
    let msg = serde_json::Value::Object(object);

    queue.publish_message(topic, msg);
}

#[test]
fn commit_offset_past_the_end_reads_nothing() {
    let topic = "t".to_string();
    let mut queue = EventQueue::<String, u64>::new();
    queue.publish_message(topic.clone(), 1);
    queue.publish_message(topic.clone(), 2);
    queue.commit_offset(topic.clone(), 7);
    assert_eq!(queue.get_messages(&topic), Some(vec![]));
}

#[test]
fn read_after_partial_commit_and_publish() {
    let topic = "t".to_string();
    let mut queue = EventQueue::<String, u64>::new();
    queue.publish_message(topic.clone(), 1);
    queue.publish_message(topic.clone(), 2);
    queue.commit_offset(topic.clone(), 1);
    queue.publish_message(topic.clone(), 3);
    assert_eq!(queue.get_messages(&topic), Some(vec![2, 3]));
}

#[test]
fn topics_are_separate() {
    let mut queue = EventQueue::<String, u64>::new();
    queue.publish_message("a".to_string(), 1);
    assert_eq!(queue.get_messages(&"b".to_string()), None);
    queue.publish_message("b".to_string(), 2);
    assert_eq!(queue.get_messages(&"a".to_string()), Some(vec![1]));
    assert_eq!(queue.get_messages(&"b".to_string()), Some(vec![2]));
}

#[test]
fn listeners_hear_of_new_messages() {
    let topic = "test_topic".to_string();
    let mut queue = EventQueue::<String, u64>::new();
    let mut rx = queue.get_listner(topic.clone());
    assert!(rx.try_recv().is_err());
    queue.publish_message(topic.clone(), 5);
    assert_eq!(rx.try_recv(), Ok(()));
    queue.publish_message("other".to_string(), 6);
    assert!(rx.try_recv().is_err());
}

#[test]
fn await_topic_timeout() {
    let topic = "test_topic".to_string();
    let mut event_queue = EventQueue::<String, ()>::new();
    let mut listener = event_queue.get_listner(topic.clone());
    assert!(listener.try_recv().is_err());
}

#[test]
fn await_topic_test() {
    let topic = "test_topic".to_string();
    let mut event_queue = EventQueue::<String, serde_json::Value>::new();
    let mut listener = event_queue.get_listner(topic.clone());
    assert!(event_queue.get_messages(&topic).is_none());
    event_queue.publish_message(topic.clone(), text("wait on this"));
    assert_eq!(listener.try_recv(), Ok(()));
    assert_eq!(event_queue.get_messages(&topic), Some(vec![text("wait on this")]));
}

#[test]
fn event_queue_test() {
    let topic = "test_topic".to_string();
    let mut event_queue = EventQueue::<String, serde_json::Value>::new();
    assert!(event_queue.get_messages(&topic).is_none());
    event_queue.publish_message(topic.clone(), text("hello world"));
    assert_eq!(event_queue.get_messages(&topic), Some(vec![text("hello world")]));
    event_queue.commit_offset(topic.clone(), 1);
    assert!(event_queue.get_messages(&topic).unwrap().is_empty());

    let mut listener = event_queue.get_listner(topic.clone());
    assert!(listener.try_recv().is_err());

    assert!(event_queue.get_messages(&topic).unwrap().is_empty());
    event_queue.publish_message(topic.clone(), text("wait on this"));
    assert_eq!(listener.try_recv(), Ok(()));
    assert!(!event_queue.get_messages(&topic).unwrap().is_empty());
}

#[test]
fn closed_listeners_are_forgotten() {
    let topic = "t".to_string();
    let mut queue = EventQueue::<String, u8>::new();
    let gone = queue.get_listner(topic.clone());
    let mut kept = queue.get_listner(topic.clone());
    drop(gone);
    queue.publish_message(topic.clone(), 1);
    assert_eq!(kept.try_recv(), Ok(()));
    queue.publish_message(topic.clone(), 2);
    assert_eq!(kept.try_recv(), Ok(()));
}

#[test]
fn only_delivered_listeners_are_kept() {
    let kept = keep_listening(vec!["a", "b", "c", "d"], &vec![true, false, false, true]);
    assert_eq!(kept, vec!["a", "d"]);
    let none: Vec<u8> = keep_listening(vec![1u8, 2], &vec![false, false]);
    assert!(none.is_empty());
}
