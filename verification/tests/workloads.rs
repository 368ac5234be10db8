use rust_maelstrom::broadcast::{BroadcastNode, Handled, NodeNotInTopology, Request, Response};
use rust_maelstrom::echo::{EchoNode, EchoRequest, EchoResponse};
use rust_maelstrom::error::ErrorCode;
use rust_maelstrom::maelstrom_service::lin_kv::{cas_outcome, read_outcome, write_outcome, LinKvClient, LinKvInput, LinKvOutput, ReadOutcome};
use rust_maelstrom::message::Message;
use rust_maelstrom::resend::{next_wait, FIRST_WAIT_MS};
use rust_maelstrom::service::event::{AsBodyId, BodyId, EventBroker, EventLayer, MessageId};
use rust_maelstrom::table::Table;
use rust_maelstrom::text::usize_text;
use rust_maelstrom::txn_list_append::{apply_txn, Append, Input, Output, Txn, TxnListAppendNode, R};

fn message<B>(src: &str, dest: &str, body: B) -> Message<B> {
    Message { src: src.to_string(), dest: dest.to_string(), body }
}

fn s(x: &str) -> String {
    x.to_string()
}

#[test]
fn echo_test() {
    let node = EchoNode::init();
    assert_eq!(node, EchoNode {});
    let request = message("c", "node", EchoRequest::Echo { echo: serde_json::Value::String(s("my msg")), msg_id: 1 });
    let reply = EchoNode::reply(request);
    assert_eq!(
        reply,
        message("node", "c", EchoResponse::EchoOk { echo: serde_json::Value::String(s("my msg")), in_reply_to: 1 })
    );
}

#[test]
fn decimal_ids() {
    assert_eq!(usize_text(0), "0");
    assert_eq!(usize_text(1234), "1234");
    assert_eq!(Request::Read { msg_id: 42 }.as_raw_id(), "42");
    assert_eq!(Request::BroadcastOk { in_reply_to: 7 }.as_body_id(), BodyId(s("7")));
}

fn topology() -> Vec<(String, Vec<String>)> {
    vec![(s("n1"), vec![s("n2"), s("n3")]), (s("n2"), vec![s("n1")])]
}

#[test]
fn topology_sets_neighbours() {
    let mut node = BroadcastNode::new(s("n1"));
    assert_eq!(node.topology(topology(), 3), Ok(Response::TopologyOk { in_reply_to: 3 }));
    let mut stranger = BroadcastNode::new(s("n9"));
    assert_eq!(stranger.topology(topology(), 4), Err(NodeNotInTopology));
}

#[test]
fn broadcast_spreads_new_values_once() {
    let mut node = BroadcastNode::new(s("n1"));
    node.topology(topology(), 1).unwrap();
    let (reply, peers) = node.broadcast(5, s("17"), &s("n2"));
    assert_eq!(reply, Response::BroadcastOk { in_reply_to: 5 });
    assert_eq!(peers, vec![message("n1", "n3", Request::Broadcast { message: s("17"), msg_id: 1 })]);
    let (reply, peers) = node.broadcast(6, s("17"), &s("c1"));
    assert_eq!(reply, Response::BroadcastOk { in_reply_to: 6 });
    assert!(peers.is_empty());
    let (_, peers) = node.broadcast(7, s("18"), &s("c1"));
    assert_eq!(
        peers,
        vec![
            message("n1", "n2", Request::Broadcast { message: s("18"), msg_id: 2 }),
            message("n1", "n3", Request::Broadcast { message: s("18"), msg_id: 3 }),
        ]
    );
    assert_eq!(node.read(9), Response::ReadOk { messages: vec![s("17"), s("18")], in_reply_to: 9 });
}

#[test]
fn peer_messages_to_every_neighbour() {
    let mut node = BroadcastNode::new(s("n1"));
    node.topology(topology(), 1).unwrap();
    let all = node.create_peer_messages(&s("5"));
    assert_eq!(all.len(), 2);
    assert_eq!(all[1], message("n1", "n3", Request::Broadcast { message: s("5"), msg_id: 2 }));
    let some = node.create_filtered_peer_messages(&s("5"), &s("n3"));
    assert_eq!(some, vec![message("n1", "n2", Request::Broadcast { message: s("5"), msg_id: 3 })]);
}

#[test]
fn broadcast_requests_are_handled() {
    let mut node = BroadcastNode::new(s("n1"));
    match node.handle_request(message("c", "n1", Request::Topology { topology: topology(), msg_id: 1 })) {
        Handled::Reply(m) => assert_eq!(m, message("n1", "c", Response::TopologyOk { in_reply_to: 1 })),
        other => panic!("unexpected {other:?}"),
    }
    match node.handle_request(message("c", "n1", Request::Broadcast { message: s("3"), msg_id: 2 })) {
        Handled::Gossip { reply, peers } => {
            assert_eq!(reply, message("n1", "c", Response::BroadcastOk { in_reply_to: 2 }));
            assert_eq!(peers.len(), 2);
        }
        other => panic!("unexpected {other:?}"),
    }
    match node.handle_request(message("c", "n1", Request::Read { msg_id: 3 })) {
        Handled::Reply(m) => assert_eq!(m.body, Response::ReadOk { messages: vec![s("3")], in_reply_to: 3 }),
        other => panic!("unexpected {other:?}"),
    }
    let ack = message("n2", "n1", Request::BroadcastOk { in_reply_to: 1 });
    match node.handle_request(ack.clone()) {
        Handled::Ack(m) => assert_eq!(m, ack),
        other => panic!("unexpected {other:?}"),
    }
    let mut stranger = BroadcastNode::new(s("zz"));
    assert!(matches!(
        stranger.handle_request(message("c", "zz", Request::Topology { topology: topology(), msg_id: 1 })),
        Handled::Failed(NodeNotInTopology)
    ));
}

#[test]
fn replies_reach_the_task_that_waits() {
    let mut broker = EventBroker::<Request>::new();
    let request = message("n1", "n2", Request::Broadcast { message: s("1"), msg_id: 8 });
    let mut rx = broker.subscribe_to_response(&request);
    let stranger = message("n3", "n1", Request::BroadcastOk { in_reply_to: 8 });
    assert_eq!(broker.publish_message_recived(stranger.clone()), Err(stranger));
    let reply = message("n2", "n1", Request::BroadcastOk { in_reply_to: 8 });
    assert_eq!(broker.publish_message_recived(reply.clone()), Ok(()));
    assert_eq!(rx.try_recv(), Ok(reply.clone()));
    assert_eq!(broker.publish_message_recived(reply.clone()), Err(reply));
}

#[test]
fn messages_from_self_reach_the_task_that_waits() {
    let mut broker = EventBroker::<Request>::new();
    let mut rx = broker.subscribe_to_id(MessageId { this: s("n1"), other: s("n2"), id: BodyId(s("4")) });
    let own = message("n1", "n2", Request::Read { msg_id: 4 });
    assert_eq!(broker.publish_message_from_self(own.clone()), Ok(()));
    assert_eq!(rx.try_recv(), Ok(own));
}

#[test]
fn event_layer_passes_on_what_no_task_waits_for() {
    let mut layer = EventLayer::new((), EventBroker::<Request>::new());
    let request = message("c", "n1", Request::Read { msg_id: 1 });
    assert_eq!(layer.intercept(request.clone()), Some(request));
    let sent = message("n1", "n2", Request::Broadcast { message: s("1"), msg_id: 2 });
    let _rx = layer.event_broker.subscribe_to_response(&sent);
    assert_eq!(layer.intercept(message("n2", "n1", Request::BroadcastOk { in_reply_to: 2 })), None);
}

#[test]
fn lin_kv_reads_wait_for_their_answer() {
    let mut client = LinKvClient::new(s("n1"), EventBroker::<Request>::new());
    let (mut rx, read) = client.send_read(0u8, 12);
    assert_eq!(read.src, "n1");
    assert_eq!(read.dest, "lin-kv");
    assert!(matches!(read.body, LinKvOutput::Read { key: 0, msg_id: 12 }));
    let answer = message("lin-kv", "n1", Request::BroadcastOk { in_reply_to: 12 });
    client.handle_message(answer.clone());
    assert_eq!(rx.try_recv(), Ok(answer));
}

fn tree() -> Table<String, Vec<String>> {
    let mut t = Table::new();
    t.insert(s("1"), vec![s("10")]);
    t
}

#[test]
fn transactions_read_their_own_appends() {
    let mut t = tree();
    let txn = vec![
        Txn::Read(R::R, s("1"), None),
        Txn::Append(Append::Append, s("1"), s("11")),
        Txn::Read(R::R, s("1"), None),
        Txn::Read(R::R, s("2"), None),
        Txn::Append(Append::Append, s("2"), s("20")),
    ];
    let seen = apply_txn(&mut t, txn);
    assert_eq!(
        seen,
        vec![
            Txn::Read(R::R, s("1"), Some(vec![s("10")])),
            Txn::Append(Append::Append, s("1"), s("11")),
            Txn::Read(R::R, s("1"), Some(vec![s("10"), s("11")])),
            Txn::Read(R::R, s("2"), Some(vec![])),
            Txn::Append(Append::Append, s("2"), s("20")),
        ]
    );
    assert_eq!(t.get(&s("1")), Some(&vec![s("10"), s("11")]));
    assert_eq!(t.get(&s("2")), Some(&vec![s("20")]));
}

#[test]
fn a_read_leaves_an_empty_list_behind() {
    let mut t = tree();
    apply_txn(&mut t, vec![Txn::Read(R::R, s("9"), None)]);
    assert_eq!(t.get(&s("9")), Some(&vec![]));
    assert!(t.contains_key(&s("1")));
}

#[test]
fn transaction_requests_are_answered() {
    let node = TxnListAppendNode::new(s("n1"));
    let mut t = tree();
    let request = message("c", "n1", Input::Txn { msg_id: 4, txn: vec![Txn::Append(Append::Append, s("1"), s("2"))] });
    assert_eq!(request.body.as_raw_id(), "4");
    let reply = node.handle_message(request, &mut t);
    assert_eq!(
        reply,
        message("n1", "c", Output::TxnOk { in_reply_to: 4, txn: vec![Txn::Append(Append::Append, s("1"), s("2"))] })
    );
    assert_eq!(t.get(&s("1")), Some(&vec![s("10"), s("2")]));
}

#[test]
fn tables_replace_and_remove() {
    let mut t: Table<String, u8> = Table::new();
    assert_eq!(t.insert(s("a"), 1), None);
    assert_eq!(t.insert(s("a"), 2), Some(1));
    assert_eq!(t.get(&s("a")), Some(&2));
    assert_eq!(t.remove(&s("a")), Some(2));
    assert_eq!(t.remove(&s("a")), None);
    assert!(!t.contains_key(&s("a")));
}

#[test]
fn a_reply_comes_back_when_its_task_stopped_listening() {
    let mut broker = EventBroker::<Request>::new();
    let request = message("n1", "n2", Request::Read { msg_id: 3 });
    let rx = broker.subscribe_to_response(&request);
    drop(rx);
    let reply = message("n2", "n1", Request::BroadcastOk { in_reply_to: 3 });
    assert_eq!(broker.publish_message_recived(reply.clone()), Err(reply.clone()));
    assert_eq!(broker.publish_message_recived(reply.clone()), Err(reply));
}

#[test]
fn lin_kv_writes_and_cas_wait_for_their_answer() {
    let mut client = LinKvClient::new(s("n1"), EventBroker::<LinKvInput<u8>>::new());
    let (mut write_rx, write) = client.send_write(0u8, 7u8, 2);
    assert!(matches!(write.body, LinKvOutput::Write { key: 0, value: 7, msg_id: 2 }));
    let (mut cas_rx, cas) = client.send_cas(0u8, 7u8, 8u8, 3);
    assert!(matches!(cas.body, LinKvOutput::Cas { key: 0, from: 7, to: 8, msg_id: 3 }));
    assert_eq!(LinKvInput::<u8>::CasOk { in_reply_to: 3 }.as_raw_id(), "3");
    client.handle_message(message("lin-kv", "n1", LinKvInput::CasOk { in_reply_to: 3 }));
    assert!(matches!(cas_rx.try_recv(), Ok(m) if matches!(m.body, LinKvInput::CasOk { in_reply_to: 3 })));
    assert!(write_rx.try_recv().is_err());
    client.handle_message(message("lin-kv", "n1", LinKvInput::Error { code: 20, text: s("missing"), in_reply_to: 2 }));
    assert!(matches!(write_rx.try_recv(), Ok(m) if matches!(m.body, LinKvInput::Error { code: 20, .. })));
}

#[test]
fn table_entries_hold_each_key_once() {
    let mut t: Table<String, u8> = Table::new();
    t.insert(s("a"), 1);
    t.insert(s("b"), 2);
    t.insert(s("a"), 3);
    let mut entries = t.into_entries();
    entries.sort();
    assert_eq!(entries, vec![(s("a"), 3), (s("b"), 2)]);
}

#[test]
fn nodes_start_from_their_id() {
    use_node_init();
}

fn use_node_init() {
    let mut node = <BroadcastNode as rust_maelstrom::Node<()>>::init(s("n1"), vec![s("n1"), s("n2")], ());
    assert_eq!(node.read(1), Response::ReadOk { messages: vec![], in_reply_to: 1 });
    assert_eq!(node.topology(topology(), 2), Ok(Response::TopologyOk { in_reply_to: 2 }));
    let (_, peers) = node.broadcast(3, s("9"), &s("c"));
    assert_eq!(peers[0], message("n1", "n2", Request::Broadcast { message: s("9"), msg_id: 1 }));
    let txn = <TxnListAppendNode as rust_maelstrom::Node<()>>::init(s("n7"), vec![], ());
    let mut t = Table::new();
    let reply = txn.handle_message(message("c", "n7", Input::Txn { msg_id: 1, txn: vec![] }), &mut t);
    assert_eq!(reply.src, "n7");
}

#[test]
fn routes_name_the_waiting_sender() {
    let mut broker = EventBroker::<Request>::new();
    let request = message("n1", "n2", Request::Read { msg_id: 5 });
    let mut rx = broker.subscribe_to_response(&request);
    let reply = message("n2", "n1", Request::BroadcastOk { in_reply_to: 5 });
    let (tx, m) = broker.route_received(reply.clone()).unwrap();
    assert_eq!(m, reply);
    assert!(tx.send(m).is_ok());
    assert_eq!(rx.try_recv(), Ok(reply.clone()));
    assert_eq!(broker.route_received(reply.clone()).err(), Some(reply));
    let own = message("n1", "n3", Request::Read { msg_id: 6 });
    let mut rx = broker.subscribe_to_response(&own);
    let (tx, m) = broker.route_from_self(own.clone()).unwrap();
    assert!(tx.send(m).is_ok());
    assert_eq!(rx.try_recv(), Ok(own));
}

#[test]
fn lin_kv_answers_are_routed() {
    let mut client = LinKvClient::new(s("n1"), EventBroker::<LinKvInput<u8>>::new());
    let (mut rx, _) = client.send_read(0u8, 9);
    let answer = message("lin-kv", "n1", LinKvInput::ReadOk { value: 4u8, in_reply_to: 9 });
    let (tx, m) = client.route_answer(answer).unwrap();
    assert!(tx.send(m).is_ok());
    assert!(matches!(rx.try_recv(), Ok(m) if matches!(m.body, LinKvInput::ReadOk { value: 4, in_reply_to: 9 })));
}

#[test]
fn gossip_needs_ids_only_for_new_values() {
    let mut node = BroadcastNode::new(s("n1"));
    node.topology(topology(), 1).unwrap();
    assert!(node.has_ids_for(&message("n2", "n1", Request::Broadcast { message: s("1"), msg_id: 2 })));
    assert!(node.has_ids_for(&message("c", "n1", Request::Read { msg_id: 3 })));
}

#[test]
fn key_value_answers_are_read() {
    use_outcomes();
}

fn use_outcomes() {


    assert!(matches!(read_outcome(LinKvInput::ReadOk { value: 3u8, in_reply_to: 1 }), ReadOutcome::Found(3)));
    assert!(matches!(
        read_outcome(LinKvInput::<u8>::Error { code: 20, text: s("missing"), in_reply_to: 1 }),
        ReadOutcome::Missing
    ));
    match read_outcome(LinKvInput::<u8>::Error { code: 22, text: s("no"), in_reply_to: 4 }) {
        ReadOutcome::Failed(e) => {
            assert!(matches!(e.code(), ErrorCode::PreconditionFailed));
            assert_eq!((e.text(), e.in_reply_to()), ("no", 4));
        }
        other => panic!("unexpected {other:?}"),
    }
    match read_outcome(LinKvInput::<u8>::CasOk { in_reply_to: 6 }) {
        ReadOutcome::Failed(e) => {
            assert!(matches!(e.code(), ErrorCode::Crash));
            assert_eq!(e.in_reply_to(), 6);
        }
        other => panic!("unexpected {other:?}"),
    }
    assert!(write_outcome(LinKvInput::<u8>::WriteOk { in_reply_to: 1 }).is_ok());
    assert!(write_outcome(LinKvInput::<u8>::CasOk { in_reply_to: 1 }).is_err());
    assert!(cas_outcome(LinKvInput::<u8>::CasOk { in_reply_to: 1 }).is_ok());
    let e = cas_outcome(LinKvInput::<u8>::Error { code: 30, text: s("c"), in_reply_to: 2 }).unwrap_err();
    assert!(matches!(e.code(), ErrorCode::TxnConflict));
    assert!(matches!(ErrorCode::from_code(99), ErrorCode::Crash));
    assert!(matches!(ErrorCode::from_code(0), ErrorCode::Timeout));
}

#[test]
fn resend_waits_grow_then_stop() {
    assert_eq!(FIRST_WAIT_MS, 100);
    assert_eq!(next_wait(100), Some(200));
    assert_eq!(next_wait(1900), Some(2000));
    assert_eq!(next_wait(2000), None);
    let mut sends = 1;
    let mut wait = FIRST_WAIT_MS;
    while let Some(next) = next_wait(wait) {
        sends += 1;
        wait = next;
    }
    assert_eq!((sends, wait), (20, 2000));
}
