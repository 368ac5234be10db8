use std::marker::PhantomData;

use rust_maelstrom::input::InputHandler;
use rust_maelstrom::maelstrom_service::lin_kv::LinKvInput;
use rust_maelstrom::message::Message;
use rust_maelstrom::node::NodeResponse;
use rust_maelstrom::node_handler::NodeHandler;
use rust_maelstrom::server::{HandlerResponse, Server};
use rust_maelstrom::service::json::JsonLayer;
use rust_maelstrom::service::message::MessageLayer;
use rust_maelstrom::txn_list_append::{Input, Inputs, Routed, RoutingLayer};

fn message<B>(src: &str, dest: &str, body: B) -> Message<B> {
    Message { src: src.to_string(), dest: dest.to_string(), body }
}

#[test]
fn routing_layer_sorts_inputs() {
    let txn = message("c", "n", Inputs::<u8>::Txn(Input::Txn { msg_id: 1, txn: vec![] }));
    match RoutingLayer::<(), ()>::route(txn) {
        Routed::Txn(m) => assert_eq!(m, message("c", "n", Input::Txn { msg_id: 1, txn: vec![] })),
        Routed::LinKv(_) => panic!("a transaction goes to the node"),
    }
    let answer = message("lin-kv", "n", Inputs::<u8>::LinKv(LinKvInput::WriteOk { in_reply_to: 3 }));
    match RoutingLayer::<(), ()>::route(answer) {
        Routed::LinKv(m) => {
            assert_eq!((m.src.as_str(), m.dest.as_str()), ("lin-kv", "n"));
            assert!(matches!(m.body, LinKvInput::WriteOk { in_reply_to: 3 }));
        }
        Routed::Txn(_) => panic!("an answer of the store goes to its client"),
    }
}

#[test]
fn layers_keep_their_service() {
    let json = JsonLayer::<u8, Message<()>>::new(4);
    assert_eq!(json.0, 4);
    assert_eq!(json.clone().0, 4);
    let layer = MessageLayer::<u8, ()>(5, PhantomData);
    assert_eq!(layer.clone().0, 5);
    let handler = NodeHandler::new(6u8);
    assert_eq!(handler.into_service(), 6);
    let server = Server::new(7u8);
    assert_eq!(server.handler_copy(), 7);
    let _ = InputHandler::<u8, u8>::new();
    let _ = InputHandler::<u8, u8>::default();
    assert!(matches!(HandlerResponse::<u8, u8>::NoResponse, HandlerResponse::NoResponse));
    assert!(matches!(NodeResponse::<u8, u8>::NoResponse, NodeResponse::NoResponse));
}
