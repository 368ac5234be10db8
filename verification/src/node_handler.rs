use vstd::prelude::*;

use crate::message::{InitRequest, InitResponse, Message};
use crate::Node;

verus! {

/// Runs a service over the lines a node reads, once the node is initialised.
pub struct NodeHandler<S> {
    service: S,
}

impl<S> NodeHandler<S> {
    /// The service that answers each line.
    pub closed spec fn service(&self) -> S {
        self.service
    }

    pub fn new(service: S) -> (h: Self)
        ensures
            h.service() == service,
    {
        NodeHandler { service }
    }

    /// Gives the service back, to run it.
    pub fn into_service(self) -> (s: S)
        ensures
            s == self.service(),
    {
        self.service
    }

    /// Starts a node from Maelstrom's init message: the node is what `N::init` makes of the id
    /// and the ids of the cluster that the message gives, and of `state`; the reply
    /// acknowledges the message by its id.
    pub fn init_node_from_message<N: Node<State>, State>(init_message: Message<InitRequest>, state: State) -> (r: (N, Message<InitResponse>))
        ensures
            r.1.src == init_message.dest,
            r.1.dest == init_message.src,
            r.1.body == (InitResponse::InitOk { in_reply_to: init_message.body->Init_msg_id }),
            call_ensures(
                N::init,
                (init_message.body->Init_node_id, init_message.body->Init_node_ids, state),
                r.0,
            ),
    {
        let (reply, body) = init_message.into_reply();
        let InitRequest::Init { msg_id, node_id, node_ids } = body;
        let node = N::init(node_id, node_ids, state);
        (node, reply.with_body(InitResponse::InitOk { in_reply_to: msg_id }))
    }
}

} // verus!
