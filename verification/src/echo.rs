use vstd::prelude::*;

use crate::message::Message;
use crate::Node;

verus! {

/// A node that answers each echo request with what it was sent.
#[derive(Debug, Clone, Copy, PartialEq, Eq)]
pub struct EchoNode {}

/// An echo request carrying any value `E`.
#[derive(Debug, Clone, PartialEq, Eq)]
pub enum EchoRequest<E> {
    Echo { echo: E, msg_id: usize },
}

/// The answer to an echo request.
#[derive(Debug, Clone, PartialEq, Eq)]
pub enum EchoResponse<E> {
    EchoOk { echo: E, in_reply_to: usize },
}

impl EchoNode {
    pub fn init() -> (n: Self)
        ensures
            n == (EchoNode {}),
    {
        EchoNode {}
    }

    /// The answer goes back to the sender, carries the same value, and names the request.
    pub fn reply<E>(request: Message<EchoRequest<E>>) -> (r: Message<EchoResponse<E>>)
        ensures
            r.src == request.dest,
            r.dest == request.src,
            r.body == (EchoResponse::EchoOk {
                echo: request.body->Echo_echo,
                in_reply_to: request.body->Echo_msg_id,
            }),
    {
        let (response, body) = request.into_reply();
        match body {
            EchoRequest::Echo { echo, msg_id } => response.with_body(EchoResponse::EchoOk { echo, in_reply_to: msg_id }),
        }
    }
}

impl Node<()> for EchoNode {
    fn init(_node_id: String, _node_ids: Vec<String>, _state: ()) -> Self {
        EchoNode {}
    }
}

} // verus!
