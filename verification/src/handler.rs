use vstd::prelude::*;

use crate::message::{Message, PeerMessage};

verus! {

/// What a handler answers: the answer to a client request, or to a peer request.
#[derive(Debug)]
pub enum HandlerResponse<Res> {
    Maelstrom(Res),
    Peer(PeerMessage<Res>),
}

/// A request from a Maelstrom client or from a peer node.
#[derive(Debug)]
pub enum RequestType<Req> {
    Maelstrom(Message<Req>),
    Peer(Message<PeerMessage<Req>>),
}

/// Serves client requests with one handler and peer requests with another.
#[derive(Clone)]
pub struct Handler<M, P> {
    pub maelstrom_handler: M,
    pub peer_handler: P,
}

impl<M: Clone> Handler<M, PeerHander<M>> {
    /// Serves both kinds of request with the same handler; peer requests are unwrapped for it.
    pub fn new(handler: M) -> (h: Self)
        ensures
            cloned(handler, h.maelstrom_handler),
            h.peer_handler.inner == handler,
    {
        Handler { maelstrom_handler: handler.clone(), peer_handler: PeerHander { inner: handler } }
    }
}

impl<M, P> Handler<M, P> {
    /// The answer to a request that came from `src` to `dest`: it goes back from `dest` to `src`.
    pub fn answer<Res>(src: String, dest: String, body: HandlerResponse<Res>) -> (m: Message<HandlerResponse<Res>>)
        ensures
            m.src == dest,
            m.dest == src,
            m.body == body,
    {
        Message { src: dest, dest: src, body }
    }
}

/// Serves peer requests with a handler of plain requests.
#[derive(Clone)]
pub struct PeerHander<S> {
    pub inner: S,
}

impl<S> PeerHander<S> {
    /// The plain request that the inner handler sees, and the peer envelope to answer in.
    pub fn unwrap_request<Req>(request: Message<PeerMessage<Req>>) -> (r: (Message<Req>, PeerMessage<()>))
        ensures
            r.0.src == request.src,
            r.0.dest == request.dest,
            r.0.body == request.body.body,
            r.1.src == request.body.src,
            r.1.dest == request.body.dest,
            r.1.id == request.body.id,
    {
        let (message, peer_message) = request.split();
        let (peer_message, body) = peer_message.split();
        (message.with_body(body), peer_message)
    }

    /// The peer answer: it goes from node `id` back to the sender, under the request's number.
    pub fn wrap_response<Res>(peer_message: PeerMessage<()>, id: usize, response: Res) -> (r: PeerMessage<Res>)
        ensures
            r.src == id,
            r.dest == Some(peer_message.src),
            r.id == peer_message.id,
            r.body == response,
    {
        peer_message.into_reply(id).0.with_body(response)
    }
}

} // verus!
