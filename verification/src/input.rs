use vstd::prelude::*;

use std::marker::PhantomData;

use crate::handler::RequestType;
use crate::message::{Message, PeerMessage};

verus! {

/// Sorts the lines a node reads into new requests and answers to running handlers.
pub struct InputHandler<Req, Res>(pub PhantomData<Req>, pub PhantomData<Res>);

impl<Req, Res> InputHandler<Req, Res> {
    pub fn new() -> Self {
        InputHandler(PhantomData, PhantomData)
    }

    /// A request starts a new handler; a peer response goes to the handler it is addressed to.
    pub fn route(input: InputType<Req, Res>) -> (r: InputResponse<Req, Res>)
        requires
            input matches InputType::Response(m) ==> m.body.dest is Some,
        ensures
            match input {
                InputType::Request(req) => r == InputResponse::<Req, Res>::NewHandler(req),
                InputType::Response(m) => r == InputResponse::<Req, Res>::HandlerMessage {
                    id: m.body.dest->0,
                    message: m,
                },
            },
    {
        match input {
            InputType::Request(req) => InputResponse::NewHandler(req),
            InputType::Response(res) => {
                let id = res.body.dest.unwrap();
                InputResponse::HandlerMessage { id, message: res }
            },
        }
    }
}

impl<Req, Res> Default for InputHandler<Req, Res> {
    fn default() -> Self {
        Self::new()
    }
}

/// A line of input: a request, or a response of a peer.
pub enum InputType<Req, Res> {
    Request(RequestType<Req>),
    Response(Message<PeerMessage<Res>>),
}

/// Where a line of input goes.
#[derive(Debug)]
pub enum InputResponse<Req, Res> {
    NewHandler(RequestType<Req>),
    HandlerMessage { id: usize, message: Message<PeerMessage<Res>> },
}

} // verus!
