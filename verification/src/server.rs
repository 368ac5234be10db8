use vstd::prelude::*;

use crate::message::Message;

verus! {

/// Serves the requests of a node with a handler.
#[derive(Debug, Clone)]
pub struct Server<H> {
    handler: H,
}

impl<H: Clone> Server<H> {
    pub closed spec fn handler(&self) -> H {
        self.handler
    }

    pub fn new(handler: H) -> (s: Self)
        ensures
            s.handler() == handler,
    {
        Server { handler }
    }

    /// A copy of the handler, to serve one request.
    pub fn handler_copy(&self) -> (h: H)
        ensures
            cloned(self.handler(), h),
    {
        self.handler.clone()
    }
}

/// A message routed to the task `dest` that waits for it.
#[derive(Debug)]
pub enum Event<T> {
    Maelstrom { dest: usize, body: Message<T> },
    Injected { dest: usize, body: Message<T> },
}

/// What a handler leaves to the server: a response to write, an event to route, or nothing.
#[derive(Debug)]
pub enum HandlerResponse<Res, T> {
    Response(Res),
    Event(Event<T>),
    NoResponse,
}

} // verus!
