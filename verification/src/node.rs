use vstd::prelude::*;

use crate::error::Error;
use crate::message::Message;
use crate::new_event::Event;

verus! {

/// What a node does after an event: raise another event, send a message, reply, report an
/// error, or nothing.
#[derive(Debug, Clone)]
pub enum NodeResponse<I, T> {
    Event(Event<I, T>),
    Message(Message<T>),
    Reply(Message<T>),
    Error(Error),
    NoResponse,
}

} // verus!
