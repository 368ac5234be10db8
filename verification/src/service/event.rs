use vstd::prelude::*;

use tokio::sync::oneshot;

use crate::channel::{
    lemma_oneshot_pair, lemma_sent_oneshot, oneshot_channel, oneshot_pair, send_oneshot, sent_oneshot,
};
use crate::message::Message;
use crate::table::{KeyEq, Table};

verus! {

/// The id that a message body gives, as text.
#[derive(Debug, Clone, PartialEq, Eq, Hash)]
pub struct BodyId(pub String);

/// Bodies that give an id; the implementor states which.
pub trait AsBodyId {
    /// The text of the id.
    spec fn raw_id(&self) -> Seq<char>;

    fn as_raw_id(&self) -> (r: String)
        ensures
            r@ == self.raw_id(),
    ;

    fn as_body_id(&self) -> (r: BodyId)
        ensures
            r.0@ == self.raw_id(),
    {
        BodyId(self.as_raw_id())
    }
}

/// A conversation: this node, the node it talks to, and the id of the request.
#[derive(Debug, Clone, PartialEq, Eq, Hash)]
pub struct MessageId {
    pub this: String,
    pub other: String,
    pub id: BodyId,
}

impl View for MessageId {
    type V = (Seq<char>, Seq<char>, Seq<char>);

    open spec fn view(&self) -> (Seq<char>, Seq<char>, Seq<char>) {
        (self.this@, self.other@, self.id.0@)
    }
}

impl KeyEq for MessageId {
    fn key_eq(&self, other: &Self) -> (r: bool) {
        self.this == other.this && self.other == other.other && self.id.0 == other.id.0
    }

    fn key_clone(&self) -> (r: Self) {
        MessageId { this: self.this.clone(), other: self.other.clone(), id: BodyId(self.id.0.clone()) }
    }
}

/// The conversation of a message that this node received: it is the destination.
pub open spec fn received_key<T: AsBodyId>(m: Message<T>) -> (Seq<char>, Seq<char>, Seq<char>) {
    (m.dest@, m.src@, m.body.raw_id())
}

/// The conversation of a message that this node sends: it is the source.
pub open spec fn sent_key<T: AsBodyId>(m: Message<T>) -> (Seq<char>, Seq<char>, Seq<char>) {
    (m.src@, m.dest@, m.body.raw_id())
}

/// Routes the replies of other nodes to the tasks that wait for them, each reply once.
#[verifier::reject_recursive_types(T)]
pub struct EventBroker<T>(Table<MessageId, oneshot::Sender<Message<T>>>);

impl<T: AsBodyId> EventBroker<T> {
    /// The conversations that tasks wait on, each with the sender that reaches its task.
    pub closed spec fn view(&self) -> Map<(Seq<char>, Seq<char>, Seq<char>), oneshot::Sender<Message<T>>> {
        self.0.view()
    }

    pub fn new() -> (b: Self)
        ensures
            b.view() == Map::<(Seq<char>, Seq<char>, Seq<char>), oneshot::Sender<Message<T>>>::empty(),
    {
        EventBroker(Table::new())
    }

    /// A reply (ends swapped, same id) to a message that this node sent, after a task
    /// subscribed to the response, is routed to that task's sender; afterwards no task waits on
    /// the conversation, and the other conversations are those waited on before.
    pub proof fn law_reply_reaches_subscriber(
        before: Self,
        subscribed: Self,
        routed: Self,
        request: Message<T>,
        reply: Message<T>,
    )
        requires
            reply.src@ == request.dest@,
            reply.dest@ == request.src@,
            reply.body.raw_id() == request.body.raw_id(),
            subscribed.view().dom() == before.view().dom().insert(sent_key(request)),
            routed.view() == subscribed.view().remove(received_key(reply)),
        ensures
            subscribed.view().contains_key(received_key(reply)),
            !routed.view().contains_key(sent_key(request)),
            forall|k| k != sent_key(request) ==> (#[trigger] routed.view().contains_key(k)
                <==> before.view().contains_key(k)),
    {
        assert(received_key(reply) == sent_key(request));
        assert(subscribed.view().dom().contains(sent_key(request)));
    }

    fn route_under(&mut self, id: MessageId, message: Message<T>) -> (r: Result<(oneshot::Sender<Message<T>>, Message<T>), Message<T>>)
        ensures
            final(self).view() == old(self).view().remove(id@),
            r is Ok <==> old(self).view().contains_key(id@),
            r matches Ok(p) ==> p.0 == old(self).view()[id@] && p.1 == message,
            r matches Err(m) ==> m == message,
    {
        match self.0.remove(&id) {
            Some(tx) => Ok((tx, message)),
            None => Err(message),
        }
    }

    /// Decides where a received message goes: to the sender of the task that waits on its
    /// conversation, which then waits no longer; the message comes back when no task waits.
    pub fn route_received(&mut self, message: Message<T>) -> (r: Result<(oneshot::Sender<Message<T>>, Message<T>), Message<T>>)
        ensures
            final(self).view() == old(self).view().remove(received_key(message)),
            r is Ok <==> old(self).view().contains_key(received_key(message)),
            r matches Ok(p) ==> p.0 == old(self).view()[received_key(message)] && p.1 == message,
            r matches Err(m) ==> m == message,
    {
        let id = MessageId {
            this: message.dest.clone(),
            other: message.src.clone(),
            id: message.body.as_body_id(),
        };
        self.route_under(id, message)
    }

    /// Decides where a message that this node sends goes: to the sender of the task that waits
    /// on its conversation; the message comes back when no task waits.
    pub fn route_from_self(&mut self, message: Message<T>) -> (r: Result<(oneshot::Sender<Message<T>>, Message<T>), Message<T>>)
        ensures
            final(self).view() == old(self).view().remove(sent_key(message)),
            r is Ok <==> old(self).view().contains_key(sent_key(message)),
            r matches Ok(p) ==> p.0 == old(self).view()[sent_key(message)] && p.1 == message,
            r matches Err(m) ==> m == message,
    {
        let id = MessageId {
            this: message.src.clone(),
            other: message.dest.clone(),
            id: message.body.as_body_id(),
        };
        self.route_under(id, message)
    }

    /// Hands a received message to the task that waits on its conversation, as
    /// `route_received` decides; the message comes back when no task waits or the task no
    /// longer listens.
    pub fn publish_message_recived(&mut self, message: Message<T>) -> (r: Result<(), Message<T>>)
        ensures
            final(self).view() == old(self).view().remove(received_key(message)),
            !old(self).view().contains_key(received_key(message)) ==> r == Err::<(), Message<T>>(message),
            r matches Err(m) ==> m == message,
            old(self).view().contains_key(received_key(message)) ==> sent_oneshot(
                old(self).view()[received_key(message)],
                message,
                r,
            ),
    {
        match self.route_received(message) {
            Ok((tx, message)) => {
                let ghost sender = tx;
                let ghost sent = message;
                let r = send_oneshot(tx, message);
                proof {
                    lemma_sent_oneshot(sender, sent, r);
                }
                r
            },
            Err(message) => Err(message),
        }
    }

    /// Hands a message that this node sends to the task that waits on its conversation, as
    /// `route_from_self` decides.
    pub fn publish_message_from_self(&mut self, message: Message<T>) -> (r: Result<(), Message<T>>)
        ensures
            final(self).view() == old(self).view().remove(sent_key(message)),
            !old(self).view().contains_key(sent_key(message)) ==> r == Err::<(), Message<T>>(message),
            r matches Err(m) ==> m == message,
            old(self).view().contains_key(sent_key(message)) ==> sent_oneshot(
                old(self).view()[sent_key(message)],
                message,
                r,
            ),
    {
        match self.route_from_self(message) {
            Ok((tx, message)) => {
                let ghost sender = tx;
                let ghost sent = message;
                let r = send_oneshot(tx, message);
                proof {
                    lemma_sent_oneshot(sender, sent, r);
                }
                r
            },
            Err(message) => Err(message),
        }
    }

    /// Waits on the conversation `id`; a later wait on the same conversation replaces this one.
    pub fn subscribe_to_id(&mut self, id: MessageId) -> (rx: oneshot::Receiver<Message<T>>)
        ensures
            final(self).view().dom() == old(self).view().dom().insert(id@),
            forall|k| k != id@ && old(self).view().contains_key(k) ==> final(self).view()[k] == old(self).view()[k],
            oneshot_pair(final(self).view()[id@], rx),
    {
        let (tx, rx) = oneshot_channel();
        proof {
            lemma_oneshot_pair(tx, rx);
        }
        let _ = self.0.insert(id, tx);
        rx
    }

    /// Waits for the reply to a message that this node sends.
    pub fn subscribe_to_response(&mut self, message: &Message<T>) -> (rx: oneshot::Receiver<Message<T>>)
        ensures
            final(self).view().dom() == old(self).view().dom().insert(sent_key(*message)),
            forall|k| k != sent_key(*message) && old(self).view().contains_key(k)
                ==> final(self).view()[k] == old(self).view()[k],
            oneshot_pair(final(self).view()[sent_key(*message)], rx),
    {
        let id = MessageId {
            this: message.src.clone(),
            other: message.dest.clone(),
            id: message.body.as_body_id(),
        };
        self.subscribe_to_id(id)
    }
}

impl<T: AsBodyId> Default for EventBroker<T> {
    fn default() -> (b: Self)
        ensures
            b.view() == Map::<(Seq<char>, Seq<char>, Seq<char>), oneshot::Sender<Message<T>>>::empty(),
    {
        Self::new()
    }
}

/// Lets replies that a task waits for reach the task; all other requests go on to `inner`.
#[verifier::reject_recursive_types(Req)]
pub struct EventLayer<S, Req> {
    pub inner: S,
    pub event_broker: EventBroker<Req>,
}

impl<S, Req: AsBodyId> EventLayer<S, Req> {
    pub fn new(inner: S, event_broker: EventBroker<Req>) -> (l: Self)
        ensures
            l.inner == inner,
            l.event_broker == event_broker,
    {
        EventLayer { inner, event_broker }
    }

    /// The request to pass on to `inner`, or nothing when a waiting task took it.
    pub fn intercept(&mut self, request: Message<Req>) -> (r: Option<Message<Req>>)
        ensures
            final(self).event_broker.view() == old(self).event_broker.view().remove(received_key(request)),
            !old(self).event_broker.view().contains_key(received_key(request)) ==> r == Some(request),
            r matches Some(m) ==> m == request,
    {
        match self.event_broker.publish_message_recived(request) {
            Ok(()) => None,
            Err(request) => Some(request),
        }
    }
}

} // verus!
