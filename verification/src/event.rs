use vstd::prelude::*;

use tokio::sync::oneshot;

use crate::channel::{
    lemma_oneshot_pair, lemma_sent_oneshot, oneshot_channel, oneshot_pair, send_oneshot, sent_oneshot,
};
use crate::message::Message;
use std::collections::HashMap;

verus! {

/// Bodies that name the event they belong to by a number.
pub trait EventId {
    /// The number that `get_event_id` gives.
    spec fn event_id(&self) -> usize;

    fn get_event_id(&self) -> (id: usize)
        ensures
            id == self.event_id(),
    ;
}

/// An event that the broker routes to the task that waits for it.
#[derive(Debug)]
pub enum Event<T> {
    Maelstrom(Message<T>),
    Injected(Message<T>),
    BuiltIn(BuiltInEvent),
}

/// Events that the library itself produces.
#[derive(Debug, Clone, Copy, PartialEq, Eq)]
pub enum BuiltInEvent {
    ReadOk {},
    Read,
}

/// The number of an event that carries a message: that of its body.
pub open spec fn event_number<T: EventId>(e: Event<T>) -> usize
    recommends
        !(e is BuiltIn),
{
    match e {
        Event::Maelstrom(m) => m.body.event_id(),
        Event::Injected(m) => m.body.event_id(),
        Event::BuiltIn(_) => 0,
    }
}

impl<T: EventId> Event<T> {
    /// The number of the event; a built-in event has none.
    pub fn id(&self) -> (id: usize)
        requires
            !(self is BuiltIn),
        ensures
            id == event_number(*self),
    {
        match self {
            Event::Maelstrom(msg) => msg.body.get_event_id(),
            Event::Injected(msg) => msg.body.get_event_id(),
            Event::BuiltIn(_) => vstd::pervasive::unreached(),
        }
    }
}

/// What happened to a published event.
#[derive(Debug, PartialEq, Eq)]
pub enum Routing {
    /// The event was handed to the channel of the task that waited for its number.
    Delivered,
    /// A task had waited for the number, but it no longer listens: the broker stops.
    ReceiverGone,
    /// No task waited for the number: the event is lost and the broker stops.
    NoSubscriber,
    /// The broker had stopped before: the event is lost.
    Stopped,
}

/// Routes each event to the one task that subscribed to its number, once. The first event
/// that no task waits for stops the broker for good: from then on events are lost.
#[verifier::reject_recursive_types(T)]
pub struct EventBroker<T> {
    subscribers: HashMap<usize, oneshot::Sender<Event<T>>>,
    stopped: bool,
}

impl<T: EventId> EventBroker<T> {
    /// The numbers that tasks wait for, each with the sender that reaches the task.
    pub closed spec fn view(&self) -> Map<usize, oneshot::Sender<Event<T>>> {
        self.subscribers@
    }

    /// Whether an event that no task waited for has stopped the broker.
    pub closed spec fn stopped(&self) -> bool {
        self.stopped
    }

    /// Where the broker sends an event: while it runs, to the sender of the task that waits
    /// for the event's number; nowhere once it has stopped or when no task waits.
    pub open spec fn destination(&self, e: Event<T>) -> Option<oneshot::Sender<Event<T>>> {
        if !self.stopped() && self.view().contains_key(event_number(e)) {
            Some(self.view()[event_number(e)])
        } else {
            None
        }
    }

    /// After a task subscribes to a number on a running broker, the next event with that number
    /// goes to the sender stored for the task, and the one after it finds no task.
    pub proof fn law_subscribed_event_is_routed(
        before: Self,
        subscribed: Self,
        routed: Self,
        e: Event<T>,
    )
        requires
            !before.stopped(),
            !subscribed.stopped(),
            subscribed.view().dom() == before.view().dom().insert(event_number(e)),
            !routed.stopped(),
            routed.view() == subscribed.view().remove(event_number(e)),
        ensures
            subscribed.destination(e) == Some(subscribed.view()[event_number(e)]),
            routed.destination(e) is None,
    {
        assert(subscribed.view().contains_key(event_number(e)));
    }

    /// A subscription replaces any earlier one to the same number: after `subscribe(id)` on a
    /// running broker, an event numbered `id` goes to the sender whose receiver that call
    /// returned, and to no sender stored before.
    pub proof fn law_event_reaches_latest_subscriber(
        before: Self,
        subscribed: Self,
        rx: oneshot::Receiver<Event<T>>,
        e: Event<T>,
    )
        requires
            !subscribed.stopped(),
            subscribed.view().dom() == before.view().dom().insert(event_number(e)),
            oneshot_pair(subscribed.view()[event_number(e)], rx),
        ensures
            subscribed.destination(e) matches Some(tx) && oneshot_pair(tx, rx),
    {
        assert(subscribed.view().contains_key(event_number(e)));
    }

    pub fn new() -> (b: Self)
        ensures
            b.view() == Map::<usize, oneshot::Sender<Event<T>>>::empty(),
            !b.stopped(),
    {
        EventBroker { subscribers: HashMap::new(), stopped: false }
    }

    /// Whether the broker has stopped; a stopped broker takes no subscriptions.
    pub fn is_stopped(&self) -> (b: bool)
        ensures
            b == self.stopped(),
    {
        self.stopped
    }

    /// Waits for the event numbered `id`; a later subscription to the same number replaces
    /// an earlier one.
    pub fn subscribe(&mut self, id: usize) -> (rx: oneshot::Receiver<Event<T>>)
        requires
            !old(self).stopped(),
        ensures
            !final(self).stopped(),
            final(self).view().dom() == old(self).view().dom().insert(id),
            forall|k: usize| k != id && old(self).view().contains_key(k)
                ==> final(self).view()[k] == old(self).view()[k],
            oneshot_pair(final(self).view()[id], rx),
    {
        broadcast use vstd::std_specs::hash::group_hash_axioms;
        let (tx, rx) = oneshot_channel();
        proof {
            lemma_oneshot_pair(tx, rx);
        }
        let _ = self.subscribers.insert(id, tx);
        rx
    }

    /// Takes the sender of the task that waits for `id`, if there is one.
    pub fn take_subscriber(&mut self, id: usize) -> (r: Option<oneshot::Sender<Event<T>>>)
        ensures
            final(self).stopped() == old(self).stopped(),
            final(self).view() == old(self).view().remove(id),
            r is Some <==> old(self).view().contains_key(id),
            r matches Some(tx) ==> tx == old(self).view()[id],
    {
        broadcast use vstd::std_specs::hash::group_hash_axioms;
        self.subscribers.remove(&id)
    }

    /// Decides where an event goes: to the sender of the task that waits for its number, which
    /// then waits no longer. An event that no task waits for is lost and stops the broker; a
    /// stopped broker loses every event.
    pub fn route_event(&mut self, event: Event<T>) -> (r: Option<(oneshot::Sender<Event<T>>, Event<T>)>)
        requires
            !(event is BuiltIn),
        ensures
            old(self).stopped() ==> r is None && final(self).view() == old(self).view()
                && final(self).stopped(),
            !old(self).stopped() ==> {
                &&& final(self).view() == old(self).view().remove(event_number(event))
                &&& (r is Some <==> old(self).view().contains_key(event_number(event)))
                &&& (final(self).stopped() <==> !old(self).view().contains_key(event_number(event)))
            },
            r matches Some(p) ==> p.0 == old(self).view()[event_number(event)] && p.1 == event,
            r is Some <==> old(self).destination(event) is Some,
            r matches Some(p) ==> old(self).destination(event) == Some(p.0),
    {
        if self.stopped {
            return None;
        }
        let id = event.id();
        match self.take_subscriber(id) {
            Some(tx) => Some((tx, event)),
            None => {
                self.stopped = true;
                None
            },
        }
    }

    /// Hands the event to the task that waits for its number, as `route_event` decides; a task
    /// that no longer listens stops the broker as well.
    pub fn publish_event(&mut self, event: Event<T>) -> (r: Routing)
        requires
            !(event is BuiltIn),
        ensures
            old(self).stopped() ==> r == Routing::Stopped && final(self).view() == old(self).view()
                && final(self).stopped(),
            !old(self).stopped() ==> {
                &&& final(self).view() == old(self).view().remove(event_number(event))
                &&& (r == Routing::NoSubscriber <==> !old(self).view().contains_key(event_number(event)))
                &&& (final(self).stopped() <==> (r == Routing::NoSubscriber || r == Routing::ReceiverGone))
                &&& r != Routing::Stopped
            },
            r == Routing::Delivered ==> sent_oneshot(old(self).view()[event_number(event)], event, Ok(())),
            r == Routing::ReceiverGone ==> sent_oneshot(
                old(self).view()[event_number(event)],
                event,
                Err(event),
            ),
    {
        if self.stopped {
            return Routing::Stopped;
        }
        match self.route_event(event) {
            Some((tx, event)) => {
                let ghost sender = tx;
                let ghost sent = event;
                let r = send_oneshot(tx, event);
                proof {
                    lemma_sent_oneshot(sender, sent, r);
                }
                match r {
                    Ok(u) => {
                        assert(u == ());
                        Routing::Delivered
                    },
                    Err(_) => {
                        self.stopped = true;
                        Routing::ReceiverGone
                    },
                }
            },
            None => Routing::NoSubscriber,
        }
    }
}

impl<T: EventId> Default for EventBroker<T> {
    fn default() -> (b: Self)
        ensures
            b.view() == Map::<usize, oneshot::Sender<Event<T>>>::empty(),
            !b.stopped(),
    {
        Self::new()
    }
}

} // verus!
