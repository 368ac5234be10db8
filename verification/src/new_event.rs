use vstd::prelude::*;

use tokio::sync::mpsc::UnboundedSender;

use crate::channel::{lemma_sent_unbounded, send_unbounded, sent_unbounded, unbounded_is_closed};
use crate::error::Error;
use crate::message::Message;
use crate::table::KeyEq;

verus! {

/// Something that happened to a node: a message came in, a message went out, or an error.
#[derive(Debug, Clone, PartialEq, Eq)]
pub enum Event<I, T> {
    MessageRecived(Message<I>),
    MessageSent(Message<T>),
    Error(Error),
}

/// How a subscriber wants to hear of the event it waits for, with the channel that reaches it:
/// the whole event, or only the body of a received message, of a sent message, or an error.
#[derive(Debug)]
#[verifier::reject_recursive_types(I)]
#[verifier::reject_recursive_types(T)]
pub enum SubscribeOption<I, T> {
    AnyEvent(UnboundedSender<Event<I, T>>),
    MessageRecived(UnboundedSender<I>),
    MessageSent(UnboundedSender<T>),
    Error(UnboundedSender<Error>),
}

/// Whether `send` is defined for this subscriber and event: a subscriber to sent messages
/// only takes sent messages, and error subscriptions are not served.
pub open spec fn serves<I, T>(o: SubscribeOption<I, T>, e: Event<I, T>) -> bool {
    match o {
        SubscribeOption::MessageSent(_) => e is MessageSent,
        SubscribeOption::Error(_) => false,
        _ => true,
    }
}

/// Whether `send` passes the event (or its body) to the subscriber's channel; a subscriber to
/// received messages silently drops any other event.
pub open spec fn forwards<I, T>(o: SubscribeOption<I, T>, e: Event<I, T>) -> bool {
    match o {
        SubscribeOption::MessageRecived(_) => e is MessageRecived,
        _ => true,
    }
}

/// What a subscriber's channel is handed for an event: the whole event, the body of a
/// received or a sent message, or nothing.
#[verifier::reject_recursive_types(I)]
#[verifier::reject_recursive_types(T)]
pub enum Handoff<'a, I, T> {
    Whole(&'a UnboundedSender<Event<I, T>>, Event<I, T>),
    Received(&'a UnboundedSender<I>, I),
    Sent(&'a UnboundedSender<T>, T),
    Dropped,
}

/// What the channel of subscriber `o` is handed for event `e`: a subscriber to every event gets
/// the event, a subscriber to received (or sent) messages gets the body of such a message, and
/// a subscriber to received messages gets nothing of any other event.
pub open spec fn hands_off<'a, I, T>(o: SubscribeOption<I, T>, e: Event<I, T>, h: Handoff<'a, I, T>) -> bool {
    match o {
        SubscribeOption::AnyEvent(tx) => h matches Handoff::Whole(c, x) && *c == tx && x == e,
        SubscribeOption::MessageRecived(tx) => match e {
            Event::MessageRecived(m) => h matches Handoff::Received(c, b) && *c == tx && b == m.body,
            _ => h is Dropped,
        },
        SubscribeOption::MessageSent(tx) => h matches Handoff::Sent(c, b) && *c == tx
            && b == e->MessageSent_0.body,
        SubscribeOption::Error(_) => false,
    }
}

/// Whether what a handoff holds was sent on its channel, whatever the send returned.
pub open spec fn handed_over<'a, I, T>(h: Handoff<'a, I, T>) -> bool {
    match h {
        Handoff::Whole(tx, e) => exists|ok: bool| sent_unbounded(*tx, e, ok),
        Handoff::Received(tx, b) => exists|ok: bool| sent_unbounded(*tx, b, ok),
        Handoff::Sent(tx, b) => exists|ok: bool| sent_unbounded(*tx, b, ok),
        Handoff::Dropped => true,
    }
}

/// Whether subscriber `o` was sent event `e` in the form it asked for: the whole event, or the
/// body of a received or sent message; a subscriber to received messages is sent nothing of
/// another event.
pub open spec fn handed_to<I, T>(o: SubscribeOption<I, T>, e: Event<I, T>) -> bool {
    match o {
        SubscribeOption::AnyEvent(tx) => exists|ok: bool| sent_unbounded(tx, e, ok),
        SubscribeOption::MessageRecived(tx) => match e {
            Event::MessageRecived(m) => exists|ok: bool| sent_unbounded(tx, m.body, ok),
            _ => true,
        },
        SubscribeOption::MessageSent(tx) => match e {
            Event::MessageSent(m) => exists|ok: bool| sent_unbounded(tx, m.body, ok),
            _ => false,
        },
        SubscribeOption::Error(_) => false,
    }
}

/// What `handoff` decides, once delivered, reaches the subscriber in the form it asked for.
pub proof fn law_delivered_handoff_reaches_subscriber<'a, I, T>(
    o: SubscribeOption<I, T>,
    e: Event<I, T>,
    h: Handoff<'a, I, T>,
)
    requires
        serves(o, e),
        hands_off(o, e, h),
        handed_over(h),
    ensures
        handed_to(o, e),
{
    match h {
        Handoff::Whole(c, x) => {
            let ok = choose|ok: bool| sent_unbounded(*c, x, ok);
            assert(sent_unbounded(o->AnyEvent_0, e, ok));
            assert(handed_to(o, e));
        },
        Handoff::Received(c, x) => {
            let ok = choose|ok: bool| sent_unbounded(*c, x, ok);
            assert(sent_unbounded(o->MessageRecived_0, e->MessageRecived_0.body, ok));
            assert(handed_to(o, e));
        },
        Handoff::Sent(c, x) => {
            let ok = choose|ok: bool| sent_unbounded(*c, x, ok);
            assert(sent_unbounded(o->MessageSent_0, e->MessageSent_0.body, ok));
            assert(handed_to(o, e));
        },
        Handoff::Dropped => {
            assert(handed_to(o, e));
        },
    }
}

/// Passes what a handoff holds to its channel, one send; whether the channel still listens is
/// not known.
pub fn deliver<'a, I, T>(h: Handoff<'a, I, T>) -> (passed: bool)
    ensures
        passed == !(h is Dropped),
        handed_over(h),
{
    match h {
        Handoff::Whole(tx, e) => {
            let ghost v = e;
            let ok = send_unbounded(tx, e);
            proof {
                lemma_sent_unbounded(tx, v, ok);
            }
            true
        },
        Handoff::Received(tx, b) => {
            let ghost v = b;
            let ok = send_unbounded(tx, b);
            proof {
                lemma_sent_unbounded(tx, v, ok);
            }
            true
        },
        Handoff::Sent(tx, b) => {
            let ghost v = b;
            let ok = send_unbounded(tx, b);
            proof {
                lemma_sent_unbounded(tx, v, ok);
            }
            true
        },
        Handoff::Dropped => false,
    }
}

impl<I, T> SubscribeOption<I, T> {
    /// Decides what goes to the subscriber's own channel: a subscriber to every event gets the
    /// event, a subscriber to received (or sent) messages gets the body of such a message,
    /// and a subscriber to received messages gets nothing of any other event.
    pub fn handoff<'a>(&'a self, event: Event<I, T>) -> (h: Handoff<'a, I, T>)
        requires
            serves(*self, event),
        ensures
            hands_off(*self, event, h),
    {
        match self {
            SubscribeOption::MessageRecived(tx) => match event {
                Event::MessageRecived(m) => Handoff::Received(tx, m.body),
                _ => Handoff::Dropped,
            },
            SubscribeOption::MessageSent(tx) => match event {
                Event::MessageSent(m) => Handoff::Sent(tx, m.body),
                _ => vstd::pervasive::unreached(),
            },
            SubscribeOption::Error(_) => vstd::pervasive::unreached(),
            SubscribeOption::AnyEvent(tx) => Handoff::Whole(tx, event),
        }
    }

    /// Whether the subscriber's channel still has a receiver. Error subscriptions are not
    /// served, so they are not asked.
    pub fn is_open(&self) -> (open: bool)
        requires
            !(*self is Error),
    {
        match self {
            SubscribeOption::AnyEvent(tx) => !unbounded_is_closed(tx),
            SubscribeOption::MessageRecived(tx) => !unbounded_is_closed(tx),
            SubscribeOption::MessageSent(tx) => !unbounded_is_closed(tx),
            SubscribeOption::Error(_) => vstd::pervasive::unreached(),
        }
    }

    /// Whether the subscriber can take the event now, given whether its channel is open: it
    /// must take this kind of event, and its channel must still listen.
    pub fn consumable(&self, event: &Event<I, T>, open: bool) -> (b: bool)
        requires
            serves(*self, *event),
        ensures
            b == (forwards(*self, *event) && open),
    {
        match self {
            SubscribeOption::MessageRecived(_) => match event {
                Event::MessageRecived(_) => open,
                _ => false,
            },
            _ => open,
        }
    }

    /// Hands the event to the subscriber in the form it asked for, as `handoff` decides. The
    /// result tells whether anything was passed to the channel.
    pub fn send(&self, event: Event<I, T>) -> (passed: bool)
        requires
            serves(*self, event),
        ensures
            passed == forwards(*self, event),
            handed_to(*self, event),
    {
        let h = self.handoff(event);
        let passed = deliver(h);
        proof {
            law_delivered_handoff_reaches_subscriber(*self, event, h);
        }
        passed
    }
}

/// The part of a message id that its body gives.
#[derive(Debug, Clone, PartialEq, Eq, Hash)]
pub struct BodyId<T>(pub T);

impl From<usize> for BodyId<usize> {
    fn from(value: usize) -> (r: Self) {
        BodyId(value)
    }
}

impl vstd::std_specs::convert::FromSpecImpl<usize> for BodyId<usize> {
    open spec fn obeys_from_spec() -> bool {
        true
    }

    open spec fn from_spec(v: usize) -> Self {
        BodyId(v)
    }
}

/// Bodies that give an id; the implementor states which.
pub trait IntoBodyId<T> {
    /// The id that the body gives.
    spec fn body_id(&self) -> T;

    fn into_body_id(self) -> (r: BodyId<T>)
        ensures
            r.0 == self.body_id(),
    ;

    fn clone_into_body_id(&self) -> (r: BodyId<T>)
        ensures
            r.0 == self.body_id(),
    ;
}

/// What identifies a message among the events: its two ends and the id of its body.
#[derive(Debug, Clone, PartialEq, Eq, Hash)]
pub struct MessageId<T> {
    pub src: String,
    pub dest: String,
    pub id: BodyId<T>,
}

impl<T: View> View for MessageId<T> {
    type V = (Seq<char>, Seq<char>, T::V);

    open spec fn view(&self) -> (Seq<char>, Seq<char>, T::V) {
        (self.src@, self.dest@, self.id.0@)
    }
}

impl<T: KeyEq> KeyEq for MessageId<T> {
    fn key_eq(&self, other: &Self) -> (r: bool) {
        self.src == other.src && self.dest == other.dest && self.id.0.key_eq(&other.id.0)
    }

    fn key_clone(&self) -> (r: Self) {
        MessageId { src: self.src.clone(), dest: self.dest.clone(), id: BodyId(self.id.0.key_clone()) }
    }
}

/// Things that name the message id an event is filed under.
pub trait IntoMessageId<T: View>: Sized {
    /// The id, taken by its view.
    spec fn message_id(&self) -> (Seq<char>, Seq<char>, T::V);

    fn into_message_id(self) -> (r: MessageId<T>)
        ensures
            r@ == self.message_id(),
    ;

    fn clone_into_message_id(&self) -> (r: MessageId<T>)
        ensures
            r@ == self.message_id(),
    ;
}

impl<T: KeyEq> IntoMessageId<T> for MessageId<T> {
    open spec fn message_id(&self) -> (Seq<char>, Seq<char>, T::V) {
        self@
    }

    fn into_message_id(self) -> (r: MessageId<T>) {
        self
    }

    fn clone_into_message_id(&self) -> (r: MessageId<T>) {
        self.key_clone()
    }
}

impl<T: View, B: IntoBodyId<T>> IntoMessageId<T> for Message<B> {
    open spec fn message_id(&self) -> (Seq<char>, Seq<char>, T::V) {
        (self.src@, self.dest@, self.body.body_id()@)
    }

    fn into_message_id(self) -> (r: MessageId<T>) {
        let id = self.body.into_body_id();
        MessageId { src: self.src, dest: self.dest, id }
    }

    fn clone_into_message_id(&self) -> (r: MessageId<T>) {
        let id = self.body.clone_into_body_id();
        MessageId { src: self.src.clone(), dest: self.dest.clone(), id }
    }
}

} // verus!
