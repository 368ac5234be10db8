use vstd::prelude::*;
use vstd::string::*;

use std::collections::VecDeque;

use crate::new_event::{
    deliver, handed_to, hands_off, law_delivered_handoff_reaches_subscriber, serves, Event, Handoff, IntoBodyId, IntoMessageId, MessageId, SubscribeOption,
};
use crate::table::{KeyEq, Table};

verus! {

/// Whether a text holds the wildcard `*`.
pub fn has_wildcard(s: &String) -> (b: bool)
    ensures
        b == s@.contains('*'),
{
    let t = s.as_str();
    let n = t.unicode_len();
    let mut i: usize = 0;
    while i < n
        invariant
            n == s@.len(),
            t@ == s@,
            i <= n,
            forall|j: int| 0 <= j < i ==> s@[j] != '*',
        decreases n - i,
    {
        if t.get_char(i) == '*' {
            return true;
        }
        i = i + 1;
    }
    false
}

/// A subscription whose source or destination holds `*` matches more than one message id.
pub open spec fn is_dynamic(id: (Seq<char>, Seq<char>)) -> bool {
    id.0.contains('*') || id.1.contains('*')
}

/// The message id an event is filed under.
pub open spec fn event_key<I: IntoBodyId<Id>, T: IntoBodyId<Id>, Id: View>(
    e: Event<I, T>,
) -> (Seq<char>, Seq<char>, Id::V) {
    match e {
        Event::MessageRecived(m) => m.message_id(),
        Event::MessageSent(m) => m.message_id(),
        Event::Error(_) => arbitrary(),
    }
}

/// No subscriber matched the event at the front of the queue.
#[derive(Debug, PartialEq, Eq)]
pub struct Unmatched;

/// Holds the events that no one took yet and hands each to the subscriber that waits for it:
/// a subscriber to its exact message id, else the first subscriber with a wildcard.
#[verifier::reject_recursive_types(I)]
#[verifier::reject_recursive_types(T)]
#[verifier::reject_recursive_types(Id)]
pub struct EventWorker<I, T, Id: KeyEq> {
    queue: VecDeque<Event<I, T>>,
    static_subscriptions: Table<MessageId<Id>, SubscribeOption<I, T>>,
    dynamic_subscriptions: Vec<(MessageId<Id>, SubscribeOption<I, T>)>,
}

impl<I: IntoBodyId<Id>, T: IntoBodyId<Id>, Id: KeyEq> EventWorker<I, T, Id> {
    /// The events that wait, oldest first.
    pub closed spec fn queue(&self) -> Seq<Event<I, T>> {
        self.queue@
    }

    /// The subscriptions to exact message ids.
    pub closed spec fn statics(&self) -> Map<(Seq<char>, Seq<char>, Id::V), SubscribeOption<I, T>> {
        self.static_subscriptions.view()
    }

    /// The subscriptions with a wildcard, in the order they came.
    pub closed spec fn dynamics(&self) -> Seq<(MessageId<Id>, SubscribeOption<I, T>)> {
        self.dynamic_subscriptions@
    }

    /// The subscriber that an event goes to, if any.
    pub open spec fn found(&self, e: Event<I, T>) -> Option<SubscribeOption<I, T>> {
        if self.statics().contains_key(event_key(e)) {
            Some(self.statics()[event_key(e)])
        } else if self.dynamics().len() > 0 {
            Some(self.dynamics()[0].1)
        } else {
            None
        }
    }

    /// The event carries a message, and the subscriber it goes to can take it.
    pub open spec fn deliverable(&self, e: Event<I, T>) -> bool {
        &&& !(e is Error)
        &&& (self.found(e) matches Some(o) ==> serves(o, e))
    }

    /// How many events at the front of `q` have a subscriber to go to.
    pub open spec fn handed_on(&self, q: Seq<Event<I, T>>) -> nat
        decreases q.len(),
    {
        if q.len() == 0 {
            0
        } else if self.found(q[0]) is Some {
            1 + self.handed_on(q.drop_first())
        } else {
            0
        }
    }

    /// The events that a round of handing on reaches (those with a subscriber, and the first
    /// without one) can be handled.
    pub open spec fn ready(&self) -> bool {
        forall|i: int| 0 <= i < self.queue().len() && i <= self.handed_on(self.queue())
            ==> self.deliverable(#[trigger] self.queue()[i])
    }

    proof fn lemma_handed_on_skip(&self, q: Seq<Event<I, T>>, k: int)
        requires
            0 <= k <= self.handed_on(q),
        ensures
            k <= q.len(),
            self.handed_on(q.skip(k)) == self.handed_on(q) - k,
            forall|j: int| 0 <= j < k ==> self.found(#[trigger] q[j]) is Some,
        decreases k,
    {
        if k > 0 {
            assert(q.len() > 0);
            self.lemma_handed_on_skip(q.drop_first(), k - 1);
            assert(q.drop_first().skip(k - 1) =~= q.skip(k));
            assert forall|j: int| 0 <= j < k implies self.found(#[trigger] q[j]) is Some by {
                if j > 0 {
                    assert(q[j] == q.drop_first()[j - 1]);
                }
            }
        } else {
            assert(q.skip(0) =~= q);
        }
    }

    /// A subscription to the exact id of an event catches that event, ahead of any wildcard
    /// subscription.
    pub proof fn law_exact_subscriber_catches_event(
        before: Self,
        after: Self,
        message_id: MessageId<Id>,
        option: SubscribeOption<I, T>,
        e: Event<I, T>,
    )
        requires
            !is_dynamic((message_id@.0, message_id@.1)),
            after.statics() == before.statics().insert(message_id@, option),
            after.dynamics() == before.dynamics(),
            event_key(e) == message_id@,
        ensures
            after.found(e) == Some(option),
    {
    }

    /// An event that waits at the front of the queue is handed on once a subscription to its
    /// exact id comes in, however long it waited.
    pub proof fn law_late_subscriber_gets_waiting_event(
        before: Self,
        after: Self,
        message_id: MessageId<Id>,
        option: SubscribeOption<I, T>,
    )
        requires
            !is_dynamic((message_id@.0, message_id@.1)),
            after.statics() == before.statics().insert(message_id@, option),
            after.dynamics() == before.dynamics(),
            after.queue() == before.queue(),
            before.queue().len() > 0,
            event_key(before.queue()[0]) == message_id@,
        ensures
            after.handed_on(after.queue()) >= 1,
    {
    }

    /// An event that no subscription to its exact id catches goes to the wildcard subscription
    /// that came first, while there is one, and stays with it when later wildcard
    /// subscriptions come in.
    pub proof fn law_first_wildcard_catches_event(
        before: Self,
        after: Self,
        message_id: MessageId<Id>,
        option: SubscribeOption<I, T>,
        e: Event<I, T>,
    )
        requires
            !before.statics().contains_key(event_key(e)),
            before.dynamics().len() > 0,
            is_dynamic((message_id@.0, message_id@.1)),
            after.statics() == before.statics(),
            after.dynamics() == before.dynamics().push((message_id, option)),
        ensures
            before.found(e) == Some(before.dynamics()[0].1),
            after.found(e) == before.found(e),
    {
    }

    pub fn new() -> (w: Self)
        ensures
            w.queue() == Seq::<Event<I, T>>::empty(),
            w.statics() == Map::<(Seq<char>, Seq<char>, Id::V), SubscribeOption<I, T>>::empty(),
            w.dynamics() == Seq::<(MessageId<Id>, SubscribeOption<I, T>)>::empty(),
    {
        EventWorker {
            queue: VecDeque::new(),
            static_subscriptions: Table::new(),
            dynamic_subscriptions: Vec::new(),
        }
    }

    /// Files a subscription: under its exact id, or among the wildcard ones.
    pub fn new_subscriber(&mut self, message_id: MessageId<Id>, subscriber_option: SubscribeOption<I, T>)
        ensures
            final(self).queue() == old(self).queue(),
            is_dynamic((message_id@.0, message_id@.1)) ==> {
                &&& final(self).dynamics() == old(self).dynamics().push((message_id, subscriber_option))
                &&& final(self).statics() == old(self).statics()
            },
            !is_dynamic((message_id@.0, message_id@.1)) ==> {
                &&& final(self).statics() == old(self).statics().insert(message_id@, subscriber_option)
                &&& final(self).dynamics() == old(self).dynamics()
            },
    {
        if has_wildcard(&message_id.src) || has_wildcard(&message_id.dest) {
            self.dynamic_subscriptions.push((message_id, subscriber_option));
        } else {
            let _ = self.static_subscriptions.insert(message_id, subscriber_option);
        }
    }

    /// Puts an event at the back of the queue.
    pub fn push_event(&mut self, event: Event<I, T>)
        ensures
            final(self).queue() == old(self).queue().push(event),
            final(self).statics() == old(self).statics(),
            final(self).dynamics() == old(self).dynamics(),
    {
        self.queue.push_back(event);
    }

    fn key_of(event: &Event<I, T>) -> (k: MessageId<Id>)
        requires
            !(*event is Error),
        ensures
            k@ == event_key(*event),
    {
        match event {
            Event::MessageRecived(msg) => msg.clone_into_message_id(),
            Event::MessageSent(msg) => msg.clone_into_message_id(),
            Event::Error(_) => vstd::pervasive::unreached(),
        }
    }

    /// Whether the event could be handed on now: a subscriber waits for it and listens still.
    /// For an exact subscriber the answer is `SubscribeOption::consumable` on whether its
    /// channel is open, which only the channel knows.
    pub fn can_consume_event(&self, event: &Event<I, T>) -> (b: bool)
        requires
            !(*event is Error),
            self.statics().contains_key(event_key(*event))
                ==> serves(self.statics()[event_key(*event)], *event),
        ensures
            !self.statics().contains_key(event_key(*event)) ==> b == (self.dynamics().len() > 0),
            b ==> self.found(*event) is Some,
            self.statics().contains_key(event_key(*event)) && b
                ==> crate::new_event::forwards(self.statics()[event_key(*event)], *event),
    {
        let message_id = Self::key_of(event);
        match self.static_subscriptions.get(&message_id) {
            Some(sub) => {
                let open = sub.is_open();
                sub.consumable(event, open)
            },
            None => self.match_dynamic_subcribers(event).is_some(),
        }
    }

    /// The subscriber that the event goes to.
    pub fn find_consumable_event(&self, event: &Event<I, T>) -> (r: Option<&SubscribeOption<I, T>>)
        requires
            !(*event is Error),
        ensures
            r is Some <==> self.found(*event) is Some,
            r matches Some(o) ==> *o == self.found(*event)->0,
            self.statics().contains_key(event_key(*event)) ==> (r matches Some(o)
                && *o == self.statics()[event_key(*event)]),
            !self.statics().contains_key(event_key(*event)) && self.dynamics().len() > 0
                ==> (r matches Some(o) && *o == self.dynamics()[0].1),
            !self.statics().contains_key(event_key(*event)) && self.dynamics().len() == 0 ==> r is None,
    {
        let message_id = Self::key_of(event);
        match self.static_subscriptions.get(&message_id) {
            Some(sub) => Some(sub),
            None => match self.match_dynamic_subcribers(event) {
                Some(entry) => Some(&entry.1),
                None => None,
            },
        }
    }

    /// The position of the wildcard subscription an event goes to: the first one.
    pub fn match_dynamic_subscribers_position(&self, event: &Event<I, T>) -> (r: Option<usize>)
        ensures
            r == (if self.dynamics().len() == 0 { None } else { Some(0usize) }),
    {
        if self.dynamic_subscriptions.len() == 0 {
            None
        } else {
            Some(0)
        }
    }

    pub fn match_dynamic_subcribers(&self, event: &Event<I, T>) -> (r: Option<&(MessageId<Id>, SubscribeOption<I, T>)>)
        ensures
            r is Some <==> self.dynamics().len() > 0,
            r matches Some(e) ==> *e == self.dynamics()[0],
    {
        match self.match_dynamic_subscribers_position(event) {
            Some(i) => Some(&self.dynamic_subscriptions[i]),
            None => None,
        }
    }

    /// Whether a round of handing on can run: `try_consume_events` requires it.
    pub fn ready_to_consume(&self) -> (b: bool)
        ensures
            b == self.ready(),
    {
        let ghost q = self.queue@;
        let mut i: usize = 0;
        while i < self.queue.len()
            invariant
                q == self.queue(),
                i <= self.handed_on(q),
                forall|j: int| 0 <= j < i ==> self.deliverable(#[trigger] q[j]),
            decreases self.queue@.len() - i,
        {
            proof {
                self.lemma_handed_on_skip(q, i as int);
            }
            let event = &self.queue[i];
            if let Event::Error(_) = event {
                return false;
            }
            match self.find_consumable_event(event) {
                None => {
                    proof {
                        assert(q.skip(i as int)[0] == q[i as int]);
                    }
                    return true;
                },
                Some(option) => {
                    let ok = match option {
                        SubscribeOption::MessageSent(_) => match event {
                            Event::MessageSent(_) => true,
                            _ => false,
                        },
                        SubscribeOption::Error(_) => false,
                        _ => true,
                    };
                    if !ok {
                        return false;
                    }
                    proof {
                        assert(q.skip(i as int)[0] == q[i as int]);
                        assert(q.skip(i as int).drop_first() =~= q.skip(i as int + 1));
                    }
                },
            }
            i = i + 1;
        }
        true
    }

    /// Decides what a round hands on for an event: the subscriber that `found` gives, in the
    /// form it asked for. An event without a subscriber comes back.
    pub fn route<'a>(&'a self, event: Event<I, T>) -> (r: Result<Handoff<'a, I, T>, Event<I, T>>)
        requires
            self.deliverable(event),
        ensures
            r is Ok <==> self.found(event) is Some,
            r matches Ok(h) ==> hands_off(self.found(event)->0, event, h),
            r matches Err(e) ==> e == event,
    {
        match self.find_consumable_event(&event) {
            Some(option) => Ok(option.handoff(event)),
            None => Err(event),
        }
    }

    /// Decides what the subscriber of an event's exact id is handed, if there is one.
    pub fn route_exact<'a>(&'a self, event: Event<I, T>) -> (r: Option<Handoff<'a, I, T>>)
        requires
            !(event is Error),
            self.statics().contains_key(event_key(event))
                ==> serves(self.statics()[event_key(event)], event),
        ensures
            r is Some <==> self.statics().contains_key(event_key(event)),
            r matches Some(h) ==> hands_off(self.statics()[event_key(event)], event, h),
    {
        let message_id = Self::key_of(&event);
        match self.static_subscriptions.get(&message_id) {
            Some(sub) => Some(sub.handoff(event)),
            None => None,
        }
    }

    /// Hands on the waiting events in order, as `route` decides, and stops at the first that no
    /// one waits for, which stays at the front of the queue.
    pub fn try_consume_events(&mut self) -> (r: Result<(), Unmatched>)
        requires
            old(self).ready(),
        ensures
            final(self).statics() == old(self).statics(),
            final(self).dynamics() == old(self).dynamics(),
            old(self).handed_on(old(self).queue()) <= old(self).queue().len(),
            final(self).queue() == old(self).queue().skip(old(self).handed_on(old(self).queue()) as int),
            r is Ok <==> old(self).handed_on(old(self).queue()) == old(self).queue().len(),
            forall|j: int| 0 <= j < old(self).handed_on(old(self).queue()) ==> handed_to(
                old(self).found(old(self).queue()[j])->0,
                #[trigger] old(self).queue()[j],
            ),
    {
        let ghost q0 = self.queue@;
        let ghost k: int = 0;
        proof {
            self.lemma_handed_on_skip(q0, 0);
        }
        while self.queue.len() > 0
            invariant
                self.statics() == old(self).statics(),
                self.dynamics() == old(self).dynamics(),
                q0 == old(self).queue(),
                0 <= k <= old(self).handed_on(q0),
                k <= q0.len(),
                self.queue@ == q0.skip(k),
                old(self).handed_on(q0.skip(k)) == old(self).handed_on(q0) - k,
                old(self).ready(),
                forall|j: int| 0 <= j < k ==> handed_to(old(self).found(q0[j])->0, #[trigger] q0[j]),
            decreases self.queue@.len(),
        {
            let event = self.queue.pop_front().unwrap();
            assert(event == q0[k]);
            assert(q0.skip(k)[0] == q0[k]);
            match self.route(event) {
                Ok(h) => {
                    let _ = deliver(h);
                    proof {
                        assert(old(self).deliverable(q0[k]));
                        law_delivered_handoff_reaches_subscriber(old(self).found(event)->0, event, h);
                        assert(q0.skip(k).drop_first() =~= q0.skip(k + 1));
                        k = k + 1;
                    }
                    assert(self.queue@ =~= q0.skip(k));
                },
                Err(event) => {
                    self.queue.push_front(event);
                    assert(self.queue@ =~= q0.skip(k));
                    return Err(Unmatched);
                },
            }
        }
        assert(q0.skip(k).len() == 0);
        Ok(())
    }

    /// Hands the event to the subscriber of its exact id, as `route_exact` decides; that
    /// subscriber then waits no longer, except that a subscriber to received messages keeps
    /// waiting when another kind of event comes.
    pub fn new_event(&mut self, event: Event<I, T>)
        requires
            !(event is Error),
            old(self).statics().contains_key(event_key(event))
                ==> serves(old(self).statics()[event_key(event)], event),
        ensures
            old(self).statics().contains_key(event_key(event)) ==> handed_to(
                old(self).statics()[event_key(event)],
                event,
            ),
            final(self).queue() == old(self).queue(),
            final(self).dynamics() == old(self).dynamics(),
            final(self).statics() == (if old(self).statics().contains_key(event_key(event))
                && crate::new_event::forwards(old(self).statics()[event_key(event)], event) {
                old(self).statics().remove(event_key(event))
            } else {
                old(self).statics()
            }),
    {
        let message_id = Self::key_of(&event);
        let forwarded = match self.route_exact(event) {
            Some(h) => {
                let passed = deliver(h);
                proof {
                    law_delivered_handoff_reaches_subscriber(self.statics()[event_key(event)], event, h);
                }
                passed
            },
            None => false,
        };
        if forwarded {
            let _ = self.static_subscriptions.remove(&message_id);
        }
    }

    /// The worker's answer to a round of handing on events: the count of failed rounds in a
    /// row, and after more than five of them the event at the front is dropped.
    pub fn settle_round(&mut self, consumed: Result<(), Unmatched>, failed_in_a_row: usize) -> (n: usize)
        requires
            failed_in_a_row < usize::MAX,
        ensures
            final(self).statics() == old(self).statics(),
            final(self).dynamics() == old(self).dynamics(),
            consumed is Ok ==> n == 0 && final(self).queue() == old(self).queue(),
            consumed is Err ==> n == failed_in_a_row + 1,
            consumed is Err && n > 5 ==> final(self).queue() == old(self).queue().drop_first()
                || (old(self).queue().len() == 0 && final(self).queue() == old(self).queue()),
            consumed is Err && n <= 5 ==> final(self).queue() == old(self).queue(),
    {
        match consumed {
            Ok(()) => 0,
            Err(_) => {
                let n = failed_in_a_row + 1;
                if n > 5 {
                    let _ = self.queue.pop_front();
                }
                n
            },
        }
    }
}

} // verus!
