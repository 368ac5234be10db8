use vstd::prelude::*;

use tokio::sync::mpsc::{UnboundedReceiver, UnboundedSender};

use crate::channel::{
    lemma_sent_unbounded, lemma_unbounded_pair, send_unbounded, sent_unbounded, unbounded_channel, unbounded_pair,
};
use crate::table::{KeyEq, Table};

verus! {

/// The messages of one topic that a reader has not committed yet.
pub open spec fn unread<V>(messages: Seq<V>, offset: nat) -> Seq<V> {
    if offset >= messages.len() {
        Seq::empty()
    } else {
        messages.subrange(offset as int, messages.len() as int)
    }
}

/// Topics of messages, each with the offset up to which its messages have been committed.
#[verifier::reject_recursive_types(K)]
pub struct QueueModel<K, V> {
    pub topics: Map<K, Seq<V>>,
    pub offsets: Map<K, nat>,
}

impl<K, V> QueueModel<K, V> {
    pub open spec fn offset(self, k: K) -> nat {
        if self.offsets.contains_key(k) {
            self.offsets[k]
        } else {
            0
        }
    }

    /// What a reader of topic `k` gets: nothing for a topic that never had a message, else
    /// the messages after the committed offset.
    pub open spec fn read(self, k: K) -> Option<Seq<V>> {
        if self.topics.contains_key(k) {
            Some(unread(self.topics[k], self.offset(k)))
        } else {
            None
        }
    }

    /// The queue after `v` was published on topic `k`.
    pub open spec fn publish(self, k: K, v: V) -> Self {
        let old_messages = if self.topics.contains_key(k) {
            self.topics[k]
        } else {
            Seq::empty()
        };
        QueueModel { topics: self.topics.insert(k, old_messages.push(v)), offsets: self.offsets }
    }

    /// The queue after the offset of topic `k` was set to `n`.
    pub open spec fn commit(self, k: K, n: nat) -> Self {
        QueueModel { topics: self.topics, offsets: self.offsets.insert(k, n) }
    }
}

/// A message published on a topic is read by the next reader of that topic, after what it
/// had not read yet.
pub proof fn law_read_after_publish<K, V>(q: QueueModel<K, V>, k: K, v: V)
    requires
        q.offset(k) <= (if q.topics.contains_key(k) { q.topics[k].len() } else { 0 }),
    ensures
        q.publish(k, v).read(k) == Some(
            (if q.read(k) is Some { q.read(k)->0 } else { Seq::empty() }).push(v),
        ),
{
    let m = if q.topics.contains_key(k) { q.topics[k] } else { Seq::<V>::empty() };
    let o = q.offset(k);
    assert(unread(m.push(v), o) =~= unread(m, o).push(v));
}

/// Publishing on one topic changes what no reader of another topic sees.
pub proof fn law_publish_keeps_other_topics<K, V>(q: QueueModel<K, V>, k: K, v: V, other: K)
    requires
        other != k,
    ensures
        q.publish(k, v).read(other) == q.read(other),
{
}

/// After committing offset `n`, a reader gets the messages from position `n` on.
pub proof fn law_read_after_commit<K, V>(q: QueueModel<K, V>, k: K, n: nat)
    requires
        q.topics.contains_key(k),
    ensures
        q.commit(k, n).read(k) == Some(unread(q.topics[k], n)),
{
}

/// Committing every message of a topic leaves nothing to read in it.
pub proof fn law_commit_all_reads_nothing<K, V>(q: QueueModel<K, V>, k: K)
    requires
        q.topics.contains_key(k),
    ensures
        q.commit(k, q.topics[k].len()).read(k) == Some(Seq::<V>::empty()),
{
}

/// The listeners that stay after a notice: in order, those to which it was delivered.
pub open spec fn still_listening<S>(listeners: Seq<S>, delivered: Seq<bool>) -> Seq<S>
    decreases listeners.len(),
{
    if listeners.len() == 0 {
        Seq::empty()
    } else {
        let rest = still_listening(listeners.drop_last(), delivered.drop_last());
        if delivered.last() {
            rest.push(listeners.last())
        } else {
            rest
        }
    }
}

/// Each listener was sent one notice, `delivered` holds what each send returned, and `kept`
/// holds, in order, the listeners whose notice was taken.
pub open spec fn notified(
    listeners: Seq<UnboundedSender<()>>,
    delivered: Seq<bool>,
    kept: Seq<UnboundedSender<()>>,
) -> bool {
    &&& delivered.len() == listeners.len()
    &&& forall|i: int| 0 <= i < listeners.len() ==> sent_unbounded(#[trigger] listeners[i], (), delivered[i])
    &&& kept == still_listening(listeners, delivered)
}

proof fn lemma_still_listening<S>(l: Seq<S>, d: Seq<bool>)
    requires
        d.len() == l.len(),
    ensures
        forall|i: int| 0 <= i < l.len() && d[i] ==> still_listening(l, d).contains(#[trigger] l[i]),
        forall|j: int| 0 <= j < still_listening(l, d).len() ==> exists|i: int|
            0 <= i < l.len() && d[i] && #[trigger] still_listening(l, d)[j] == l[i],
    decreases l.len(),
{
    if l.len() > 0 {
        let (pl, pd) = (l.drop_last(), d.drop_last());
        lemma_still_listening(pl, pd);
        let rest = still_listening(pl, pd);
        let sl = still_listening(l, d);
        assert forall|i: int| 0 <= i < l.len() && d[i] implies sl.contains(#[trigger] l[i]) by {
            if i < l.len() - 1 {
                assert(pl[i] == l[i] && pd[i] == d[i]);
                assert(rest.contains(l[i]));
                let j = choose|j: int| 0 <= j < rest.len() && rest[j] == l[i];
                assert(sl[j] == l[i]);
            } else {
                assert(sl[sl.len() - 1] == l[i]);
            }
        }
        assert forall|j: int| 0 <= j < sl.len() implies exists|i: int|
            0 <= i < l.len() && d[i] && #[trigger] sl[j] == l[i] by {
            if j < rest.len() {
                let i = choose|i: int| 0 <= i < pl.len() && pd[i] && rest[j] == pl[i];
                assert(sl[j] == rest[j]);
                assert(d[i] && l[i] == pl[i]);
            } else {
                assert(sl[j] == l[l.len() - 1]);
            }
        }
    }
}

/// Whether `x` is one of the listeners whose notice was taken.
pub open spec fn took_notice<S>(listeners: Seq<S>, delivered: Seq<bool>, x: S) -> bool {
    exists|i: int| 0 <= i < listeners.len() && delivered[i] && listeners[i] == x
}

/// A publish tells every listener of the topic: each was sent one notice, every listener that
/// took it stays, and only such listeners stay.
pub proof fn law_publish_tells_every_listener(
    listeners: Seq<UnboundedSender<()>>,
    delivered: Seq<bool>,
    kept: Seq<UnboundedSender<()>>,
)
    requires
        notified(listeners, delivered, kept),
    ensures
        forall|i: int| 0 <= i < listeners.len() ==> sent_unbounded(#[trigger] listeners[i], (), delivered[i]),
        forall|i: int| 0 <= i < listeners.len() && delivered[i] ==> kept.contains(#[trigger] listeners[i]),
        forall|j: int| 0 <= j < kept.len() ==> took_notice(listeners, delivered, #[trigger] kept[j]),
{
    lemma_still_listening(listeners, delivered);
    assert forall|j: int| 0 <= j < kept.len() implies took_notice(listeners, delivered, #[trigger] kept[j]) by {
        assert(kept[j] == still_listening(listeners, delivered)[j]);
    }
}

/// Keeps, in order, the listeners whose notice was delivered.
pub fn keep_listening<S>(listeners: Vec<S>, delivered: &Vec<bool>) -> (kept: Vec<S>)
    requires
        delivered.len() == listeners.len(),
    ensures
        kept@ == still_listening(listeners@, delivered@),
{
    let ghost all = listeners@;
    let ghost d = delivered@;
    let n = listeners.len();
    let mut rest = listeners;
    let mut kept: Vec<S> = Vec::new();
    let mut i: usize = 0;
    assert(all.take(0) =~= Seq::<S>::empty());
    while i < n
        invariant
            n == all.len(),
            d == delivered@,
            d.len() == n,
            i <= n,
            rest@ == all.skip(i as int),
            kept@ == still_listening(all.take(i as int), d.take(i as int)),
        decreases n - i,
    {
        let x = rest.remove(0);
        assert(x == all[i as int]);
        assert(all.take(i as int + 1).drop_last() =~= all.take(i as int));
        assert(d.take(i as int + 1).drop_last() =~= d.take(i as int));
        assert(rest@ =~= all.skip(i as int + 1));
        if delivered[i] {
            kept.push(x);
        }
        i = i + 1;
    }
    assert(all.take(n as int) =~= all);
    assert(d.take(n as int) =~= d);
    kept
}

/// A store of messages by topic, with a committed offset per topic and listeners that are
/// told of each new message on their topic.
#[verifier::reject_recursive_types(K)]
#[verifier::reject_recursive_types(V)]
pub struct EventQueue<K: KeyEq, V> {
    topics: Table<K, Vec<V>>,
    topic_offset: Table<K, usize>,
    topic_notifications: Table<K, Vec<UnboundedSender<()>>>,
}

impl<K: KeyEq, V: Clone> EventQueue<K, V> {
    pub closed spec fn view(&self) -> QueueModel<K::V, V> {
        QueueModel {
            topics: self.topics.view().map_values(|v: Vec<V>| v@),
            offsets: self.topic_offset.view().map_values(|o: usize| o as nat),
        }
    }

    /// The listeners of each topic.
    pub closed spec fn listeners(&self) -> Map<K::V, Seq<UnboundedSender<()>>> {
        self.topic_notifications.view().map_values(|v: Vec<UnboundedSender<()>>| v@)
    }

    pub fn new() -> (q: Self)
        ensures
            q.view().topics == Map::<K::V, Seq<V>>::empty(),
            q.view().offsets == Map::<K::V, nat>::empty(),
            q.listeners() == Map::<K::V, Seq<UnboundedSender<()>>>::empty(),
    {
        let q = EventQueue { topics: Table::new(), topic_offset: Table::new(), topic_notifications: Table::new() };
        assert(q.view().topics =~= Map::<K::V, Seq<V>>::empty());
        assert(q.view().offsets =~= Map::<K::V, nat>::empty());
        assert(q.listeners() =~= Map::<K::V, Seq<UnboundedSender<()>>>::empty());
        q
    }

    /// Takes the listeners of a topic out of the queue: those that the next message on the
    /// topic is told of.
    pub fn take_listeners(&mut self, topic: &K) -> (r: Vec<UnboundedSender<()>>)
        ensures
            final(self).view() == old(self).view(),
            final(self).listeners() == old(self).listeners().remove(topic@),
            r@ == (if old(self).listeners().contains_key(topic@) {
                old(self).listeners()[topic@]
            } else {
                Seq::<UnboundedSender<()>>::empty()
            }),
    {
        let ghost old_listeners = self.listeners();
        let r = match self.topic_notifications.remove(topic) {
            Some(v) => v,
            None => Vec::new(),
        };
        assert(self.listeners() =~= old_listeners.remove(topic@));
        r
    }

    /// Tells each listener of a new message, in order, and gives back those that still listen:
    /// each listener is sent one notice, and those whose notice was not taken are dropped.
    fn notify(listeners: Vec<UnboundedSender<()>>) -> (kept: Vec<UnboundedSender<()>>)
        ensures
            exists|d: Seq<bool>| #[trigger] notified(listeners@, d, kept@),
    {
        let mut delivered: Vec<bool> = Vec::new();
        let mut i: usize = 0;
        while i < listeners.len()
            invariant
                i <= listeners.len(),
                delivered.len() == i,
                forall|j: int| 0 <= j < i ==> sent_unbounded(#[trigger] listeners@[j], (), delivered@[j]),
            decreases listeners.len() - i,
        {
            let ok = send_unbounded(&listeners[i], ());
            proof {
                lemma_sent_unbounded(&listeners[i as int], (), ok);
            }
            delivered.push(ok);
            i = i + 1;
        }
        let ghost d = delivered@;
        let ghost all = listeners@;
        let kept = keep_listening(listeners, &delivered);
        assert(notified(all, d, kept@));
        kept
    }

    /// Appends a message to a topic and tells each of the topic's listeners (as `take_listeners`
    /// gives them); a listener that no longer listens is forgotten.
    pub fn publish_message(&mut self, topic_name: K, message: V)
        ensures
            final(self).view() == old(self).view().publish(topic_name@, message),
            final(self).listeners().dom() == old(self).listeners().dom(),
            forall|k: K::V| k != topic_name@ && #[trigger] old(self).listeners().contains_key(k)
                ==> final(self).listeners()[k] == old(self).listeners()[k],
            old(self).listeners().contains_key(topic_name@) ==> exists|d: Seq<bool>|
                #[trigger] notified(old(self).listeners()[topic_name@], d, final(self).listeners()[topic_name@]),
    {
        let ghost old_view = self.view();
        let ghost old_listeners = self.listeners();
        let key = topic_name.key_clone();
        let mut messages = match self.topics.remove(&topic_name) {
            Some(v) => v,
            None => Vec::new(),
        };
        messages.push(message);
        let _ = self.topics.insert(topic_name, messages);
        assert(self.view().topics =~= old_view.topics.insert(key@, (if old_view.topics.contains_key(key@) {
            old_view.topics[key@]
        } else {
            Seq::empty()
        }).push(message)));
        assert(self.view().offsets =~= old_view.offsets);
        let had_listeners = self.topic_notifications.contains_key(&key);
        let listeners = self.take_listeners(&key);
        if had_listeners {
            let ghost told = listeners@;
            let kept = Self::notify(listeners);
            let ghost d = choose|d: Seq<bool>| #[trigger] notified(told, d, kept@);
            let ghost mid = self.listeners();
            let _ = self.topic_notifications.insert(key, kept);
            assert(self.listeners() =~= mid.insert(topic_name@, kept@));
            assert(self.listeners().dom() =~= old_listeners.dom());
            assert(told == old_listeners[topic_name@]);
            assert(notified(old_listeners[topic_name@], d, self.listeners()[topic_name@]));
        } else {
            assert(self.listeners() =~= old_listeners);
        }
    }

    /// The messages of a topic after its committed offset, or nothing for an unknown topic.
    pub fn get_messages(&self, topic: &K) -> (r: Option<Vec<V>>)
        ensures
            r is Some <==> self.view().read(topic@) is Some,
            r matches Some(v) ==> {
                &&& v.len() == self.view().read(topic@)->0.len()
                &&& forall|i: int| 0 <= i < v.len() ==> cloned::<V>(
                    #[trigger] self.view().read(topic@)->0[i],
                    v[i],
                )
            },
    {
        match self.topics.get(topic) {
            None => None,
            Some(messages) => {
                let offset: usize = match self.topic_offset.get(topic) {
                    Some(o) => *o,
                    None => 0,
                };
                let ghost m = messages@;
                let ghost pending = unread(m, offset as nat);
                let mut out: Vec<V> = Vec::new();
                let mut i: usize = offset;
                while i < messages.len()
                    invariant
                        offset <= i || messages.len() <= i,
                        i <= messages.len() || offset >= messages.len(),
                        offset < messages.len() ==> out.len() == i - offset,
                        offset >= messages.len() ==> out.len() == 0,
                        m == messages@,
                        pending == unread(m, offset as nat),
                        forall|j: int| 0 <= j < out.len() ==> cloned::<V>(#[trigger] pending[j], out[j]),
                    decreases messages.len() - i,
                {
                    let c = messages[i].clone();
                    out.push(c);
                    i = i + 1;
                }
                Some(out)
            },
        }
    }

    /// A receiver that is told of each message published on the topic from now on.
    pub fn get_listner(&mut self, topic: K) -> (rx: UnboundedReceiver<()>)
        ensures
            final(self).view() == old(self).view(),
            final(self).listeners().dom() == old(self).listeners().dom().insert(topic@),
            final(self).listeners()[topic@].len() == (if old(self).listeners().contains_key(topic@) {
                old(self).listeners()[topic@].len()
            } else {
                0
            }) + 1,
            final(self).listeners()[topic@] == (if old(self).listeners().contains_key(topic@) {
                old(self).listeners()[topic@]
            } else {
                Seq::<UnboundedSender<()>>::empty()
            }).push(final(self).listeners()[topic@].last()),
            unbounded_pair(final(self).listeners()[topic@].last(), rx),
            forall|k: K::V| k != topic@ && #[trigger] old(self).listeners().contains_key(k)
                ==> final(self).listeners()[k] == old(self).listeners()[k],
    {
        let ghost old_listeners = self.listeners();
        let (tx, rx) = unbounded_channel();
        proof {
            lemma_unbounded_pair(tx, rx);
        }
        let ghost k = topic@;
        let mut listeners = match self.topic_notifications.remove(&topic) {
            Some(v) => v,
            None => Vec::new(),
        };
        let ghost mid = self.listeners();
        listeners.push(tx);
        let _ = self.topic_notifications.insert(topic, listeners);
        assert(self.listeners() =~= mid.insert(k, listeners@));
        assert(mid =~= old_listeners.remove(k));
        rx
    }

    /// Sets the offset up to which the messages of a topic count as read.
    pub fn commit_offset(&mut self, topic: K, offset: usize)
        ensures
            final(self).view() == old(self).view().commit(topic@, offset as nat),
            final(self).listeners() == old(self).listeners(),
    {
        let ghost old_view = self.view();
        let ghost k = topic@;
        let _ = self.topic_offset.insert(topic, offset);
        assert(self.view().offsets =~= old_view.offsets.insert(k, offset as nat));
    }
}

} // verus!
