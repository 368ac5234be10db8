use vstd::prelude::*;

use crate::event::EventId;

verus! {

/// A message of the Maelstrom protocol: who sent it, to whom, and what it carries.
#[derive(Debug, Clone, PartialEq, Eq)]
pub struct Message<T> {
    pub src: String,
    pub dest: String,
    pub body: T,
}

/// Bodies that carry a message id.
pub trait MessageId {
    fn get_id(&self) -> usize;
}

impl<T> Message<T> {
    /// Separates the envelope from the body.
    pub fn split(self) -> (r: (Message<()>, T))
        ensures
            r.0.src == self.src,
            r.0.dest == self.dest,
            r.1 == self.body,
    {
        (Message { src: self.src, dest: self.dest, body: () }, self.body)
    }

    /// The envelope of a reply (source and destination swapped) and the body.
    pub fn into_reply(self) -> (r: (Message<()>, T))
        ensures
            r.0.src == self.dest,
            r.0.dest == self.src,
            r.1 == self.body,
    {
        let body = self.body;
        (Message { src: self.dest, dest: self.src, body: () }, body)
    }

    /// The same envelope with another body.
    pub fn with_body<B>(self, body: B) -> (m: Message<B>)
        ensures
            m.src == self.src,
            m.dest == self.dest,
            m.body == body,
    {
        Message { src: self.src, dest: self.dest, body }
    }
}

/// A message between two nodes of the cluster, numbered by `id`.
#[derive(Debug)]
pub struct PeerMessage<T> {
    pub src: usize,
    pub dest: Option<usize>,
    pub id: usize,
    pub body: T,
}

impl<T> PeerMessage<T> {
    pub fn split(self) -> (r: (PeerMessage<()>, T))
        ensures
            r.0.src == self.src,
            r.0.dest == self.dest,
            r.0.id == self.id,
            r.1 == self.body,
    {
        (PeerMessage { src: self.src, dest: self.dest, id: self.id, body: () }, self.body)
    }

    /// The envelope of a reply sent by `src` back to the sender, under the same id.
    pub fn into_reply(self, src: usize) -> (r: (PeerMessage<()>, T))
        ensures
            r.0.src == src,
            r.0.dest == Some(self.src),
            r.0.id == self.id,
            r.1 == self.body,
    {
        let body = self.body;
        (PeerMessage { src, dest: Some(self.src), id: self.id, body: () }, body)
    }

    pub fn with_body<B>(self, body: B) -> (m: PeerMessage<B>)
        ensures
            m.src == self.src,
            m.dest == self.dest,
            m.id == self.id,
            m.body == body,
    {
        PeerMessage { src: self.src, dest: self.dest, id: self.id, body }
    }

    /// Whether `res` answers this message: it carries the same id.
    pub fn matches_response<B>(&self, res: &Message<PeerMessage<B>>) -> (b: bool)
        ensures
            b == (res.body.id == self.id),
    {
        res.body.id == self.id
    }
}

/// What a node may receive: a request from a client or another node, or a response of a peer.
#[derive(Debug)]
pub enum MessageType<M, P, R> {
    Request(Request<M, P>),
    Response(Message<PeerMessage<R>>),
}

/// A request from a Maelstrom client or from a peer node.
#[derive(Debug)]
pub enum Request<M, P> {
    Maelstrom(Message<M>),
    Peer(Message<PeerMessage<P>>),
}

/// The first message that Maelstrom sends to a node.
#[derive(Debug, Clone, PartialEq, Eq)]
pub enum InitRequest {
    Init { msg_id: usize, node_id: String, node_ids: Vec<String> },
}

/// The answer of a node to its init message.
#[derive(Debug, Clone, PartialEq, Eq)]
pub enum InitResponse {
    InitOk { in_reply_to: usize },
}

/// Whether a message is not answered by the response numbered `id`.
pub open spec fn awaits_other<T: EventId>(id: usize) -> spec_fn(Message<T>) -> bool {
    |m: Message<T>| m.body.event_id() != id
}

/// The messages that still wait for an answer once the response numbered `id` came in.
pub open spec fn unanswered<T: EventId>(messages: Seq<Message<T>>, id: usize) -> Seq<Message<T>> {
    messages.filter(awaits_other(id))
}

/// A response forgets exactly the messages it answers: every message that is kept waits for
/// another number, and every message that waits for another number is kept, in order.
pub proof fn law_response_forgets_only_its_messages<T: EventId>(messages: Seq<Message<T>>, id: usize)
    ensures
        forall|i: int| 0 <= i < unanswered(messages, id).len()
            ==> (#[trigger] unanswered(messages, id)[i]).body.event_id() != id,
        forall|m: Message<T>| #[trigger] messages.contains(m) && m.body.event_id() != id
            ==> unanswered(messages, id).contains(m),
        unanswered(messages, id).len() <= messages.len(),
{
    let p = awaits_other::<T>(id);
    assert forall|i: int| 0 <= i < unanswered(messages, id).len()
        implies (#[trigger] unanswered(messages, id)[i]).body.event_id() != id by {
        messages.lemma_filter_pred(p, i);
    }
    assert forall|m: Message<T>| #[trigger] messages.contains(m) && m.body.event_id() != id
        implies unanswered(messages, id).contains(m) by {
        let i = choose|i: int| 0 <= i < messages.len() && messages[i] == m;
        messages.lemma_filter_contains(p, i);
    }
    messages.lemma_filter_len(p);
}

/// Drops from the messages that are resent until answered those that the response `id` answers.
pub fn retain_unanswered<T: EventId>(messages: &mut Vec<Message<T>>, id: usize)
    ensures
        final(messages)@ == unanswered(old(messages)@, id),
{
    let ghost all = messages@;
    let ghost p = awaits_other::<T>(id);
    let mut kept: Vec<Message<T>> = Vec::new();
    let mut rest: Vec<Message<T>> = Vec::new();
    std::mem::swap(messages, &mut rest);
    let mut i: usize = 0;
    let n = rest.len();
    proof {
        reveal(Seq::filter);
        assert(all.take(0).filter(p) =~= Seq::<Message<T>>::empty());
    }
    while rest.len() > 0
        invariant
            n == all.len(),
            i + rest.len() == n,
            rest@ =~= all.skip(i as int),
            kept@ == all.take(i as int).filter(p),
            p == awaits_other::<T>(id),
        decreases rest.len(),
    {
        let m = rest.remove(0);
        assert(m == all[i as int]);
        let keep = m.body.get_event_id() != id;
        proof {
            assert(p(m) == keep);
            assert(all.take(i as int + 1) =~= all.take(i as int).push(m));
            all.take(i as int).lemma_filter_push(m, p);
        }
        if keep {
            kept.push(m);
        }
        i = i + 1;
    }
    assert(all.take(n as int) =~= all);
    *messages = kept;
}

} // verus!
