use vstd::prelude::*;

use crate::id_counter::SeqIdCounter;
use crate::message::Message;
use crate::service::event::AsBodyId;
use crate::text::{copy_texts, decimal, texts, usize_text};
use crate::Node;

verus! {

/// A request of the broadcast workload. Broadcast values are carried as their JSON text; the
/// topology maps node ids to their neighbours.
#[derive(Debug, Clone, PartialEq, Eq)]
pub enum Request {
    Topology { topology: Vec<(String, Vec<String>)>, msg_id: usize },
    Broadcast { message: String, msg_id: usize },
    Read { msg_id: usize },
    BroadcastOk { in_reply_to: usize },
}

/// The number that a request carries.
pub open spec fn request_number(r: Request) -> usize {
    match r {
        Request::Topology { msg_id, .. } => msg_id,
        Request::Broadcast { msg_id, .. } => msg_id,
        Request::Read { msg_id } => msg_id,
        Request::BroadcastOk { in_reply_to } => in_reply_to,
    }
}

impl AsBodyId for Request {
    open spec fn raw_id(&self) -> Seq<char> {
        decimal(request_number(*self) as nat)
    }

    fn as_raw_id(&self) -> (r: String) {
        let id = match self {
            Request::Topology { msg_id, .. } => *msg_id,
            Request::Broadcast { msg_id, .. } => *msg_id,
            Request::Read { msg_id } => *msg_id,
            Request::BroadcastOk { in_reply_to } => *in_reply_to,
        };
        usize_text(id)
    }
}

/// An answer of the broadcast workload.
#[derive(Debug, Clone, PartialEq, Eq)]
pub enum Response {
    TopologyOk { in_reply_to: usize },
    BroadcastOk { in_reply_to: usize },
    ReadOk { messages: Vec<String>, in_reply_to: usize },
}

/// The topology did not name this node.
#[derive(Debug, Clone, PartialEq, Eq)]
pub struct NodeNotInTopology;

/// What a node does with a request.
#[derive(Debug)]
pub enum Handled {
    /// Answer at once.
    Reply(Message<Response>),
    /// Send each peer message until it is acknowledged, then answer.
    Gossip { reply: Message<Response>, peers: Vec<Message<Request>> },
    /// A peer acknowledged a message: hand it to the task that waits for it.
    Ack(Message<Request>),
    /// The request could not be served.
    Failed(NodeNotInTopology),
}

/// The neighbours that the topology gives a node: those of its first entry.
pub open spec fn neighbours_in(t: Seq<(String, Vec<String>)>, node: Seq<char>) -> Option<Seq<Seq<char>>>
    decreases t.len(),
{
    if t.len() == 0 {
        None
    } else if t[0].0@ == node {
        Some(texts(t[0].1@))
    } else {
        neighbours_in(t.drop_first(), node)
    }
}

/// Whether a neighbour is not the node a value came from.
pub open spec fn other_than(src: Seq<char>) -> spec_fn(Seq<char>) -> bool {
    |n: Seq<char>| n != src
}

/// The messages that pass `value` on from `node` to each of `neighbors` other than `src`, in
/// the order of the neighbours, numbered from `last + 1` on.
pub open spec fn is_gossip(
    node: Seq<char>,
    neighbors: Seq<Seq<char>>,
    last: usize,
    value: String,
    src: Seq<char>,
    peers: Seq<Message<Request>>,
) -> bool {
    &&& peers.len() == neighbors.filter(other_than(src)).len()
    &&& forall|i: int| 0 <= i < peers.len() ==> {
        &&& (#[trigger] peers[i]).src@ == node
        &&& peers[i].dest@ == neighbors.filter(other_than(src))[i]
        &&& peers[i].dest@ != src
        &&& peers[i].body == Request::Broadcast { message: value, msg_id: (last + i + 1) as usize }
    }
}

/// A node of the broadcast workload: it keeps every value it was sent once, and passes each
/// new value on to its neighbours.
#[derive(Debug)]
pub struct BroadcastNode {
    node_id: String,
    neighbors: Vec<String>,
    messages: Vec<String>,
    id_generator: SeqIdCounter,
}

impl BroadcastNode {
    pub closed spec fn node_id(&self) -> Seq<char> {
        self.node_id@
    }

    pub closed spec fn neighbors(&self) -> Seq<Seq<char>> {
        texts(self.neighbors@)
    }

    /// The values the node has, in the order they came, each once.
    pub closed spec fn messages(&self) -> Seq<Seq<char>> {
        texts(self.messages@)
    }

    /// The number of the last message the node sent to a peer.
    pub closed spec fn last_id(&self) -> usize {
        self.id_generator.last()
    }

    pub closed spec fn wf(&self) -> bool {
        self.messages().no_duplicates()
    }

    pub fn new(node_id: String) -> (n: Self)
        ensures
            n.wf(),
            n.node_id() == node_id@,
            n.neighbors() == Seq::<Seq<char>>::empty(),
            n.messages() == Seq::<Seq<char>>::empty(),
            n.last_id() == 0,
    {
        let n = BroadcastNode {
            node_id,
            neighbors: Vec::new(),
            messages: Vec::new(),
            id_generator: SeqIdCounter::new(),
        };
        assert(n.neighbors() =~= Seq::<Seq<char>>::empty());
        assert(n.messages() =~= Seq::<Seq<char>>::empty());
        n
    }

    /// Whether the ids left suffice to number the messages that serving `message` sends: only
    /// a new broadcast value is passed on, to each neighbour but its sender.
    pub open spec fn ids_suffice(&self, message: Message<Request>) -> bool {
        match message.body {
            Request::Broadcast { message: value, .. } => !self.messages().contains(value@)
                ==> self.last_id() + self.neighbors().filter(other_than(message.src@)).len() <= usize::MAX,
            _ => true,
        }
    }

    /// Whether serving `message` can number every message it sends.
    pub fn has_ids_for(&self, message: &Message<Request>) -> (b: bool)
        ensures
            b == self.ids_suffice(*message),
    {
        match &message.body {
            Request::Broadcast { message: value, .. } => {
                if self.knows(value) {
                    return true;
                }
                let ghost ns = self.neighbors();
                let ghost p = other_than(message.src@);
                let mut count: usize = 0;
                let mut i: usize = 0;
                proof {
                    reveal(Seq::filter);
                    assert(ns.take(0).filter(p) =~= Seq::<Seq<char>>::empty());
                }
                while i < self.neighbors.len()
                    invariant
                        i <= self.neighbors.len(),
                        ns == self.neighbors(),
                        p == other_than(message.src@),
                        count == ns.take(i as int).filter(p).len(),
                        count <= i,
                    decreases self.neighbors.len() - i,
                {
                    proof {
                        let pre = ns.take(i as int);
                        assert(ns.take(i as int + 1) =~= pre.push(ns[i as int]));
                        pre.lemma_filter_push(ns[i as int], p);
                    }
                    let keep = !(self.neighbors[i] == message.src);
                    assert(p(ns[i as int]) == keep);
                    if keep {
                        count = count + 1;
                    }
                    i = i + 1;
                }
                assert(ns.take(i as int) =~= ns);
                self.id_generator.last_id() <= usize::MAX - count
            },
            _ => true,
        }
    }

    /// Takes this node's neighbours from the topology.
    pub fn topology(&mut self, topology: Vec<(String, Vec<String>)>, msg_id: usize) -> (r: Result<Response, NodeNotInTopology>)
        ensures
            final(self).node_id() == old(self).node_id(),
            final(self).messages() == old(self).messages(),
            final(self).last_id() == old(self).last_id(),
            final(self).wf() == old(self).wf(),
            match neighbours_in(topology@, old(self).node_id()) {
                Some(n) => r == Ok::<Response, NodeNotInTopology>(Response::TopologyOk { in_reply_to: msg_id })
                    && final(self).neighbors() == n,
                None => r == Err::<Response, NodeNotInTopology>(NodeNotInTopology)
                    && final(self).neighbors() == old(self).neighbors(),
            },
    {
        let mut remaining = topology;
        let ghost t = remaining@;
        while remaining.len() > 0
            invariant
                t == topology@,
                neighbours_in(remaining@, self.node_id()) == neighbours_in(t, self.node_id()),
                self.node_id() == old(self).node_id(),
                self.neighbors == old(self).neighbors,
                self.messages == old(self).messages,
                self.id_generator == old(self).id_generator,
            decreases remaining.len(),
        {
            let ghost before = remaining@;
            let (name, neighbours) = remaining.remove(0);
            assert(remaining@ =~= before.drop_first());
            assert((name, neighbours) == before[0]);
            if name == self.node_id {
                assert(neighbours_in(before, self.node_id()) == Some(texts(before[0].1@)));
                self.neighbors = neighbours;
                return Ok(Response::TopologyOk { in_reply_to: msg_id });
            }
        }
        Err(NodeNotInTopology)
    }

    fn knows(&self, value: &String) -> (b: bool)
        ensures
            b == self.messages().contains(value@),
    {
        let mut i: usize = 0;
        while i < self.messages.len()
            invariant
                i <= self.messages.len(),
                forall|j: int| 0 <= j < i ==> self.messages()[j] != value@,
            decreases self.messages.len() - i,
        {
            if self.messages[i] == *value {
                assert(self.messages()[i as int] == value@);
                return true;
            }
            i = i + 1;
        }
        false
    }

    /// Messages that pass `message` on to each neighbour other than `src`, in the order of the
    /// neighbours, numbered with fresh ids.
    pub fn create_filtered_peer_messages(&mut self, message: &String, src: &String) -> (r: Vec<Message<Request>>)
        requires
            old(self).last_id() + old(self).neighbors().filter(other_than(src@)).len() <= usize::MAX,
        ensures
            final(self).node_id() == old(self).node_id(),
            final(self).neighbors() == old(self).neighbors(),
            final(self).messages() == old(self).messages(),
            final(self).wf() == old(self).wf(),
            is_gossip(old(self).node_id(), old(self).neighbors(), old(self).last_id(), *message, src@, r@),
            final(self).last_id() == old(self).last_id() + r.len(),
    {
        let ghost ns = self.neighbors();
        let ghost p = other_than(src@);
        let ghost last0 = self.last_id();
        let mut out: Vec<Message<Request>> = Vec::new();
        let mut i: usize = 0;
        proof {
            reveal(Seq::filter);
            assert(ns.take(0).filter(p) =~= Seq::<Seq<char>>::empty());
        }
        while i < self.neighbors.len()
            invariant
                i <= self.neighbors.len(),
                ns == self.neighbors(),
                p == other_than(src@),
                self.node_id() == old(self).node_id(),
                self.neighbors == old(self).neighbors,
                self.messages == old(self).messages,
                last0 == old(self).last_id(),
                last0 + ns.filter(p).len() <= usize::MAX,
                out.len() == ns.take(i as int).filter(p).len(),
                out.len() <= i,
                self.last_id() == last0 + out.len(),
                forall|k: int| 0 <= k < out.len() ==> {
                    &&& (#[trigger] out[k]).src@ == old(self).node_id()
                    &&& out[k].dest@ == ns.take(i as int).filter(p)[k]
                    &&& out[k].dest@ != src@
                    &&& out[k].body == Request::Broadcast { message: *message, msg_id: (last0 + k + 1) as usize }
                },
            decreases self.neighbors.len() - i,
        {
            let ghost pre = ns.take(i as int);
            assert(ns.take(i as int + 1) =~= pre.push(ns[i as int]));
            proof {
                pre.lemma_filter_push(ns[i as int], p);
                ns.lemma_filter_take_len(p, i as int + 1);
            }
            let keep = !(self.neighbors[i] == *src);
            assert(p(ns[i as int]) == keep);
            if keep {
                let msg_id = self.id_generator.next_id();
                let m = Message {
                    src: self.node_id.clone(),
                    dest: self.neighbors[i].clone(),
                    body: Request::Broadcast { message: message.clone(), msg_id },
                };
                out.push(m);
            }
            i = i + 1;
        }
        assert(ns.take(i as int) =~= ns);
        out
    }

    /// Messages that pass `message` on to every neighbour, numbered with fresh ids.
    pub fn create_peer_messages(&mut self, message: &String) -> (r: Vec<Message<Request>>)
        requires
            old(self).last_id() + old(self).neighbors().len() <= usize::MAX,
        ensures
            final(self).node_id() == old(self).node_id(),
            final(self).neighbors() == old(self).neighbors(),
            final(self).messages() == old(self).messages(),
            final(self).wf() == old(self).wf(),
            r.len() == old(self).neighbors().len(),
            final(self).last_id() == old(self).last_id() + r.len(),
            forall|i: int| 0 <= i < r.len() ==> {
                &&& (#[trigger] r[i]).src@ == old(self).node_id()
                &&& r[i].dest@ == old(self).neighbors()[i]
                &&& r[i].body == Request::Broadcast { message: *message, msg_id: (old(self).last_id() + i + 1) as usize }
            },
    {
        let ghost last0 = self.last_id();
        let mut out: Vec<Message<Request>> = Vec::new();
        let mut i: usize = 0;
        while i < self.neighbors.len()
            invariant
                i <= self.neighbors.len(),
                self.node_id() == old(self).node_id(),
                self.neighbors == old(self).neighbors,
                self.messages == old(self).messages,
                last0 == old(self).last_id(),
                last0 + self.neighbors.len() <= usize::MAX,
                out.len() == i,
                self.last_id() == last0 + i,
                forall|k: int| 0 <= k < out.len() ==> {
                    &&& (#[trigger] out[k]).src@ == old(self).node_id()
                    &&& out[k].dest@ == old(self).neighbors()[k]
                    &&& out[k].body == Request::Broadcast { message: *message, msg_id: (last0 + k + 1) as usize }
                },
            decreases self.neighbors.len() - i,
        {
            let msg_id = self.id_generator.next_id();
            let m = Message {
                src: self.node_id.clone(),
                dest: self.neighbors[i].clone(),
                body: Request::Broadcast { message: message.clone(), msg_id },
            };
            out.push(m);
            i = i + 1;
        }
        out
    }

    /// Takes a broadcast value that came from `src`. A value the node has already is only
    /// acknowledged; a new one is kept and passed on to every neighbour but `src`.
    pub fn broadcast(&mut self, msg_id: usize, value: String, src: &String) -> (r: (Response, Vec<Message<Request>>))
        requires
            !old(self).messages().contains(value@)
                ==> old(self).last_id() + old(self).neighbors().filter(other_than(src@)).len() <= usize::MAX,
        ensures
            old(self).wf() ==> final(self).wf(),
            final(self).node_id() == old(self).node_id(),
            final(self).neighbors() == old(self).neighbors(),
            r.0 == (Response::BroadcastOk { in_reply_to: msg_id }),
            old(self).messages().contains(value@) ==> {
                &&& final(self).messages() == old(self).messages()
                &&& r.1.len() == 0
                &&& final(self).last_id() == old(self).last_id()
            },
            !old(self).messages().contains(value@) ==> {
                &&& final(self).messages() == old(self).messages().push(value@)
                &&& is_gossip(old(self).node_id(), old(self).neighbors(), old(self).last_id(), value, src@, r.1@)
                &&& final(self).last_id() == old(self).last_id() + r.1.len()
            },
    {
        if self.knows(&value) {
            return (Response::BroadcastOk { in_reply_to: msg_id }, Vec::new());
        }
        let ghost before = self.messages@;
        self.messages.push(value.clone());
        assert(self.messages() =~= old(self).messages().push(value@)) by {
            assert(self.messages@ =~= before.push(value));
        }
        let peers = self.create_filtered_peer_messages(&value, src);
        (Response::BroadcastOk { in_reply_to: msg_id }, peers)
    }

    /// Every value the node has.
    pub fn read(&self, msg_id: usize) -> (r: Response)
        ensures
            r matches Response::ReadOk { messages, in_reply_to } && in_reply_to == msg_id
                && texts(messages@) == self.messages(),
    {
        Response::ReadOk { messages: copy_texts(&self.messages), in_reply_to: msg_id }
    }

    /// Serves one request that came to this node.
    pub fn handle_request(&mut self, message: Message<Request>) -> (r: Handled)
        requires
            old(self).ids_suffice(message),
        ensures
            old(self).wf() ==> final(self).wf(),
            final(self).node_id() == old(self).node_id(),
            match message.body {
                Request::Topology { topology, msg_id } => {
                    &&& final(self).messages() == old(self).messages()
                    &&& final(self).last_id() == old(self).last_id()
                    &&& match neighbours_in(topology@, old(self).node_id()) {
                        Some(n) => final(self).neighbors() == n && (r matches Handled::Reply(m)
                            && m.src == message.dest && m.dest == message.src
                            && m.body == (Response::TopologyOk { in_reply_to: msg_id })),
                        None => r == Handled::Failed(NodeNotInTopology)
                            && final(self).neighbors() == old(self).neighbors(),
                    }
                },
                Request::Broadcast { message: value, msg_id } => {
                    &&& final(self).neighbors() == old(self).neighbors()
                    &&& r matches Handled::Gossip { reply, peers }
                    &&& reply.src == message.dest && reply.dest == message.src
                    &&& reply.body == (Response::BroadcastOk { in_reply_to: msg_id })
                    &&& old(self).messages().contains(value@) ==> {
                        &&& peers.len() == 0
                        &&& final(self).messages() == old(self).messages()
                        &&& final(self).last_id() == old(self).last_id()
                    }
                    &&& !old(self).messages().contains(value@) ==> {
                        &&& final(self).messages() == old(self).messages().push(value@)
                        &&& is_gossip(old(self).node_id(), old(self).neighbors(), old(self).last_id(), value, message.src@, peers@)
                        &&& final(self).last_id() == old(self).last_id() + peers.len()
                    }
                },
                Request::Read { msg_id } => {
                    &&& final(self).messages() == old(self).messages()
                    &&& final(self).neighbors() == old(self).neighbors()
                    &&& final(self).last_id() == old(self).last_id()
                    &&& r matches Handled::Reply(m)
                    &&& m.src == message.dest && m.dest == message.src
                    &&& m.body matches Response::ReadOk { messages, in_reply_to }
                    &&& in_reply_to == msg_id && texts(messages@) == old(self).messages()
                },
                Request::BroadcastOk { in_reply_to } => {
                    &&& r == Handled::Ack(message)
                    &&& final(self).messages() == old(self).messages()
                    &&& final(self).neighbors() == old(self).neighbors()
                    &&& final(self).last_id() == old(self).last_id()
                },
            },
    {
        let ghost request = message;
        let (envelope, body) = message.split();
        match body {
            Request::Topology { topology, msg_id } => match self.topology(topology, msg_id) {
                Ok(response) => Handled::Reply(envelope.into_reply().0.with_body(response)),
                Err(e) => Handled::Failed(e),
            },
            Request::Broadcast { message: value, msg_id } => {
                let (response, peers) = self.broadcast(msg_id, value, &envelope.src);
                Handled::Gossip { reply: envelope.into_reply().0.with_body(response), peers }
            },
            Request::Read { msg_id } => {
                let response = self.read(msg_id);
                Handled::Reply(envelope.into_reply().0.with_body(response))
            },
            Request::BroadcastOk { in_reply_to } => {
                let ack = envelope.with_body(Request::BroadcastOk { in_reply_to });
                assert(ack == request);
                Handled::Ack(ack)
            },
        }
    }
}

impl Node<()> for BroadcastNode {
    fn init(node_id: String, _node_ids: Vec<String>, _state: ()) -> (n: Self)
        ensures
            n.wf(),
            n.node_id() == node_id@,
            n.neighbors() == Seq::<Seq<char>>::empty(),
            n.messages() == Seq::<Seq<char>>::empty(),
            n.last_id() == 0,
    {
        BroadcastNode::new(node_id)
    }
}

} // verus!
