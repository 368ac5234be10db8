use vstd::prelude::*;

use crate::id_counter::SeqIdCounter;
use crate::maelstrom_service::lin_kv::LinKvInput;
use crate::message::Message;
use crate::service::event::AsBodyId;
use crate::table::Table;
use crate::text::{copy_texts, decimal, texts, usize_text};
use crate::Node;

verus! {

/// The tag of a read operation.
#[derive(Debug, Clone, Copy, PartialEq, Eq)]
pub enum R {
    R,
}

/// The tag of an append operation.
#[derive(Debug, Clone, Copy, PartialEq, Eq)]
pub enum Append {
    Append,
}

/// An operation of a transaction on lists of values. Keys and values are carried as their JSON
/// text; a read carries the list it saw once it ran.
#[derive(Debug, Clone, PartialEq, Eq)]
pub enum Txn {
    Read(R, String, Option<Vec<String>>),
    Append(Append, String, String),
}

/// An operation with its texts.
pub enum Op {
    Read(Seq<char>, Option<Seq<Seq<char>>>),
    Append(Seq<char>, Seq<char>),
}

pub open spec fn op_of(t: Txn) -> Op {
    match t {
        Txn::Read(_, k, None) => Op::Read(k@, None),
        Txn::Read(_, k, Some(v)) => Op::Read(k@, Some(texts(v@))),
        Txn::Append(_, k, v) => Op::Append(k@, v@),
    }
}

pub open spec fn ops_of(ts: Seq<Txn>) -> Seq<Op> {
    ts.map_values(|t: Txn| op_of(t))
}

/// The lists of a store, by key.
pub type Lists = Map<Seq<char>, Seq<Seq<char>>>;

/// The list of a key; a key never written to has the empty list.
pub open spec fn list_of(tree: Lists, k: Seq<char>) -> Seq<Seq<char>> {
    if tree.contains_key(k) {
        tree[k]
    } else {
        Seq::empty()
    }
}

/// One operation: a read sees the list of its key (and leaves the key with that list), an
/// append puts its value at the end of the list of its key.
pub open spec fn step(tree: Lists, op: Op) -> (Lists, Op) {
    match op {
        Op::Read(k, _) => (tree.insert(k, list_of(tree, k)), Op::Read(k, Some(list_of(tree, k)))),
        Op::Append(k, v) => (tree.insert(k, list_of(tree, k).push(v)), Op::Append(k, v)),
    }
}

/// The operations run one after the other: the store after them and what they saw.
pub open spec fn run(tree: Lists, ops: Seq<Op>) -> (Lists, Seq<Op>)
    decreases ops.len(),
{
    if ops.len() == 0 {
        (tree, Seq::empty())
    } else {
        let (t, seen) = run(tree, ops.drop_last());
        let (t2, last) = step(t, ops.last());
        (t2, seen.push(last))
    }
}

/// A read that follows an append to the same key sees the list that ends with the appended
/// value.
pub proof fn law_read_sees_own_append(tree: Lists, ops: Seq<Op>, k: Seq<char>, v: Seq<char>, seen: Option<Seq<Seq<char>>>)
    ensures
        ({
            let before = run(tree, ops).0;
            let all = ops.push(Op::Append(k, v)).push(Op::Read(k, seen));
            run(tree, all).1.last() == Op::Read(k, Some(list_of(before, k).push(v)))
        }),
{
    let all = ops.push(Op::Append(k, v)).push(Op::Read(k, seen));
    let mid = ops.push(Op::Append(k, v));
    assert(all.drop_last() =~= mid);
    assert(mid.drop_last() =~= ops);
    let before = run(tree, ops).0;
    let t1 = before.insert(k, list_of(before, k).push(v));
    assert(run(tree, mid).0 == t1);
    assert(list_of(t1, k) == list_of(before, k).push(v));
}

/// Running operations never takes a value out of a list: each list before is a prefix of
/// the list after.
pub proof fn law_lists_only_grow(tree: Lists, ops: Seq<Op>, k: Seq<char>)
    ensures
        list_of(tree, k).len() <= list_of(run(tree, ops).0, k).len(),
        list_of(tree, k) == list_of(run(tree, ops).0, k).take(list_of(tree, k).len() as int),
    decreases ops.len(),
{
    if ops.len() > 0 {
        law_lists_only_grow(tree, ops.drop_last(), k);
        let t = run(tree, ops.drop_last()).0;
        let after = run(tree, ops).0;
        match ops.last() {
            Op::Read(_, _) => {},
            Op::Append(key, v) => {
                if key == k {
                    assert(list_of(after, k) == list_of(t, k).push(v));
                    assert(list_of(after, k).take(list_of(tree, k).len() as int)
                        =~= list_of(t, k).take(list_of(tree, k).len() as int));
                }
            },
        }
    }
}

/// The lists of a store held in a table, by their texts.
pub open spec fn lists_of(tree: Table<String, Vec<String>>) -> Lists {
    tree.view().map_values(|v: Vec<String>| texts(v@))
}

/// Runs a transaction on a store of lists, and gives each operation with what it saw.
pub fn apply_txn(tree: &mut Table<String, Vec<String>>, txn: Vec<Txn>) -> (r: Vec<Txn>)
    ensures
        (lists_of(*final(tree)), ops_of(r@)) == run(lists_of(*old(tree)), ops_of(txn@)),
{
    let ghost ops = ops_of(txn@);
    let ghost start = lists_of(*tree);
    let n = txn.len();
    let mut rest = txn;
    let mut out: Vec<Txn> = Vec::new();
    let mut i: usize = 0;
    while rest.len() > 0
        invariant
            n == ops.len(),
            i + rest.len() == n,
            ops_of(rest@) == ops.skip(i as int),
            (lists_of(*tree), ops_of(out@)) == run(start, ops.take(i as int)),
        decreases rest.len(),
    {
        let ghost before = rest@;
        let t = rest.remove(0);
        proof {
            assert(op_of(t) == ops_of(before)[0]);
            assert(rest@ =~= before.drop_first());
            assert(ops_of(rest@) =~= ops_of(before).drop_first());
            assert(ops_of(rest@) =~= ops.skip(i as int + 1));
            assert(ops.take(i as int + 1).drop_last() =~= ops.take(i as int));
            assert(ops.take(i as int + 1).last() == op_of(t));
        }
        let ghost lists = lists_of(*tree);
        match t {
            Txn::Read(r, key, _) => {
                let values = match tree.remove(&key) {
                    Some(v) => v,
                    None => Vec::new(),
                };
                proof {
                    assert(texts(values@) == list_of(lists, key@));
                }
                let seen = copy_texts(&values);
                let _ = tree.insert(key.clone(), values);
                proof {
                    assert(lists_of(*tree) =~= lists.insert(key@, list_of(lists, key@)));
                }
                let ghost out_before = out@;
                out.push(Txn::Read(r, key, Some(seen)));
                proof {
                    assert(ops_of(out@) =~= ops_of(out_before).push(Op::Read(key@, Some(list_of(lists, key@)))));
                }
            },
            Txn::Append(a, key, value) => {
                let mut values = match tree.remove(&key) {
                    Some(v) => v,
                    None => Vec::new(),
                };
                proof {
                    assert(texts(values@) == list_of(lists, key@));
                }
                values.push(value.clone());
                proof {
                    assert(texts(values@) =~= list_of(lists, key@).push(value@));
                }
                let _ = tree.insert(key.clone(), values);
                proof {
                    assert(lists_of(*tree) =~= lists.insert(key@, list_of(lists, key@).push(value@)));
                }
                let ghost out_before = out@;
                out.push(Txn::Append(a, key, value));
                proof {
                    assert(ops_of(out@) =~= ops_of(out_before).push(Op::Append(key@, value@)));
                }
            },
        }
        i = i + 1;
    }
    assert(ops.take(n as int) =~= ops);
    out
}

/// A request of the transaction workload.
#[derive(Debug, Clone, PartialEq, Eq)]
pub enum Input {
    Txn { msg_id: usize, txn: Vec<Txn> },
}

impl AsBodyId for Input {
    open spec fn raw_id(&self) -> Seq<char> {
        decimal(self->Txn_msg_id as nat)
    }

    fn as_raw_id(&self) -> (r: String) {
        match self {
            Input::Txn { msg_id, .. } => usize_text(*msg_id),
        }
    }
}

/// The answer to a transaction.
#[derive(Debug, Clone, PartialEq, Eq)]
pub enum Output {
    TxnOk { in_reply_to: usize, txn: Vec<Txn> },
}

/// What a node of the transaction workload reads: a transaction, or an answer of the
/// key-value service that holds the store.
#[derive(Debug)]
pub enum Inputs<L> {
    Txn(Input),
    LinKv(LinKvInput<L>),
}

/// Sends transactions to the node and answers of the key-value service to its client.
#[derive(Debug, Clone)]
pub struct RoutingLayer<T, C> {
    pub txn: T,
    pub lin_kv: C,
}

/// Where a message goes.
#[derive(Debug)]
pub enum Routed<L> {
    Txn(Message<Input>),
    LinKv(Message<LinKvInput<L>>),
}

impl<T, C> RoutingLayer<T, C> {
    pub fn route<L>(request: Message<Inputs<L>>) -> (r: Routed<L>)
        ensures
            match request.body {
                Inputs::Txn(b) => r matches Routed::Txn(m) && m.src == request.src && m.dest == request.dest && m.body == b,
                Inputs::LinKv(b) => r matches Routed::LinKv(m) && m.src == request.src && m.dest == request.dest && m.body == b,
            },
    {
        let (msg, body) = request.split();
        match body {
            Inputs::Txn(body) => Routed::Txn(msg.with_body(body)),
            Inputs::LinKv(body) => Routed::LinKv(msg.with_body(body)),
        }
    }
}

/// A node of the transaction workload.
#[derive(Debug)]
pub struct TxnListAppendNode {
    node_id: String,
    id_counter: SeqIdCounter,
}

impl TxnListAppendNode {
    pub closed spec fn node_id(&self) -> Seq<char> {
        self.node_id@
    }

    pub fn new(node_id: String) -> (n: Self)
        ensures
            n.node_id() == node_id@,
    {
        TxnListAppendNode { node_id, id_counter: SeqIdCounter::new() }
    }

    /// Runs the transaction of a request on the store and answers the sender with what each
    /// operation saw.
    pub fn handle_message(&self, message: Message<Input>, tree: &mut Table<String, Vec<String>>) -> (r: Message<Output>)
        ensures
            r.src == message.dest,
            r.dest == message.src,
            r.body->TxnOk_in_reply_to == message.body->Txn_msg_id,
            (lists_of(*final(tree)), ops_of(r.body->TxnOk_txn@))
                == run(lists_of(*old(tree)), ops_of(message.body->Txn_txn@)),
    {
        let (reply, body) = message.into_reply();
        match body {
            Input::Txn { msg_id, txn } => {
                let txn = apply_txn(tree, txn);
                reply.with_body(Output::TxnOk { in_reply_to: msg_id, txn })
            },
        }
    }
}

impl Node<()> for TxnListAppendNode {
    fn init(node_id: String, _node_ids: Vec<String>, _state: ()) -> (n: Self)
        ensures
            n.node_id() == node_id@,
    {
        TxnListAppendNode::new(node_id)
    }
}

} // verus!
