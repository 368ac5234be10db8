use vstd::prelude::*;

pub mod broadcast;
pub mod channel;
pub mod echo;
pub mod error;
pub mod event;
pub mod event_queue;
pub mod event_worker;
pub mod handler;
pub mod id_counter;
pub mod input;
pub mod maelstrom_service;
pub mod message;
pub mod new_event;
pub mod node;
pub mod node_handler;
pub mod resend;
pub mod server;
pub mod service;
pub mod table;
pub mod text;
pub mod txn_list_append;

verus! {

/// A node of the cluster, made from its own id, the ids of all nodes, and a state of its own.
pub trait Node<S = ()>: Sized {
    fn init(node_id: String, node_ids: Vec<String>, state: S) -> Self;
}

} // verus!
