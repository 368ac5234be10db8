use vstd::prelude::*;

use tokio::sync::oneshot;

use crate::error::{code_for, Error, ErrorCode};
use crate::message::Message;
use crate::service::event::{received_key, AsBodyId, BodyId, EventBroker, MessageId};
use crate::channel::{lemma_sent_oneshot, oneshot_pair, send_oneshot, sent_oneshot};
use crate::text::{decimal, usize_text};

verus! {

/// The name of Maelstrom's linearizable key-value service.
pub open spec fn lin_kv_name() -> Seq<char> {
    "lin-kv"@
}

/// The conversation under which the answer to a request numbered `msg_id` that `src` sent to
/// the key-value service is expected.
pub open spec fn lin_kv_key(src: Seq<char>, msg_id: usize) -> (Seq<char>, Seq<char>, Seq<char>) {
    (src, lin_kv_name(), decimal(msg_id as nat))
}

/// A client of Maelstrom's linearizable key-value service.
#[verifier::reject_recursive_types(T)]
pub struct LinKvClient<T> {
    src: String,
    event_broker: EventBroker<T>,
}

impl<T: AsBodyId> LinKvClient<T> {
    pub closed spec fn src(&self) -> Seq<char> {
        self.src@
    }

    pub closed spec fn broker(&self) -> EventBroker<T> {
        self.event_broker
    }

    pub fn new(src: String, event_broker: EventBroker<T>) -> (c: Self)
        ensures
            c.src() == src@,
            c.broker() == event_broker,
    {
        LinKvClient { src, event_broker }
    }

    /// A request to the key-value service numbered `msg_id`, and a receiver for its answer.
    fn send_request<K, V>(&mut self, body: LinKvOutput<K, V>, msg_id: usize) -> (r: (oneshot::Receiver<Message<T>>, Message<LinKvOutput<K, V>>))
        ensures
            final(self).src() == old(self).src(),
            final(self).broker().view().dom() == old(self).broker().view().dom().insert(
                lin_kv_key(old(self).src(), msg_id),
            ),
            oneshot_pair(final(self).broker().view()[lin_kv_key(old(self).src(), msg_id)], r.0),
            forall|k| k != lin_kv_key(old(self).src(), msg_id) && old(self).broker().view().contains_key(k)
                ==> final(self).broker().view()[k] == old(self).broker().view()[k],
            r.1.src@ == old(self).src(),
            r.1.dest@ == lin_kv_name(),
            r.1.body == body,
    {
        let message = Message { src: self.src.clone(), dest: String::from_str("lin-kv"), body };
        let id = MessageId {
            this: self.src.clone(),
            other: String::from_str("lin-kv"),
            id: BodyId(usize_text(msg_id)),
        };
        let rx = self.event_broker.subscribe_to_id(id);
        (rx, message)
    }

    /// The read request for `key`, numbered `msg_id`, and a receiver for its answer.
    pub fn send_read<K>(&mut self, key: K, msg_id: usize) -> (r: (oneshot::Receiver<Message<T>>, Message<LinKvOutput<K, ()>>))
        ensures
            final(self).src() == old(self).src(),
            final(self).broker().view().dom() == old(self).broker().view().dom().insert(
                lin_kv_key(old(self).src(), msg_id),
            ),
            oneshot_pair(final(self).broker().view()[lin_kv_key(old(self).src(), msg_id)], r.0),
            forall|k| k != lin_kv_key(old(self).src(), msg_id) && old(self).broker().view().contains_key(k)
                ==> final(self).broker().view()[k] == old(self).broker().view()[k],
            r.1.src@ == old(self).src(),
            r.1.dest@ == lin_kv_name(),
            r.1.body == (LinKvOutput::<K, ()>::Read { key, msg_id }),
    {
        self.send_request(LinKvOutput::Read { key, msg_id }, msg_id)
    }

    /// The request that sets `key` to `value`, numbered `msg_id`, and a receiver for its answer.
    pub fn send_write<K, V>(&mut self, key: K, value: V, msg_id: usize) -> (r: (oneshot::Receiver<Message<T>>, Message<LinKvOutput<K, V>>))
        ensures
            final(self).src() == old(self).src(),
            final(self).broker().view().dom() == old(self).broker().view().dom().insert(
                lin_kv_key(old(self).src(), msg_id),
            ),
            oneshot_pair(final(self).broker().view()[lin_kv_key(old(self).src(), msg_id)], r.0),
            forall|k| k != lin_kv_key(old(self).src(), msg_id) && old(self).broker().view().contains_key(k)
                ==> final(self).broker().view()[k] == old(self).broker().view()[k],
            r.1.src@ == old(self).src(),
            r.1.dest@ == lin_kv_name(),
            r.1.body == (LinKvOutput::<K, V>::Write { key, value, msg_id }),
    {
        self.send_request(LinKvOutput::Write { key, value, msg_id }, msg_id)
    }

    /// The request that sets `key` to `to` if it holds `from`, numbered `msg_id`, and a
    /// receiver for its answer.
    pub fn send_cas<K, V>(&mut self, key: K, from: V, to: V, msg_id: usize) -> (r: (oneshot::Receiver<Message<T>>, Message<LinKvOutput<K, V>>))
        ensures
            final(self).src() == old(self).src(),
            final(self).broker().view().dom() == old(self).broker().view().dom().insert(
                lin_kv_key(old(self).src(), msg_id),
            ),
            oneshot_pair(final(self).broker().view()[lin_kv_key(old(self).src(), msg_id)], r.0),
            forall|k| k != lin_kv_key(old(self).src(), msg_id) && old(self).broker().view().contains_key(k)
                ==> final(self).broker().view()[k] == old(self).broker().view()[k],
            r.1.src@ == old(self).src(),
            r.1.dest@ == lin_kv_name(),
            r.1.body == (LinKvOutput::<K, V>::Cas { key, from, to, msg_id }),
    {
        self.send_request(LinKvOutput::Cas { key, from, to, msg_id }, msg_id)
    }

    /// Decides where an answer of the key-value service goes: to the sender of the task that
    /// waits for it, which then waits no longer; the answer comes back when no task waits.
    pub fn route_answer(&mut self, message: Message<T>) -> (r: Result<(oneshot::Sender<Message<T>>, Message<T>), Message<T>>)
        ensures
            final(self).src() == old(self).src(),
            final(self).broker().view() == old(self).broker().view().remove(received_key(message)),
            r is Ok <==> old(self).broker().view().contains_key(received_key(message)),
            r matches Ok(p) ==> p.0 == old(self).broker().view()[received_key(message)] && p.1 == message,
            r matches Err(m) ==> m == message,
    {
        self.event_broker.route_received(message)
    }

    /// Hands an answer of the key-value service to the task that waits for it, as
    /// `route_answer` decides.
    pub fn handle_message(&mut self, message: Message<T>)
        ensures
            final(self).src() == old(self).src(),
            final(self).broker().view() == old(self).broker().view().remove(received_key(message)),
            old(self).broker().view().contains_key(received_key(message)) ==> exists|r: Result<(), Message<T>>|
                sent_oneshot(old(self).broker().view()[received_key(message)], message, r),
    {
        if let Ok((tx, message)) = self.route_answer(message) {
            let ghost sender = tx;
            let ghost sent = message;
            let r = send_oneshot(tx, message);
            proof {
                lemma_sent_oneshot(sender, sent, r);
            }
        }
    }
}

/// An answer of the key-value service that comes from it, to the client, under the number of a
/// read is filed under the conversation that the read waits on.
pub proof fn law_answer_reaches_read<T: AsBodyId>(src: Seq<char>, msg_id: usize, answer: Message<T>)
    requires
        answer.src@ == lin_kv_name(),
        answer.dest@ == src,
        answer.body.raw_id() == decimal(msg_id as nat),
    ensures
        received_key(answer) == lin_kv_key(src, msg_id),
{
}

/// What the key-value service answers.
#[derive(Debug, Clone)]
pub enum LinKvInput<T> {
    ReadOk { value: T, in_reply_to: usize },
    WriteOk { in_reply_to: usize },
    CasOk { in_reply_to: usize },
    Error { code: usize, text: String, in_reply_to: usize },
}

/// The number of the request that an answer of the key-value service answers.
pub open spec fn answered<T>(a: LinKvInput<T>) -> usize {
    match a {
        LinKvInput::ReadOk { in_reply_to, .. } => in_reply_to,
        LinKvInput::WriteOk { in_reply_to } => in_reply_to,
        LinKvInput::CasOk { in_reply_to } => in_reply_to,
        LinKvInput::Error { in_reply_to, .. } => in_reply_to,
    }
}

impl<T> AsBodyId for LinKvInput<T> {
    open spec fn raw_id(&self) -> Seq<char> {
        decimal(answered(*self) as nat)
    }

    fn as_raw_id(&self) -> (r: String) {
        let id = match self {
            LinKvInput::ReadOk { in_reply_to, .. } => *in_reply_to,
            LinKvInput::WriteOk { in_reply_to } => *in_reply_to,
            LinKvInput::CasOk { in_reply_to } => *in_reply_to,
            LinKvInput::Error { in_reply_to, .. } => *in_reply_to,
        };
        usize_text(id)
    }
}

/// What a read of the key-value service found.
#[derive(Debug)]
pub enum ReadOutcome<T> {
    Found(T),
    /// The key does not exist (error code 20).
    Missing,
    Failed(Error),
}

/// The error that an unexpected or failed answer stands for.
pub open spec fn answer_error<T>(a: LinKvInput<T>) -> (ErrorCode, Seq<char>, usize) {
    match a {
        LinKvInput::Error { code, text, in_reply_to } => (code_for(code), text@, in_reply_to),
        _ => (ErrorCode::Crash, Error::crash_text(), answered(a)),
    }
}

fn failure<T>(answer: LinKvInput<T>) -> (e: Error)
    ensures
        (e.spec_code(), e.spec_text(), e.spec_in_reply_to()) == answer_error(answer),
{
    match answer {
        LinKvInput::Error { code, text, in_reply_to } => Error::new(ErrorCode::from_code(code), text, in_reply_to),
        LinKvInput::ReadOk { in_reply_to, .. } => Error::crash(in_reply_to),
        LinKvInput::WriteOk { in_reply_to } => Error::crash(in_reply_to),
        LinKvInput::CasOk { in_reply_to } => Error::crash(in_reply_to),
    }
}

/// What the answer to a read means: the value found, a missing key (code 20), or an error;
/// an answer of another kind is a crash of the request it answers.
pub fn read_outcome<T>(answer: LinKvInput<T>) -> (r: ReadOutcome<T>)
    ensures
        match answer {
            LinKvInput::ReadOk { value, .. } => r == ReadOutcome::Found(value),
            LinKvInput::Error { code, .. } => if code == 20 {
                r is Missing
            } else {
                r matches ReadOutcome::Failed(e) && (e.spec_code(), e.spec_text(), e.spec_in_reply_to())
                    == answer_error(answer)
            },
            _ => r matches ReadOutcome::Failed(e) && (e.spec_code(), e.spec_text(), e.spec_in_reply_to())
                == answer_error(answer),
        },
{
    match answer {
        LinKvInput::ReadOk { value, .. } => ReadOutcome::Found(value),
        LinKvInput::Error { code: 20, .. } => ReadOutcome::Missing,
        other => ReadOutcome::Failed(failure(other)),
    }
}

/// What the answer to a write means: done, or an error.
pub fn write_outcome<T>(answer: LinKvInput<T>) -> (r: Result<(), Error>)
    ensures
        answer is WriteOk ==> r is Ok,
        !(answer is WriteOk) ==> (r matches Err(e) && (e.spec_code(), e.spec_text(), e.spec_in_reply_to())
            == answer_error(answer)),
{
    match answer {
        LinKvInput::WriteOk { .. } => Ok(()),
        other => Err(failure(other)),
    }
}

/// What the answer to a compare-and-set means: done, or an error.
pub fn cas_outcome<T>(answer: LinKvInput<T>) -> (r: Result<(), Error>)
    ensures
        answer is CasOk ==> r is Ok,
        !(answer is CasOk) ==> (r matches Err(e) && (e.spec_code(), e.spec_text(), e.spec_in_reply_to())
            == answer_error(answer)),
{
    match answer {
        LinKvInput::CasOk { .. } => Ok(()),
        other => Err(failure(other)),
    }
}

/// What a client asks the key-value service.
#[derive(Debug, Clone)]
pub enum LinKvOutput<K, V> {
    Read { key: K, msg_id: usize },
    Write { key: K, value: V, msg_id: usize },
    Cas { key: K, from: V, to: V, msg_id: usize },
}

} // verus!
