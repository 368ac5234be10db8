use vstd::prelude::*;

use tokio::sync::mpsc::{UnboundedReceiver, UnboundedSender};
use tokio::sync::oneshot;

verus! {

#[verifier::external_type_specification]
#[verifier::external_body]
#[verifier::reject_recursive_types(T)]
pub struct ExUnboundedSender<T>(UnboundedSender<T>);

#[verifier::external_type_specification]
#[verifier::external_body]
#[verifier::reject_recursive_types(T)]
pub struct ExUnboundedReceiver<T>(UnboundedReceiver<T>);

#[verifier::external_type_specification]
#[verifier::external_body]
#[verifier::reject_recursive_types(T)]
pub struct ExOneshotSender<T>(oneshot::Sender<T>);

#[verifier::external_type_specification]
#[verifier::external_body]
#[verifier::reject_recursive_types(T)]
pub struct ExOneshotReceiver<T>(oneshot::Receiver<T>);

#[verifier::external_type_specification]
#[verifier::external_body]
pub struct ExOneshotRecvError(oneshot::error::RecvError);

/// Calls `tokio::sync::mpsc::unbounded_channel`: a fresh channel, nothing is claimed of it.
#[verifier::external_body]
pub(crate) fn unbounded_channel<T>() -> (UnboundedSender<T>, UnboundedReceiver<T>) {
    tokio::sync::mpsc::unbounded_channel()
}

/// Calls `UnboundedSender::send`; the result tells whether the receiver was still open,
/// which depends on the other end of the channel and is not stated.
#[verifier::external_body]
pub(crate) fn send_unbounded<T>(tx: &UnboundedSender<T>, value: T) -> bool {
    tx.send(value).is_ok()
}

/// Calls `UnboundedSender::is_closed`; whether the receiver is gone depends on the other end
/// of the channel and is not stated.
#[verifier::external_body]
pub(crate) fn unbounded_is_closed<T>(tx: &UnboundedSender<T>) -> bool {
    tx.is_closed()
}

/// Calls `tokio::sync::oneshot::channel`: a fresh channel, nothing is claimed of it.
#[verifier::external_body]
pub(crate) fn oneshot_channel<T>() -> (oneshot::Sender<T>, oneshot::Receiver<T>) {
    oneshot::channel()
}

/// Calls `oneshot::Sender::send`. Its documentation says that a failed send hands the value
/// back; whether the send fails depends on the receiver and is not stated.
#[verifier::external_body]
pub(crate) fn send_oneshot<T>(tx: oneshot::Sender<T>, value: T) -> (r: Result<(), T>)
    ensures
        r matches Err(v) ==> v == value,
{
    tx.send(value)
}

/// Whether `tx` and `rx` are the two ends of one channel that a call of `oneshot_channel` made.
pub closed spec fn oneshot_pair<X>(tx: oneshot::Sender<X>, rx: oneshot::Receiver<X>) -> bool {
    call_ensures(oneshot_channel::<X>, (), (tx, rx))
}

/// Whether `tx` and `rx` are the two ends of one channel that a call of `unbounded_channel`
/// made.
pub closed spec fn unbounded_pair<X>(tx: UnboundedSender<X>, rx: UnboundedReceiver<X>) -> bool {
    call_ensures(unbounded_channel::<X>, (), (tx, rx))
}

/// Whether a call of `send_unbounded` sent `value` on `tx` and returned `ok`.
pub closed spec fn sent_unbounded<X>(tx: UnboundedSender<X>, value: X, ok: bool) -> bool {
    call_ensures(send_unbounded::<X>, (&tx, value), ok)
}

/// Whether a call of `send_oneshot` sent `value` on `tx` and returned `r`.
pub closed spec fn sent_oneshot<X>(tx: oneshot::Sender<X>, value: X, r: Result<(), X>) -> bool {
    call_ensures(send_oneshot::<X>, (tx, value), r)
}

pub(crate) proof fn lemma_oneshot_pair<X>(tx: oneshot::Sender<X>, rx: oneshot::Receiver<X>)
    requires
        call_ensures(oneshot_channel::<X>, (), (tx, rx)),
    ensures
        oneshot_pair(tx, rx),
{
}

pub(crate) proof fn lemma_unbounded_pair<X>(tx: UnboundedSender<X>, rx: UnboundedReceiver<X>)
    requires
        call_ensures(unbounded_channel::<X>, (), (tx, rx)),
    ensures
        unbounded_pair(tx, rx),
{
}

pub(crate) proof fn lemma_sent_unbounded<X>(tx: &UnboundedSender<X>, value: X, ok: bool)
    requires
        call_ensures(send_unbounded::<X>, (tx, value), ok),
    ensures
        sent_unbounded(*tx, value, ok),
{
}

pub(crate) proof fn lemma_sent_oneshot<X>(tx: oneshot::Sender<X>, value: X, r: Result<(), X>)
    requires
        call_ensures(send_oneshot::<X>, (tx, value), r),
    ensures
        sent_oneshot(tx, value, r),
{
}

} // verus!
