//! The shared dispatch queue: a first-in-first-out channel of control
//! messages. The sending end is owned by the pool alone; the single receiving
//! end sits behind a mutual-exclusion lock and is shared by handle among all
//! workers, so messages arrive in send order and each message is taken by
//! exactly one worker — competing consumers, not broadcast.
//!
//! The channel and the lock are std's and are taken on trust through the
//! declaration and wrappers below. The send history the pool's contracts
//! speak of lives in [`MessageSender`], and only its trusted `send` extends
//! it: a label joins the history exactly when the queue accepts a message.

use vstd::prelude::*;

use crate::message::Message;
use crate::message::MessageLabel;

verus! {

#[verifier::external_type_specification]
#[verifier::external_body]
#[verifier::reject_recursive_types(T)]
pub struct ExSender<T>(std::sync::mpsc::Sender<T>);

/// The queue's sole sending end, carrying the ghost history of every message
/// the queue has accepted from it, in send order. Both fields are private to
/// this module, so nothing outside it can touch the history; the only writer
/// is the trusted [`MessageSender::send`], whose contract appends one label
/// exactly when the queue accepts the message.
#[verifier::reject_recursive_types(J)]
pub struct MessageSender<J> {
    tx: std::sync::mpsc::Sender<Message<J>>,
    history: Ghost<Seq<MessageLabel>>,
}

impl<J> MessageSender<J> {
    /// The labels of the messages the queue has accepted from this sending
    /// end so far, oldest first: the order they will be delivered in.
    pub closed spec fn sent(&self) -> Seq<MessageLabel> {
        self.history@
    }

    /// Relies on std::sync::mpsc::Sender::send: the queue accepts the message
    /// — appending it behind everything sent before, to be delivered to
    /// exactly one receiving call — and send returns Ok, unless every
    /// receiving end is gone, in which case nothing is enqueued and the
    /// message comes back inside the error. True means accepted; only then
    /// does the message's label join the history.
    #[verifier::external_body]
    pub(crate) fn send(&mut self, m: Message<J>) -> (accepted: bool)
        ensures
            accepted ==> final(self).sent() == old(self).sent().push(m.label()),
            !accepted ==> final(self).sent() == old(self).sent(),
    {
        self.tx.send(m).is_ok()
    }
}

/// The receiving end of the dispatch queue, shared among the workers: a
/// reference-counted handle on the channel's single receiver behind a
/// mutual-exclusion lock, so only one worker at a time can wait for the next
/// message. The handle is opaque here; both its operations are trusted
/// wrappers.
#[verifier::external_body]
#[verifier::reject_recursive_types(J)]
pub struct SharedReceiver<J> {
    inner: std::sync::Arc<std::sync::Mutex<std::sync::mpsc::Receiver<Message<J>>>>,
}

impl<J> SharedReceiver<J> {
    /// Another handle on the same shared receiving end, competing for the
    /// same messages: the embedder takes one per worker it mounts.
    pub fn share(&self) -> (r: SharedReceiver<J>) {
        self.duplicate()
    }

    /// Relies on std::sync::Mutex::lock and std::sync::mpsc::Receiver::recv:
    /// takes exclusive access to the shared receiving end, blocks until a
    /// message is available, and returns that one message, removed from the
    /// queue, to this caller alone; messages come out in send order. Returns
    /// None once every sending end is gone and the queue is drained — after
    /// that no message can ever arrive. A poisoned lock is taken over rather
    /// than propagated; the guard never outlives this call, so no job ever
    /// runs while the lock is held.
    #[verifier::external_body]
    pub(crate) fn receive(&self) -> (m: Option<Message<J>>) {
        let guard = match self.inner.lock() {
            Ok(guard) => guard,
            Err(poisoned) => poisoned.into_inner(),
        };
        guard.recv().ok()
    }

    /// Relies on std::sync::Arc::clone: another handle on the same shared
    /// receiving end, competing for the same messages.
    #[verifier::external_body]
    pub(crate) fn duplicate(&self) -> (r: SharedReceiver<J>) {
        SharedReceiver { inner: std::sync::Arc::clone(&self.inner) }
    }
}

/// Relies on std::sync::mpsc::channel, std::sync::Arc::new and
/// std::sync::Mutex::new: a fresh, empty, unbounded first-in-first-out queue;
/// its sole sending end, bare, and its sole receiving end already wrapped for
/// sharing among the workers.
#[verifier::external_body]
fn mpsc_ends<J>() -> (ends: (
    std::sync::mpsc::Sender<Message<J>>,
    SharedReceiver<J>,
))
{
    let (tx, rx) = std::sync::mpsc::channel();
    (tx, SharedReceiver { inner: std::sync::Arc::new(std::sync::Mutex::new(rx)) })
}

/// A fresh dispatch queue: the sending end, wrapped with the empty history —
/// nothing has been sent on a channel that was just made — and the shared
/// receiving end.
pub(crate) fn dispatch_channel<J>() -> (ends: (MessageSender<J>, SharedReceiver<J>))
    ensures
        ends.0.sent() == Seq::<MessageLabel>::empty(),
{
    let (tx, receiver) = mpsc_ends::<J>();
    (MessageSender { tx, history: Ghost(Seq::empty()) }, receiver)
}

} // verus!
