//! The worker's behaviour: take the next control message from the shared
//! receiving end and act on it — run the job, or stop on terminate.
//!
//! A worker is a background thread that repeats [`worker_step`] until it
//! returns false. Thread creation and joining stand outside this library:
//! the embedder mounts one loop of `worker_step` per worker on a thread of
//! its own and joins those threads after [`crate::pool::ThreadPool::shutdown`].

use vstd::prelude::*;

use crate::message::Job;
use crate::message::Message;
use crate::message::MessageLabel;
use crate::queue::SharedReceiver;

verus! {

/// What a worker does with one dequeued message: on a run message it runs the
/// job — exactly once, consuming it — and stays in its loop; on terminate it
/// stops. Returns whether the worker keeps waiting for messages. The job's
/// side effects are its own and opaque here; a failure inside the job is not
/// caught or retried, it ends the worker abnormally.
pub fn on_message<J: Job>(m: Message<J>) -> (more: bool)
    ensures
        more == (m.label() == MessageLabel::Run),
{
    match m {
        Message::Run(job) => {
            job.run();
            true
        },
        Message::Terminate => false,
    }
}

/// One turn of a worker: block until a message is available on the shared
/// receiving end, take exactly that one message, and act on it through
/// [`on_message`]. Returns whether the worker keeps going; it also stops when
/// the queue is closed — every sending end gone and nothing left queued — for
/// then no terminate could ever arrive to end it. Which message arrives
/// depends on what the other workers have already taken, so nothing more is
/// promised here; what each possible message leads to is the contract of
/// [`on_message`].
pub fn worker_step<J: Job>(receiver: &SharedReceiver<J>) -> (more: bool) {
    match receiver.receive() {
        Option::Some(m) => on_message(m),
        Option::None => false,
    }
}

} // verus!
