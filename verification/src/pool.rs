//! The pool: owner of the dispatch queue's sending end and single entry point
//! for producers. Its contracts are stated over the send history that lives
//! with the sending end: the labels of every message the queue has accepted,
//! in send order, written only by the trusted send itself.

use vstd::prelude::*;

use crate::message::Job;
use crate::message::Message;
use crate::message::MessageLabel;
use crate::message::terminate_batch;
use crate::queue::MessageSender;
use crate::queue::SharedReceiver;
use crate::queue::dispatch_channel;

verus! {

/// A fixed-size worker pool's owning half: the sole sending end of the shared
/// dispatch queue — history included — and the number of workers the pool was
/// made for, fixed for its whole lifetime.
///
/// Producers submit work through [`ThreadPool::execute`]; each accepted
/// submission puts exactly one run message on the queue, and exactly one idle
/// worker will take and run it. [`ThreadPool::shutdown`] sends one terminate
/// message per worker, so every worker's loop ends exactly once; the embedder
/// then drops the pool and joins the worker threads it mounted.
#[verifier::reject_recursive_types(J)]
pub struct ThreadPool<J: Job> {
    sender: MessageSender<J>,
    size: usize,
}

impl<J: Job> ThreadPool<J> {
    /// The number of workers this pool was made for.
    pub closed spec fn size(&self) -> usize {
        self.size
    }

    /// The labels of the messages the queue has accepted from the pool so
    /// far, oldest first. The queue delivers them in exactly this order,
    /// each to exactly one worker.
    pub closed spec fn sent(&self) -> Seq<MessageLabel> {
        self.sender.sent()
    }

    /// Makes a pool for `size` workers, with a fresh, empty dispatch queue.
    /// Returns the pool and the queue's shared receiving end; the embedder
    /// mounts `size` worker loops on it, one thread each, every one idle
    /// until the first message arrives. A pool of no workers would swallow
    /// every job, so `size` zero is a construction error, excluded here
    /// before the code can run.
    pub fn new(size: usize) -> (r: (ThreadPool<J>, SharedReceiver<J>))
        requires
            size > 0,
        ensures
            r.0.size() == size,
            r.0.sent() == Seq::<MessageLabel>::empty(),
    {
        let (sender, receiver) = dispatch_channel::<J>();
        (ThreadPool { sender, size }, receiver)
    }

    /// The number of workers this pool was made for, as a value: the embedder
    /// mounts this many worker loops, and teardown sends this many terminate
    /// messages.
    pub fn worker_count(&self) -> (n: usize)
        ensures
            n == self.size(),
    {
        self.size
    }

    /// Submits a job: wraps it in a run message and hands it to the queue,
    /// fire and forget — the producer gets no handle to the job's outcome.
    /// True means the queue accepted it: exactly one run message joined the
    /// history, and exactly one worker will dequeue and run the job. False
    /// means every receiving end was already gone — a state the pool's
    /// correct use rules out while workers hold receivers, surfaced as a
    /// value because a verified function cannot panic — and the job was
    /// dropped undelivered, the history unchanged. Submissions go through
    /// one exclusive reference to the pool, so producers on other threads
    /// hand their jobs to whoever owns it; the pool does not model
    /// concurrent senders.
    pub fn execute(&mut self, job: J) -> (accepted: bool)
        ensures
            final(self).size() == old(self).size(),
            accepted ==> final(self).sent() == old(self).sent().push(MessageLabel::Run),
            !accepted ==> final(self).sent() == old(self).sent(),
    {
        self.sender.send(Message::Run(job))
    }

    /// Tears the pool down: offers the queue exactly one terminate message
    /// per worker — never more. Each accepted terminate is dequeued by
    /// exactly one worker, after the jobs sent before it; that worker ends
    /// its loop and becomes joinable, and the embedder joins the threads it
    /// mounted once it has let go of the pool — dropping the pool releases
    /// the sending end and closes the queue. Returns how many terminates the
    /// queue accepted: the worker count, unless every receiving end was
    /// already gone — those all stand at the history's end. Afterwards the
    /// pool stands empty: no worker is left to stop, and tearing it down
    /// again sends nothing.
    pub fn shutdown(&mut self) -> (accepted: usize)
        ensures
            accepted <= old(self).size(),
            final(self).sent() == old(self).sent() + terminate_batch(accepted as nat),
            final(self).size() == 0,
    {
        let ghost start = self.sender.sent();
        let size = self.size;
        let mut accepted: usize = 0;
        let mut i: usize = 0;
        while i < size
            invariant
                i <= size,
                accepted <= i,
                self.sender.sent() =~= start + terminate_batch(accepted as nat),
            decreases size - i,
        {
            if self.sender.send(Message::Terminate) {
                accepted = accepted + 1;
            }
            i = i + 1;
        }
        self.size = 0;
        accepted
    }
}

} // verus!
