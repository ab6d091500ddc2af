//! Jobs and the control messages that carry them to the workers.

use vstd::prelude::*;

verus! {

/// A unit of deferred work: invoked exactly once, with no arguments and no
/// return value, on whichever worker thread dequeues it. A job owns all the
/// data it needs, so it can be moved to another thread; its side effects are
/// entirely its own business and opaque to the pool.
pub trait Job: Sized + Send + 'static {
    fn run(self);
}

/// A control message on the dispatch queue: either a job to run, or the
/// instruction to stop. Each message is delivered to exactly one worker.
pub enum Message<J> {
    /// Run this job, then go back to waiting.
    Run(J),
    /// Leave the worker loop; the thread becomes joinable.
    Terminate,
}

/// What a control message was, with the job payload forgotten. The pool's
/// ghost history of sent messages is a sequence of these labels.
pub enum MessageLabel {
    Run,
    Terminate,
}

impl<J> Message<J> {
    /// The label under which this message appears in the send history.
    pub open spec fn label(&self) -> MessageLabel {
        match self {
            Message::Run(_) => MessageLabel::Run,
            Message::Terminate => MessageLabel::Terminate,
        }
    }
}

/// The labels of the messages teardown sends: one terminate per worker.
pub open spec fn terminate_batch(n: nat) -> Seq<MessageLabel> {
    Seq::new(n, |i: int| MessageLabel::Terminate)
}

/// How many run messages a history holds: one per job the pool has accepted.
pub open spec fn run_count(s: Seq<MessageLabel>) -> nat
    decreases s.len(),
{
    if s.len() == 0 {
        0
    } else {
        run_count(s.drop_last()) + match s.last() {
            MessageLabel::Run => 1nat,
            MessageLabel::Terminate => 0nat,
        }
    }
}

/// The labels of `k` accepted jobs: one run message per submission, in
/// submission order.
pub open spec fn run_batch(k: nat) -> Seq<MessageLabel> {
    Seq::new(k, |i: int| MessageLabel::Run)
}

/// Teardown's batch holds exactly one terminate message per worker — never
/// more, never fewer — and nothing but terminate messages.
pub proof fn lemma_terminate_batch(n: nat)
    ensures
        terminate_batch(n).len() == n,
        forall|i: int| 0 <= i < n ==> terminate_batch(n)[i] == MessageLabel::Terminate,
{
}

/// Sending one more message adds one run to the history's run count when the
/// message is a run message, and nothing otherwise: no submitted job is
/// counted twice and none is dropped at the send side.
pub proof fn lemma_run_count_push(s: Seq<MessageLabel>, l: MessageLabel)
    ensures
        run_count(s.push(l)) == run_count(s) + match l {
            MessageLabel::Run => 1nat,
            MessageLabel::Terminate => 0nat,
        },
{
    assert(s.push(l).drop_last() =~= s);
}

/// The terminate batch that teardown appends adds no run message: teardown
/// neither duplicates nor invents a job.
pub proof fn lemma_run_count_terminate_batch(s: Seq<MessageLabel>, n: nat)
    ensures
        run_count(s + terminate_batch(n)) == run_count(s),
    decreases n,
{
    if n == 0 {
        assert(s + terminate_batch(0nat) =~= s);
    } else {
        let shorter = (n - 1) as nat;
        assert((s + terminate_batch(n)).drop_last() =~= s + terminate_batch(shorter));
        lemma_run_count_terminate_batch(s, shorter);
    }
}

/// A history of `k` run messages counts `k` jobs.
pub proof fn lemma_run_count_run_batch(k: nat)
    ensures
        run_count(run_batch(k)) == k,
    decreases k,
{
    if k > 0 {
        let shorter = (k - 1) as nat;
        assert(run_batch(k).drop_last() =~= run_batch(shorter));
        lemma_run_count_run_batch(shorter);
    }
}

/// For any `k` jobs submitted and a teardown of a pool of `n` workers, the
/// history — `k` run messages, in submission order, then `n` terminate
/// messages — accounts for each job exactly once: no job is dropped at the
/// send side, none is duplicated, and teardown adds no job.
pub proof fn lemma_each_job_sent_exactly_once(k: nat, n: nat)
    ensures
        run_count(run_batch(k) + terminate_batch(n)) == k,
{
    lemma_run_count_run_batch(k);
    lemma_run_count_terminate_batch(run_batch(k), n);
}

} // verus!
