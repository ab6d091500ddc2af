//! A fixed-size worker pool.
//!
//! A [`pool::ThreadPool`] owns the sending end of a shared dispatch queue.
//! Producers hand it units of work — values of a type implementing
//! [`message::Job`] — through [`pool::ThreadPool::execute`]; each unit is
//! wrapped in a control message, placed on the queue, and taken by exactly
//! one worker, which runs it exactly once. Teardown, through
//! [`pool::ThreadPool::shutdown`], offers the queue exactly one terminate
//! message per worker, so every worker's loop ends exactly once.
//!
//! A worker repeats [`worker::worker_step`]: take exclusive access to the
//! queue's shared receiving end, block until a message arrives, run the job
//! or stop on terminate. Thread creation and joining stand outside this
//! library: the embedder mounts one such loop per worker on a thread of its
//! own and joins those threads once `shutdown` has returned.
//!
//! The queue's sending end carries a ghost history of the labels of every
//! message the queue has accepted, in send order — the order it delivers in —
//! and only the trusted send extends it. The contracts are stated over that
//! history: every accepted submission adds exactly one run message, and
//! teardown adds one terminate message per worker and nothing else.

pub mod message;
pub mod pool;
pub mod queue;
pub mod worker;
