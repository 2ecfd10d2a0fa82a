//! The queue of timer operations that wait to be processed.
//!
//! The operations wait in a [`concurrent_queue::ConcurrentQueue`]. Each function of this module
//! stands for one method of it, called with exclusive access to the queue; their contracts speak
//! of what the queue holds as a sequence, the oldest operation first.

use crate::timers::TimerOp;
use concurrent_queue::{ConcurrentQueue, PushError};
use vstd::prelude::*;

verus! {

/// The queue of the `concurrent-queue` crate, whose contents the names below give.
#[verifier::external_type_specification]
#[verifier::external_body]
#[verifier::reject_recursive_types(T)]
pub struct ExConcurrentQueue<T>(ConcurrentQueue<T>);

/// What the queue holds, the oldest operation first.
pub uninterp spec fn queued_ops(queue: ConcurrentQueue<TimerOp>) -> Seq<TimerOp>;

/// How many operations the queue was made to hold at most, if there is such a limit.
pub uninterp spec fn queue_limit(queue: ConcurrentQueue<TimerOp>) -> Option<usize>;

/// Whether the queue was closed: it then takes no more operations.
pub uninterp spec fn queue_closed(queue: ConcurrentQueue<TimerOp>) -> bool;

/// A queue with this limit that holds `len` operations takes another one.
pub open spec fn has_room(limit: Option<usize>, len: nat) -> bool {
    match limit {
        Some(limit) => len < limit,
        None => true,
    }
}

/// [`ConcurrentQueue::bounded`]: an open, empty queue that holds at most `limit` operations. It
/// panics on 0; limits beyond 65536, whose storage may not be had, are left out too.
#[verifier::external_body]
pub(crate) fn bounded_queue(limit: usize) -> (queue: ConcurrentQueue<TimerOp>)
    requires
        0 < limit <= 65536,
    ensures
        queued_ops(queue).len() == 0,
        queue_limit(queue) == Some(limit),
        !queue_closed(queue),
{
    ConcurrentQueue::bounded(limit)
}

/// [`ConcurrentQueue::push`] on an open queue: puts the operation last, or hands it back and
/// leaves the queue as it was, the latter exactly if the queue is full.
#[verifier::external_body]
pub(crate) fn push_op(queue: &mut ConcurrentQueue<TimerOp>, op: TimerOp) -> (pushed: Result<
    (),
    TimerOp,
>)
    requires
        !queue_closed(*old(queue)),
    ensures
        pushed is Ok <==> has_room(queue_limit(*old(queue)), queued_ops(*old(queue)).len()),
        pushed matches Err(back) ==> back == op,
        queued_ops(*final(queue)) == if pushed is Ok {
            queued_ops(*old(queue)).push(op)
        } else {
            queued_ops(*old(queue))
        },
        queue_limit(*final(queue)) == queue_limit(*old(queue)),
        !queue_closed(*final(queue)),
{
    match queue.push(op) {
        Ok(()) => Ok(()),
        Err(PushError::Full(back)) => Err(back),
        Err(PushError::Closed(back)) => Err(back),
    }
}

/// One step of [`ConcurrentQueue::try_iter`], which pops: takes the oldest operation off the
/// queue, if it holds any.
#[verifier::external_body]
pub(crate) fn pop_op(queue: &mut ConcurrentQueue<TimerOp>) -> (popped: Option<TimerOp>)
    ensures
        popped is None <==> queued_ops(*old(queue)).len() == 0,
        popped matches Some(op) ==> op == queued_ops(*old(queue))[0],
        queued_ops(*final(queue)) == if popped is Some {
            queued_ops(*old(queue)).drop_first()
        } else {
            queued_ops(*old(queue))
        },
        queue_limit(*final(queue)) == queue_limit(*old(queue)),
        queue_closed(*final(queue)) == queue_closed(*old(queue)),
{
    queue.try_iter().next()
}

/// [`ConcurrentQueue::capacity`]: the limit the queue was made with.
#[verifier::external_body]
pub(crate) fn queue_capacity(queue: &ConcurrentQueue<TimerOp>) -> (limit: Option<usize>)
    ensures
        limit == queue_limit(*queue),
{
    queue.capacity()
}

} // verus!
