//! Bounded queues of the `crossbeam-queue` crate.
use crossbeam_queue::ArrayQueue;
use vstd::prelude::*;

verus! {

/// `crossbeam_queue::ArrayQueue`: a bounded queue.
#[verifier::external_type_specification]
#[verifier::external_body]
#[verifier::reject_recursive_types(T)]
pub struct ExArrayQueue<T>(crossbeam_queue::ArrayQueue<T>);

/// The elements of a queue, the oldest first.
pub uninterp spec fn queue_items(q: ArrayQueue<u64>) -> Seq<u64>;

/// The number of elements that a queue can hold.
pub uninterp spec fn queue_capacity(q: ArrayQueue<u64>) -> nat;

/// `ArrayQueue::new`: an empty queue for `cap` elements. It panics on zero
/// and on capacities that are too large.
#[verifier::external_body]
pub(crate) fn queue_new(cap: usize) -> (q: ArrayQueue<u64>)
    requires
        0 < cap <= 0xFFFF,
    ensures
        queue_items(q).len() == 0,
        queue_capacity(q) == cap,
{
    ArrayQueue::new(cap)
}

/// `ArrayQueue::push`: appends the element, or hands it back where the queue
/// is full.
#[verifier::external_body]
pub(crate) fn queue_push(q: &mut ArrayQueue<u64>, value: u64) -> (r: Result<(), u64>)
    ensures
        queue_capacity(*final(q)) == queue_capacity(*old(q)),
        if queue_items(*old(q)).len() < queue_capacity(*old(q)) {
            r is Ok && queue_items(*final(q)) == queue_items(*old(q)).push(value)
        } else {
            r == Err::<(), u64>(value) && queue_items(*final(q)) == queue_items(*old(q))
        },
{
    q.push(value)
}

/// `ArrayQueue::pop`: takes out the oldest element, if there is any.
#[verifier::external_body]
pub(crate) fn queue_pop(q: &mut ArrayQueue<u64>) -> (r: Option<u64>)
    ensures
        queue_capacity(*final(q)) == queue_capacity(*old(q)),
        match r {
            Some(value) => {
                &&& queue_items(*old(q)).len() > 0
                &&& value == queue_items(*old(q))[0]
                &&& queue_items(*final(q)) == queue_items(*old(q)).skip(1)
            },
            None => queue_items(*old(q)).len() == 0 && queue_items(*final(q)) == queue_items(
                *old(q),
            ),
        },
{
    q.pop()
}

/// `ArrayQueue::len`: the number of elements.
#[verifier::external_body]
pub(crate) fn queue_len(q: &ArrayQueue<u64>) -> (n: usize)
    ensures
        n == queue_items(*q).len(),
{
    q.len()
}

} // verus!
