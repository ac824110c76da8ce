//! The unbounded first-in first-out queue that the scheduler keeps its tasks
//! and its parked workers in.

use vstd::prelude::*;

verus! {

#[verifier::external_type_specification]
#[verifier::external_body]
#[verifier::reject_recursive_types(T)]
pub struct ExSegQueue<T>(crossbeam_queue::SegQueue<T>);

/// The items that a queue holds, the oldest first.
pub uninterp spec fn queue_items(q: crossbeam_queue::SegQueue<usize>) -> Seq<usize>;

/// An operation on a queue, as it occurs in a history of the queue.
#[derive(Clone, Copy, Debug, PartialEq, Eq, Structural)]
pub enum QueueOp {
    /// An item is pushed.
    Push(usize),
    /// The queue is asked for its oldest item.
    Pop,
}

/// The item that a pop finds: the oldest, if the queue holds any.
pub open spec fn queue_front(items: Seq<usize>) -> Option<usize> {
    if items.len() > 0 {
        Some(items[0])
    } else {
        None
    }
}

/// The items that an operation leaves in the queue.
pub open spec fn queue_next(items: Seq<usize>, op: QueueOp) -> Seq<usize> {
    match op {
        QueueOp::Push(item) => items.push(item),
        QueueOp::Pop => if items.len() > 0 {
            items.drop_first()
        } else {
            items
        },
    }
}

/// The items of a queue that started empty and went through `ops`.
pub open spec fn queue_run(ops: Seq<QueueOp>) -> Seq<usize>
    decreases ops.len(),
{
    if ops.len() == 0 {
        Seq::empty()
    } else {
        queue_next(queue_run(ops.drop_last()), ops.last())
    }
}

/// The items that the history pushed, in the order of the pushes.
pub open spec fn pushed(ops: Seq<QueueOp>) -> Seq<usize>
    decreases ops.len(),
{
    if ops.len() == 0 {
        Seq::empty()
    } else {
        match ops.last() {
            QueueOp::Push(item) => pushed(ops.drop_last()).push(item),
            QueueOp::Pop => pushed(ops.drop_last()),
        }
    }
}

/// The items that the history popped, in the order of the pops.
pub open spec fn popped(ops: Seq<QueueOp>) -> Seq<usize>
    decreases ops.len(),
{
    if ops.len() == 0 {
        Seq::empty()
    } else {
        match (ops.last(), queue_front(queue_run(ops.drop_last()))) {
            (QueueOp::Pop, Some(item)) => popped(ops.drop_last()).push(item),
            _ => popped(ops.drop_last()),
        }
    }
}

/// The queue is first-in first-out: the items come out in the order in which
/// they went in. What was popped so far, followed by what the queue still
/// holds, is what was pushed.
pub proof fn queue_is_fifo(ops: Seq<QueueOp>)
    ensures
        pushed(ops) == popped(ops) + queue_run(ops),
    decreases ops.len(),
{
    if ops.len() == 0 {
        assert(pushed(ops) =~= popped(ops) + queue_run(ops));
    } else {
        let front = ops.drop_last();
        queue_is_fifo(front);
        let before = queue_run(front);
        match ops.last() {
            QueueOp::Push(item) => {
                assert(pushed(front).push(item) =~= popped(front) + before.push(item));
            },
            QueueOp::Pop => {
                if before.len() > 0 {
                    assert(pushed(front) =~= popped(front).push(before[0]) + before.drop_first());
                }
            },
        }
    }
}

/// Of two items of one producer, the one pushed first is popped first: the
/// `n`-th pop that finds an item gets the `n`-th item pushed.
pub proof fn pop_order_is_push_order(ops: Seq<QueueOp>, n: int)
    requires
        0 <= n < popped(ops).len(),
    ensures
        n < pushed(ops).len(),
        popped(ops)[n] == pushed(ops)[n],
{
    queue_is_fifo(ops);
}

/// `SegQueue::new`: the new queue holds nothing.
#[verifier::external_body]
pub(crate) fn queue_new() -> (q: crossbeam_queue::SegQueue<usize>)
    ensures
        queue_items(q) == Seq::<usize>::empty(),
{
    crossbeam_queue::SegQueue::new()
}

/// `SegQueue::push`: the item is added behind all the items that the queue
/// holds; these stay, in their order.
#[verifier::external_body]
pub(crate) fn queue_push(q: &mut crossbeam_queue::SegQueue<usize>, item: usize)
    ensures
        queue_items(*final(q)) == queue_next(queue_items(*old(q)), QueueOp::Push(item)),
{
    q.push(item)
}

/// `SegQueue::pop`: an empty queue gives `None` and stays as it is; any other
/// gives its oldest item, which leaves the queue, the rest staying in order.
#[verifier::external_body]
pub(crate) fn queue_pop(q: &mut crossbeam_queue::SegQueue<usize>) -> (item: Option<usize>)
    ensures
        item == queue_front(queue_items(*old(q))),
        queue_items(*final(q)) == queue_next(queue_items(*old(q)), QueueOp::Pop),
{
    q.pop()
}

} // verus!
