//! The queue that hands frames from the producer to the consumer.

use std::collections::VecDeque;
use vstd::prelude::*;

verus! {

/// An unbounded first-in, first-out hand-off buffer between one producer and
/// one consumer. Elements leave in the order in which they arrived; `pop` is
/// the only way anything is removed.
pub struct FrameQueue<T> {
    frames: VecDeque<T>,
}

impl<T> View for FrameQueue<T> {
    type V = Seq<T>;

    /// The queued elements, oldest first.
    closed spec fn view(&self) -> Seq<T> {
        self.frames@
    }
}

impl<T> FrameQueue<T> {
    /// An empty queue.
    pub fn new() -> (queue: Self)
        ensures
            queue@ == Seq::<T>::empty(),
    {
        FrameQueue { frames: VecDeque::new() }
    }

    /// Appends `frame` at the back.
    pub fn push(&mut self, frame: T)
        ensures
            final(self)@ == old(self)@.push(frame),
    {
        self.frames.push_back(frame);
    }

    /// Removes and returns the oldest element, or `None` when the queue is
    /// empty. Never waits.
    pub fn pop(&mut self) -> (front: Option<T>)
        ensures
            old(self)@.len() == 0 ==> front is None && final(self)@ == old(self)@,
            old(self)@.len() > 0 ==> front == Some(old(self)@[0]) && final(self)@ == old(self)@.skip(1),
    {
        self.frames.pop_front()
    }

    /// The number of queued elements.
    pub fn len(&self) -> (n: usize)
        ensures
            n == self@.len(),
    {
        self.frames.len()
    }

    /// Whether nothing is queued.
    pub fn is_empty(&self) -> (empty: bool)
        ensures
            empty <==> self@.len() == 0,
    {
        self.frames.len() == 0
    }
}

/// One use of a queue: an element goes in, or the consumer asks for one.
pub enum QueueOp<T> {
    Push(T),
    Pop,
}

/// What a queue that started empty holds after `ops`, oldest first. A `Pop`
/// on an empty queue leaves it empty.
pub open spec fn queue_after<T>(ops: Seq<QueueOp<T>>) -> Seq<T>
    decreases ops.len(),
{
    if ops.len() == 0 {
        Seq::empty()
    } else {
        let before = queue_after(ops.drop_last());
        match ops.last() {
            QueueOp::Push(frame) => before.push(frame),
            QueueOp::Pop => if before.len() > 0 {
                before.skip(1)
            } else {
                before
            },
        }
    }
}

/// The elements that the `Pop`s among `ops` handed out, in the order in
/// which they were handed out. A `Pop` on an empty queue hands out nothing.
pub open spec fn popped<T>(ops: Seq<QueueOp<T>>) -> Seq<T>
    decreases ops.len(),
{
    if ops.len() == 0 {
        Seq::empty()
    } else {
        let before = queue_after(ops.drop_last());
        let earlier = popped(ops.drop_last());
        match ops.last() {
            QueueOp::Push(_) => earlier,
            QueueOp::Pop => if before.len() > 0 {
                earlier.push(before[0])
            } else {
                earlier
            },
        }
    }
}

/// The elements that the `Push`es among `ops` put in, in that order.
pub open spec fn pushed<T>(ops: Seq<QueueOp<T>>) -> Seq<T>
    decreases ops.len(),
{
    if ops.len() == 0 {
        Seq::empty()
    } else {
        let earlier = pushed(ops.drop_last());
        match ops.last() {
            QueueOp::Push(frame) => earlier.push(frame),
            QueueOp::Pop => earlier,
        }
    }
}

/// First in, first out: however pushes and pops alternate, what has been
/// popped so far, followed by what is still queued, is exactly what was
/// pushed, in the order in which it was pushed. Nothing is dropped, repeated
/// or reordered.
pub proof fn lemma_fifo_order<T>(ops: Seq<QueueOp<T>>)
    ensures
        popped(ops) + queue_after(ops) == pushed(ops),
    decreases ops.len(),
{
    if ops.len() > 0 {
        lemma_fifo_order(ops.drop_last());
    }
}

} // verus!
