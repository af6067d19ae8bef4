//! The queue of pending reports.
//!
//! A `Buffer` is owned by one party at a time: whoever shares it between
//! tasks puts it behind a lock, so that each call below is one atomic step.

use std::collections::VecDeque;
use vstd::prelude::*;

verus! {

/// A first-in, first-out queue of pending items with a size threshold.
#[derive(Debug)]
pub struct Buffer<T> {
    max_size: usize,
    queue: VecDeque<T>,
}

impl<T> View for Buffer<T> {
    type V = Seq<T>;

    /// The pending items, oldest first.
    closed spec fn view(&self) -> Seq<T> {
        self.queue@
    }
}

impl<T> Buffer<T> {
    /// The number of pending items from which the buffer counts as full.
    pub closed spec fn threshold(&self) -> usize {
        self.max_size
    }

    /// An empty buffer that is full once it holds `max_size` items.
    pub fn new(max_size: usize) -> (buffer: Buffer<T>)
        ensures
            buffer@ == Seq::<T>::empty(),
            buffer.threshold() == max_size,
    {
        Buffer { max_size, queue: VecDeque::new() }
    }

    /// The number of pending items.
    pub fn len(&self) -> (n: usize)
        ensures
            n == self@.len(),
    {
        self.queue.len()
    }

    /// Appends an item and returns the number of pending items after it.
    pub fn push(&mut self, item: T) -> (size: usize)
        ensures
            final(self)@ == old(self)@.push(item),
            final(self)@ == step(old(self)@, BufferOp::Push(item)).0,
            final(self).threshold() == old(self).threshold(),
            size == old(self)@.len() + 1,
    {
        self.queue.push_back(item);
        self.queue.len()
    }

    /// Appends an item and says whether the buffer is full after it.
    pub fn add(&mut self, item: T) -> (full: bool)
        ensures
            final(self)@ == old(self)@.push(item),
            final(self)@ == step(old(self)@, BufferOp::Push(item)).0,
            final(self).threshold() == old(self).threshold(),
            full == (old(self)@.len() + 1 >= old(self).threshold()),
    {
        self.queue.push_back(item);
        self.queue.len() >= self.max_size
    }

    /// Removes all pending items and returns them, oldest first. The buffer
    /// gives up the memory that the items took.
    pub fn drain(&mut self) -> (drained: Vec<T>)
        ensures
            drained@ == old(self)@,
            final(self)@ == Seq::<T>::empty(),
            (final(self)@, drained@) == step(old(self)@, BufferOp::<T>::Drain),
            final(self).threshold() == old(self).threshold(),
    {
        let mut drained: Vec<T> = Vec::new();
        let ghost all = self.queue@;
        loop
            invariant
                self.max_size == old(self).max_size,
                all == old(self)@,
                drained@ + self.queue@ == all,
            ensures
                drained@ == all,
                self.queue@ == Seq::<T>::empty(),
                self.max_size == old(self).max_size,
            decreases self.queue@.len(),
        {
            let ghost before = self.queue@;
            let ghost taken = drained@;
            match self.queue.pop_front() {
                Some(item) => {
                    drained.push(item);
                    assert(drained@ + self.queue@ =~= taken + before);
                },
                None => {
                    assert(drained@ =~= drained@ + self.queue@);
                    break ;
                },
            }
        }
        // A fresh queue gives back what the drained one had allocated.
        self.queue = VecDeque::new();
        drained
    }
}

/// One step of a buffer's history.
pub enum BufferOp<T> {
    Push(T),
    Drain,
}

/// One step on the pending items: what is pending afterwards, and what the
/// step returns. This is what `push`, `add` and `drain` do.
pub open spec fn step<T>(pending: Seq<T>, op: BufferOp<T>) -> (Seq<T>, Seq<T>) {
    match op {
        BufferOp::Push(item) => (pending.push(item), Seq::empty()),
        BufferOp::Drain => (Seq::empty(), pending),
    }
}

/// The pending items after a history, starting from an empty buffer.
pub open spec fn pending_after<T>(history: Seq<BufferOp<T>>) -> Seq<T>
    decreases history.len(),
{
    if history.len() == 0 {
        Seq::empty()
    } else {
        step(pending_after(history.drop_last()), history.last()).0
    }
}

/// All that the drains of a history returned, in the order of return.
pub open spec fn drained_after<T>(history: Seq<BufferOp<T>>) -> Seq<T>
    decreases history.len(),
{
    if history.len() == 0 {
        Seq::empty()
    } else {
        drained_after(history.drop_last()) + step(
            pending_after(history.drop_last()),
            history.last(),
        ).1
    }
}

/// All the items that a history pushed, in push order.
pub open spec fn pushed_by<T>(history: Seq<BufferOp<T>>) -> Seq<T>
    decreases history.len(),
{
    if history.len() == 0 {
        Seq::empty()
    } else {
        match history.last() {
            BufferOp::Push(item) => pushed_by(history.drop_last()).push(item),
            BufferOp::Drain => pushed_by(history.drop_last()),
        }
    }
}

/// Whatever the interleaving of pushes and drains: what the drains returned,
/// followed by what is still pending, is exactly what was pushed, in push
/// order. So the drains return a prefix of the pushed sequence, and no item is
/// returned twice or lost.
pub proof fn lemma_drains_return_pushes_in_order<T>(history: Seq<BufferOp<T>>)
    ensures
        drained_after(history) + pending_after(history) == pushed_by(history),
        drained_after(history).is_prefix_of(pushed_by(history)),
    decreases history.len(),
{
    if history.len() > 0 {
        lemma_drains_return_pushes_in_order(history.drop_last());
        let before = history.drop_last();
        match history.last() {
            BufferOp::Push(item) => {
                assert(drained_after(history) + pending_after(history) =~= (drained_after(before)
                    + pending_after(before)).push(item));
            },
            BufferOp::Drain => {
                assert(drained_after(history) + pending_after(history) =~= drained_after(before)
                    + pending_after(before));
            },
        }
    }
    let d = drained_after(history);
    let all = pushed_by(history);
    assert(d =~= all.subrange(0, d.len() as int));
}

/// A drain returns what was pushed since the drain before it, and the next
/// drain starts behind it: two successive drains return adjoining, disjoint
/// stretches of the pushed sequence.
pub proof fn lemma_successive_drains_do_not_overlap<T>(
    history: Seq<BufferOp<T>>,
    later: Seq<T>,
)
    ensures
        ({
            let first = history.push(BufferOp::Drain);
            let second = push_all(first, later).push(BufferOp::Drain);
            &&& pending_after(first) == Seq::<T>::empty()
            &&& drained_after(first) == pushed_by(history)
            &&& drained_after(second) == pushed_by(history) + later
            &&& pushed_by(second) == pushed_by(history) + later
        }),
{
    let first = history.push(BufferOp::Drain);
    assert(first.drop_last() =~= history);
    lemma_drains_return_pushes_in_order(history);
    lemma_push_all(first, later);
    let mid = push_all(first, later);
    let second = mid.push(BufferOp::Drain);
    assert(second.drop_last() =~= mid);
    assert(drained_after(first) + (Seq::<T>::empty() + later) =~= pushed_by(history) + later);
    assert(Seq::<T>::empty() + later =~= later);
}

/// The history extended by one push for each of `items`, in order.
pub open spec fn push_all<T>(history: Seq<BufferOp<T>>, items: Seq<T>) -> Seq<BufferOp<T>>
    decreases items.len(),
{
    if items.len() == 0 {
        history
    } else {
        push_all(history, items.drop_last()).push(BufferOp::Push(items.last()))
    }
}

/// Pushes extend what is pending and what was pushed, and return nothing.
pub proof fn lemma_push_all<T>(history: Seq<BufferOp<T>>, items: Seq<T>)
    ensures
        pending_after(push_all(history, items)) == pending_after(history) + items,
        pushed_by(push_all(history, items)) == pushed_by(history) + items,
        drained_after(push_all(history, items)) == drained_after(history),
    decreases items.len(),
{
    if items.len() == 0 {
        assert(pending_after(history) + items =~= pending_after(history));
        assert(pushed_by(history) + items =~= pushed_by(history));
    } else {
        let front = items.drop_last();
        lemma_push_all(history, front);
        let extended = push_all(history, items);
        assert(extended.drop_last() =~= push_all(history, front));
        assert(pending_after(history) + items =~= (pending_after(history) + front).push(
            items.last(),
        ));
        assert(pushed_by(history) + items =~= (pushed_by(history) + front).push(items.last()));
    }
}

} // verus!
