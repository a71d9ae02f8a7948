//! The dispatch queue: chunk handles wait here, in the order in which their
//! windows closed, until the translation worker takes them.

use std::collections::VecDeque;
use vstd::prelude::*;

verus! {

/// How long, in milliseconds, the worker waits for a handle before it reads
/// the lifecycle flag again.
pub const WORKER_POLL_MILLIS: u64 = 500;

/// A first-in, first-out queue.
pub struct DispatchQueue<T> {
    items: VecDeque<T>,
}

impl<T> View for DispatchQueue<T> {
    type V = Seq<T>;

    /// The waiting items, the oldest first.
    closed spec fn view(&self) -> Seq<T> {
        self.items@
    }
}

impl<T> DispatchQueue<T> {
    /// An empty queue.
    pub fn new() -> (queue: Self)
        ensures
            queue@ == Seq::<T>::empty(),
    {
        DispatchQueue { items: VecDeque::new() }
    }

    /// How many items wait.
    pub fn len(&self) -> (len: usize)
        ensures
            len == self@.len(),
    {
        self.items.len()
    }

    /// Whether nothing waits.
    pub fn is_empty(&self) -> (empty: bool)
        ensures
            empty == (self@.len() == 0),
    {
        self.items.len() == 0
    }

    /// Puts `item` behind everything that waits.
    pub fn push(&mut self, item: T)
        ensures
            final(self)@ == old(self)@.push(item),
    {
        self.items.push_back(item);
    }

    /// Takes the item that has waited longest, if any waits.
    pub fn pull(&mut self) -> (item: Option<T>)
        ensures
            old(self)@.len() == 0 ==> item is None && final(self)@ == old(self)@,
            old(self)@.len() > 0 ==> item == Some(old(self)@.first()) && final(self)@ == old(
                self,
            )@.drop_first(),
    {
        self.items.pop_front()
    }
}

/// Items leave in the order in which they came: an item that is pushed is
/// pulled only after everything that waited before it, and it is pulled at
/// once if nothing waited.
pub proof fn lemma_first_in_first_out<T>(waiting: Seq<T>, item: T)
    ensures
        waiting.push(item).first() == if waiting.len() > 0 {
            waiting.first()
        } else {
            item
        },
        waiting.push(item).drop_first() == if waiting.len() > 0 {
            waiting.drop_first().push(item)
        } else {
            Seq::empty()
        },
{
    if waiting.len() > 0 {
        assert(waiting.push(item).drop_first() =~= waiting.drop_first().push(item));
    } else {
        assert(waiting.push(item).drop_first() =~= Seq::<T>::empty());
    }
}

} // verus!
