//! The small first-in first-out queue through which the identification
//! procedure hands control requests to the motor task.

use vstd::prelude::*;

verus! {

/// How many requests can wait at once.
pub const CONTROL_REQUEST_CAPACITY: usize = 4;

/// A first-in first-out queue of at most `CONTROL_REQUEST_CAPACITY`
/// requests; a request pushed while the queue is full is dropped.
pub struct RequestQueue<T> {
    items: Vec<T>,
}

impl<T> RequestQueue<T> {
    #[verifier::type_invariant]
    spec fn bounded(self) -> bool {
        self.items@.len() <= CONTROL_REQUEST_CAPACITY
    }

    /// The waiting requests, oldest first.
    pub closed spec fn waiting(&self) -> Seq<T> {
        self.items@
    }

    pub fn new() -> (queue: Self)
        ensures
            queue.waiting() == Seq::<T>::empty(),
    {
        RequestQueue { items: Vec::new() }
    }

    /// Queues `request` behind the others, unless the queue is full.
    pub fn push(&mut self, request: T)
        ensures
            old(self).waiting().len() < CONTROL_REQUEST_CAPACITY ==> final(self).waiting() == old(
                self,
            ).waiting().push(request),
            old(self).waiting().len() >= CONTROL_REQUEST_CAPACITY ==> final(self).waiting()
                == old(self).waiting(),
            final(self).waiting().len() <= CONTROL_REQUEST_CAPACITY,
    {
        proof {
            use_type_invariant(&*self);
        }
        if self.items.len() < CONTROL_REQUEST_CAPACITY {
            let mut items = Vec::new();
            std::mem::swap(&mut items, &mut self.items);
            items.push(request);
            self.items = items;
        }
    }

    pub fn has_pending(&self) -> (pending: bool)
        ensures
            pending == (self.waiting().len() > 0),
    {
        self.items.len() > 0
    }

    /// Takes the oldest waiting request.
    pub fn pop(&mut self) -> (request: Option<T>)
        ensures
            old(self).waiting().len() > 0 ==> request == Some(old(self).waiting()[0])
                && final(self).waiting() == old(self).waiting().drop_first(),
            old(self).waiting().len() == 0 ==> request is None && final(self).waiting() == old(
                self,
            ).waiting(),
    {
        proof {
            use_type_invariant(&*self);
        }
        if self.items.len() == 0 {
            return None;
        }
        let mut items = Vec::new();
        std::mem::swap(&mut items, &mut self.items);
        let first = items.remove(0);
        self.items = items;
        assert(self.items@ =~= old(self).waiting().drop_first());
        Some(first)
    }
}

} // verus!
