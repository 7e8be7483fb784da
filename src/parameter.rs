//! The bounded queue that carries parameter updates into a running graph.

use vstd::prelude::*;

verus! {

/// The number of updates a stream's queue holds before `set` reports
/// saturation.
pub const PARAMETER_QUEUE_CAPACITY: usize = 64;

/// Errors of the parameter channel.
#[derive(Debug, Clone, Copy, PartialEq, Eq, Structural)]
pub enum ChannelSaturated {
    /// The queue already holds as many updates as its capacity allows.
    Full,
}

/// A bounded first-in first-out queue of `(tag, value)` parameter updates.
pub struct ParameterQueue<V> {
    updates: std::collections::VecDeque<(u64, V)>,
    capacity: usize,
}

impl<V> View for ParameterQueue<V> {
    type V = Seq<(u64, V)>;

    closed spec fn view(&self) -> Seq<(u64, V)> {
        self.updates@
    }
}

impl<V> ParameterQueue<V> {
    /// The number of updates the queue can hold.
    pub closed spec fn spec_capacity(&self) -> nat {
        self.capacity as nat
    }

    /// An empty queue that holds at most `capacity` updates.
    pub fn new(capacity: usize) -> (r: Self)
        ensures
            r@ == Seq::<(u64, V)>::empty(),
            r.spec_capacity() == capacity,
    {
        ParameterQueue { updates: std::collections::VecDeque::new(), capacity }
    }

    /// The number of updates waiting.
    pub fn len(&self) -> (r: usize)
        ensures
            r == self@.len(),
    {
        self.updates.len()
    }

    /// The number of updates the queue can hold.
    pub fn capacity(&self) -> (r: usize)
        ensures
            r == self.spec_capacity(),
    {
        self.capacity
    }

    /// Enqueues an update at the back, or reports saturation when the queue
    /// is full; a full queue is left unchanged.
    pub fn try_push(&mut self, tag: u64, value: V) -> (r: Result<(), ChannelSaturated>)
        ensures
            final(self).spec_capacity() == old(self).spec_capacity(),
            old(self)@.len() < old(self).spec_capacity() <==> r is Ok,
            r is Ok ==> final(self)@ == old(self)@.push((tag, value)),
            r is Err ==> final(self)@ == old(self)@,
    {
        if self.updates.len() < self.capacity {
            self.updates.push_back((tag, value));
            Ok(())
        } else {
            Err(ChannelSaturated::Full)
        }
    }

    /// Removes and returns the oldest update, if any.
    pub fn pop(&mut self) -> (r: Option<(u64, V)>)
        ensures
            final(self).spec_capacity() == old(self).spec_capacity(),
            old(self)@.len() == 0 ==> r is None && final(self)@ == old(self)@,
            old(self)@.len() > 0 ==> r == Some(old(self)@[0]) && final(self)@ == old(self)@.drop_first(),
    {
        self.updates.pop_front()
    }
}

} // verus!
