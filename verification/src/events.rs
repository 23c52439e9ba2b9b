//! An append-then-drain event queue, double-buffered across cycles.
//!
//! Writers append to the buffer of the running cycle; at each cycle boundary
//! `update` moves that buffer into the readable one, so consumers looking at
//! "last cycle's events" never observe a buffer a writer is appending to.
//! `drain` moves everything out at once, in emission order, and is meant to
//! be invoked exactly once per cycle by a single designated caller.

use vstd::prelude::*;

verus! {

/// A double-buffered queue of events.
pub struct Events<T> {
    last_cycle: Vec<T>,
    this_cycle: Vec<T>,
}

impl<T> Events<T> {
    /// The events sent before the most recent cycle boundary and not yet
    /// drained: the buffer consumers may read.
    pub closed spec fn older(&self) -> Seq<T> {
        self.last_cycle@
    }

    /// The events sent since the most recent cycle boundary.
    pub closed spec fn newer(&self) -> Seq<T> {
        self.this_cycle@
    }

    /// Everything queued, in emission order.
    pub open spec fn queued(&self) -> Seq<T> {
        self.older() + self.newer()
    }

    /// An empty queue.
    pub fn new() -> (result: Self)
        ensures
            result.older() == Seq::<T>::empty(),
            result.newer() == Seq::<T>::empty(),
    {
        Events { last_cycle: Vec::new(), this_cycle: Vec::new() }
    }

    /// Appends one event to the running cycle's buffer.
    pub fn send(&mut self, event: T)
        ensures
            final(self).newer() == old(self).newer().push(event),
            final(self).older() == old(self).older(),
    {
        self.this_cycle.push(event);
    }

    /// Appends a batch of events, in order, to the running cycle's buffer.
    pub fn extend(&mut self, events: Vec<T>)
        ensures
            final(self).newer() == old(self).newer() + events@,
            final(self).older() == old(self).older(),
    {
        let mut incoming = events;
        self.this_cycle.append(&mut incoming);
    }

    /// Moves every queued event out, in emission order, leaving the queue
    /// empty. Intended to run exactly once per cycle, from one designated
    /// call site.
    pub fn drain(&mut self) -> (drained: Vec<T>)
        ensures
            drained@ == old(self).queued(),
            final(self).older() == Seq::<T>::empty(),
            final(self).newer() == Seq::<T>::empty(),
    {
        let mut drained: Vec<T> = Vec::new();
        core::mem::swap(&mut drained, &mut self.last_cycle);
        drained.append(&mut self.this_cycle);
        drained
    }

    /// The cycle boundary: discards the buffer consumers were reading and
    /// makes the running cycle's events readable.
    pub fn update(&mut self)
        ensures
            final(self).older() == old(self).newer(),
            final(self).newer() == Seq::<T>::empty(),
    {
        let mut promoted: Vec<T> = Vec::new();
        core::mem::swap(&mut promoted, &mut self.this_cycle);
        self.last_cycle = promoted;
    }

    /// The events of the last completed cycle, for consumers to read.
    pub fn read(&self) -> (events: &Vec<T>)
        ensures
            events@ == self.older(),
    {
        &self.last_cycle
    }
}

impl<T> Default for Events<T> {
    /// An empty queue.
    fn default() -> (result: Self)
        ensures
            result.older() == Seq::<T>::empty(),
            result.newer() == Seq::<T>::empty(),
    {
        Events::new()
    }
}

} // verus!
