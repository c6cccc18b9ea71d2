//! Connection-slot accounting shared by both acceptor backends.
//!
//! An explicit object in place of an ambient atomic: the accept loop asks it
//! for a slot before taking a connection and gives the slot back when the
//! session ends. The count of busy slots never exceeds the bound, and the
//! drain check tells a shutting-down acceptor when every in-flight session
//! has finished.

use vstd::prelude::*;

verus! {

/// Bounded count of connections being serviced.
pub struct ConnectionCounter {
    active: usize,
    max_connections: usize,
}

impl ConnectionCounter {
    /// How many connections hold a slot now.
    pub closed spec fn active(&self) -> usize {
        self.active
    }

    /// How many may hold one at once.
    pub closed spec fn max_connections(&self) -> usize {
        self.max_connections
    }

    /// The bound holds.
    pub open spec fn wf(&self) -> bool {
        self.active() <= self.max_connections()
    }

    /// No slot is busy at the start.
    pub fn new(max_connections: usize) -> (r: ConnectionCounter)
        ensures
            r.wf(),
            r.active() == 0,
            r.max_connections() == max_connections,
    {
        ConnectionCounter { active: 0, max_connections }
    }

    /// Takes a slot if one is free; a caller refused here backs off and asks
    /// again rather than accepting the connection.
    pub fn try_admit(&mut self) -> (admitted: bool)
        requires
            old(self).wf(),
        ensures
            final(self).wf(),
            final(self).max_connections() == old(self).max_connections(),
            if old(self).active() < old(self).max_connections() {
                admitted && final(self).active() == old(self).active() + 1
            } else {
                !admitted && final(self).active() == old(self).active()
            },
    {
        if self.active < self.max_connections {
            self.active = self.active + 1;
            true
        } else {
            false
        }
    }

    /// Gives a slot back when a session ends, success or failure.
    pub fn release(&mut self)
        requires
            old(self).wf(),
            old(self).active() > 0,
        ensures
            final(self).wf(),
            final(self).max_connections() == old(self).max_connections(),
            final(self).active() == old(self).active() - 1,
    {
        self.active = self.active - 1;
    }

    /// Whether every admitted session has finished; a shutdown completes
    /// only once this holds.
    pub fn is_drained(&self) -> (r: bool)
        ensures
            r == (self.active() == 0),
    {
        self.active == 0
    }
}

} // verus!
