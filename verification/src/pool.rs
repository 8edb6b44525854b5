//! Bookkeeping of the shared connection pool: a bounded count of lent-out
//! connections, created once at startup and never resized.

use vstd::prelude::*;

verus! {

/// The pool's eager minimum size.
pub const POOL_MIN_CONNECTIONS: u32 = 10;

/// The pool's maximum size.
pub const POOL_MAX_CONNECTIONS: u32 = 20;

/// The pool's accounting: its configured bounds and how many connections are
/// currently lent out. Handlers borrow a connection for one query and must
/// return it; the count never exceeds the maximum.
#[derive(Clone, Copy, PartialEq, Eq, Structural, Debug)]
pub struct PoolCounters {
    pub min: u32,
    pub max: u32,
    pub borrowed: u32,
}

/// One bookkeeping event: a handler borrows a connection or returns one.
#[derive(Clone, Copy, PartialEq, Eq, Structural, Debug)]
pub enum PoolEvent {
    Acquire,
    Release,
}

/// How one event moves the accounting: an acquire is granted only below the
/// maximum, a release only returns what is lent out.
pub open spec fn pool_step(s: PoolCounters, e: PoolEvent) -> PoolCounters {
    match e {
        PoolEvent::Acquire => if s.borrowed < s.max {
            PoolCounters { borrowed: (s.borrowed + 1) as u32, ..s }
        } else {
            s
        },
        PoolEvent::Release => if s.borrowed > 0 {
            PoolCounters { borrowed: (s.borrowed - 1) as u32, ..s }
        } else {
            s
        },
    }
}

/// The accounting after a whole sequence of events.
pub open spec fn pool_run(s: PoolCounters, events: Seq<PoolEvent>) -> PoolCounters
    decreases events.len(),
{
    if events.len() == 0 {
        s
    } else {
        pool_run(pool_step(s, events[0]), events.subrange(1, events.len() as int))
    }
}

impl PoolCounters {
    /// Bounds respected and the lent-out count within them.
    pub open spec fn wf(self) -> bool {
        &&& 1 <= self.min <= self.max
        &&& self.borrowed <= self.max
    }

    /// A fresh pool with nothing lent out.
    pub fn new(min: u32, max: u32) -> (r: Self)
        requires
            1 <= min <= max,
        ensures
            r.wf(),
            r.min == min,
            r.max == max,
            r.borrowed == 0,
    {
        PoolCounters { min, max, borrowed: 0 }
    }

    /// Borrow one connection. Granted exactly when one is to be had; the
    /// bounds never change and the count never passes the maximum.
    pub fn acquire(&mut self) -> (granted: bool)
        requires
            old(self).wf(),
        ensures
            final(self).wf(),
            *final(self) == pool_step(*old(self), PoolEvent::Acquire),
            granted == (old(self).borrowed < old(self).max),
            granted ==> final(self).borrowed == old(self).borrowed + 1,
            !granted ==> *final(self) == *old(self),
    {
        if self.borrowed < self.max {
            self.borrowed = self.borrowed + 1;
            true
        } else {
            false
        }
    }

    /// Return one borrowed connection.
    pub fn release(&mut self)
        requires
            old(self).wf(),
            old(self).borrowed >= 1,
        ensures
            final(self).wf(),
            *final(self) == pool_step(*old(self), PoolEvent::Release),
            final(self).borrowed == old(self).borrowed - 1,
    {
        self.borrowed = self.borrowed - 1;
    }
}

/// However the handlers interleave borrows and returns — grants refused at
/// the maximum included — the accounting stays within bounds and the bounds
/// themselves never move.
pub proof fn lemma_pool_bookkeeping_bounded(s: PoolCounters, events: Seq<PoolEvent>)
    requires
        s.wf(),
    ensures
        pool_run(s, events).wf(),
        pool_run(s, events).borrowed <= s.max,
        pool_run(s, events).min == s.min,
        pool_run(s, events).max == s.max,
    decreases events.len(),
{
    if events.len() > 0 {
        lemma_pool_bookkeeping_bounded(pool_step(s, events[0]), events.subrange(1, events.len() as int));
    }
}

} // verus!
