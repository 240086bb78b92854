//! Counting semaphore that bounds the number of concurrently running
//! background fetch tasks (avatar and thumbnail downloads).
//!
//! A permit is acquired before a fetch task starts and released when the
//! task finishes, on every exit path. The number of concurrently running
//! tasks therefore never exceeds the configured capacity.

use vstd::prelude::*;

verus! {

/// One observable transition of the throttle: a task asking for a permit,
/// or a finished task handing its permit back.
pub enum ThrottleEvent {
    Acquire,
    Release,
}

/// Number of running tasks after one event, given the capacity and the
/// number of tasks running before the event. An acquire at capacity does
/// not start a task (the caller keeps waiting); a release with no running
/// task changes nothing.
pub open spec fn throttle_step(capacity: int, active: int, e: ThrottleEvent) -> int {
    match e {
        ThrottleEvent::Acquire => if active < capacity {
            active + 1
        } else {
            active
        },
        ThrottleEvent::Release => if active > 0 {
            active - 1
        } else {
            active
        },
    }
}

/// Number of running tasks after a whole sequence of events, starting idle.
pub open spec fn throttle_active_after(capacity: int, events: Seq<ThrottleEvent>) -> int
    decreases events.len(),
{
    if events.len() == 0 {
        0
    } else {
        throttle_step(capacity, throttle_active_after(capacity, events.drop_last()), events.last())
    }
}

/// However many tasks ask for permits and in whatever order permits come
/// back, at most `capacity` tasks run at once; a task beyond that bound
/// does not start until some running task releases its permit.
pub proof fn lemma_throttle_bound(capacity: int, events: Seq<ThrottleEvent>)
    requires
        capacity >= 0,
    ensures
        0 <= throttle_active_after(capacity, events) <= capacity,
    decreases events.len(),
{
    if events.len() > 0 {
        lemma_throttle_bound(capacity, events.drop_last());
    }
}

/// A task asking for a permit at capacity does not start; once some
/// running task releases, the next ask succeeds.
pub proof fn lemma_throttle_blocked_until_release(capacity: int)
    requires
        capacity > 0,
    ensures
        throttle_step(capacity, capacity, ThrottleEvent::Acquire) == capacity,
        throttle_step(
            capacity,
            throttle_step(capacity, capacity, ThrottleEvent::Release),
            ThrottleEvent::Acquire,
        ) == capacity,
{
}

/// Counting semaphore with a fixed permit count.
pub struct DownloadThrottle {
    capacity: u8,
    available: u8,
}

impl DownloadThrottle {
    /// Total number of permits the throttle was created with.
    pub closed spec fn spec_capacity(self) -> int {
        self.capacity as int
    }

    /// Permits not currently held.
    pub closed spec fn spec_available(self) -> int {
        self.available as int
    }

    /// Permits currently held by running fetch tasks.
    pub closed spec fn active(self) -> int {
        self.spec_capacity() - self.spec_available()
    }

    pub closed spec fn wf(self) -> bool {
        self.available <= self.capacity
    }

    pub fn new(capacity: u8) -> (t: DownloadThrottle)
        ensures
            t.wf(),
            t.spec_capacity() == capacity as int,
            t.active() == 0,
    {
        DownloadThrottle { capacity, available: capacity }
    }

    /// Ask for a permit without blocking. A permit is granted exactly when
    /// fewer than `capacity` tasks hold one; a denied caller is expected to
    /// retry after some running task releases.
    pub fn try_acquire(&mut self) -> (granted: bool)
        requires
            old(self).wf(),
        ensures
            final(self).wf(),
            final(self).spec_capacity() == old(self).spec_capacity(),
            granted == (old(self).active() < old(self).spec_capacity()),
            final(self).active() == throttle_step(
                old(self).spec_capacity(),
                old(self).active(),
                ThrottleEvent::Acquire,
            ),
            !granted ==> *final(self) == *old(self),
    {
        if self.available > 0 {
            self.available = self.available - 1;
            true
        } else {
            false
        }
    }

    /// Hand a permit back. Called once per granted `try_acquire`, on every
    /// exit path of the fetch task, so `active() > 0` always holds here.
    pub fn release(&mut self)
        requires
            old(self).wf(),
            old(self).active() > 0,
        ensures
            final(self).wf(),
            final(self).spec_capacity() == old(self).spec_capacity(),
            final(self).active() == old(self).active() - 1,
            final(self).active() == throttle_step(
                old(self).spec_capacity(),
                old(self).active(),
                ThrottleEvent::Release,
            ),
    {
        self.available = self.available + 1;
    }

    /// Permits not currently held, as an executable read.
    pub fn available_permits(&self) -> (n: u8)
        ensures
            n as int == self.spec_available(),
    {
        self.available
    }
}

} // verus!
