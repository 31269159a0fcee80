//! The admission controller: a counting gate that bounds how many tool
//! executions may be in flight at once.  A unit is acquired before a
//! tool runs and released when it completes, success or failure alike;
//! the number of units out never exceeds the configured capacity.
use vstd::prelude::*;

verus! {

/// The counting gate.  `in_flight` is the number of units currently
/// held; it never exceeds `capacity`.
#[derive(Debug, Clone, Copy, PartialEq, Eq, Structural)]
pub struct AdmissionGate {
    pub capacity: usize,
    pub in_flight: usize,
}

/// What one acquisition attempt does: grants a unit exactly when one is
/// free, and changes nothing otherwise.
pub open spec fn spec_try_acquire(g: AdmissionGate) -> (AdmissionGate, bool) {
    if g.in_flight < g.capacity {
        (AdmissionGate { capacity: g.capacity, in_flight: (g.in_flight + 1) as usize }, true)
    } else {
        (g, false)
    }
}

/// What a release does: returns one held unit.
pub open spec fn spec_release(g: AdmissionGate) -> AdmissionGate {
    AdmissionGate { capacity: g.capacity, in_flight: (g.in_flight - 1) as usize }
}

impl AdmissionGate {
    /// No more units are ever held than the capacity allows.
    pub open spec fn wf(&self) -> bool {
        self.in_flight <= self.capacity
    }

    /// A fresh gate with the given capacity and nothing in flight.
    pub fn new(capacity: usize) -> (r: AdmissionGate)
        ensures
            r.capacity == capacity,
            r.in_flight == 0,
            r.wf(),
    {
        AdmissionGate { capacity, in_flight: 0 }
    }

    /// Attempts to take one unit: succeeds exactly when a unit is free.
    pub fn try_acquire(&mut self) -> (r: bool)
        requires
            old(self).wf(),
        ensures
            (*final(self), r) == spec_try_acquire(*old(self)),
            final(self).wf(),
    {
        if self.in_flight < self.capacity {
            self.in_flight = self.in_flight + 1;
            true
        } else {
            false
        }
    }

    /// Returns one held unit.
    pub fn release(&mut self)
        requires
            old(self).in_flight > 0,
            old(self).wf(),
        ensures
            *final(self) == spec_release(*old(self)),
            final(self).wf(),
    {
        self.in_flight = self.in_flight - 1;
    }
}

/// The admission law.  Starting idle: with capacity one, a first request
/// is admitted, a second is refused while the first is still in flight,
/// and is admitted once the first completes and releases its unit — the
/// two executions are strictly serial.  With capacity two, both requests
/// are admitted at once and may overlap.
pub proof fn lemma_admission_serializes(g: AdmissionGate)
    requires
        g.wf(),
        g.in_flight == 0,
    ensures
        g.capacity == 1 ==> ({
            let (g1, first) = spec_try_acquire(g);
            let (g2, second_while_busy) = spec_try_acquire(g1);
            let (g3, second_after_release) = spec_try_acquire(spec_release(g1));
            first && !second_while_busy && second_after_release
        }),
        g.capacity == 2 ==> ({
            let (g1, first) = spec_try_acquire(g);
            let (g2, second) = spec_try_acquire(g1);
            first && second
        }),
{
}

} // verus!
