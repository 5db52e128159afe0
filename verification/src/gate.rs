//! The admission gate: a fixed-capacity counting resource. An admission
//! attempt either takes a permit at once or is denied; it never waits.
//! Releasing a permit frees exactly one slot for a later attempt.

use vstd::prelude::*;

verus! {

/// Fixed-capacity gate; `issued` counts permits currently held.
pub struct AdmissionGate {
    capacity: usize,
    issued: usize,
}

impl AdmissionGate {
    /// Outstanding permits never outnumber the capacity.
    pub open spec fn wf(&self) -> bool {
        self.issued() <= self.capacity()
    }

    pub closed spec fn capacity(&self) -> nat {
        self.capacity as nat
    }

    pub closed spec fn issued(&self) -> nat {
        self.issued as nat
    }

    /// A fresh gate with the given capacity holds no permits.
    pub fn new(capacity: usize) -> (g: Self)
        ensures
            g.wf(),
            g.capacity() == capacity,
            g.issued() == 0,
    {
        AdmissionGate { capacity, issued: 0 }
    }

    /// Try-once admission: succeeds exactly when a slot is free, and then
    /// takes one permit. It never waits and never queues a denied caller.
    pub fn try_acquire(&mut self) -> (admitted: bool)
        requires
            old(self).wf(),
        ensures
            final(self).wf(),
            final(self).capacity() == old(self).capacity(),
            admitted == (old(self).issued() < old(self).capacity()),
            admitted ==> final(self).issued() == old(self).issued() + 1,
            !admitted ==> final(self).issued() == old(self).issued(),
    {
        if self.issued < self.capacity {
            self.issued = self.issued + 1;
            true
        } else {
            false
        }
    }

    /// Return one permit; exactly one slot becomes free for a later attempt.
    pub fn release(&mut self)
        requires
            old(self).wf(),
            old(self).issued() > 0,
        ensures
            final(self).wf(),
            final(self).capacity() == old(self).capacity(),
            final(self).issued() == old(self).issued() - 1,
    {
        self.issued = self.issued - 1;
    }
}

/// Whether an admission attempt on a gate in this state succeeds:
/// exactly the transition `try_acquire` is proved to take.
pub open spec fn admits(capacity: nat, issued: nat) -> bool {
    issued < capacity
}

/// Permits held after a run of admission attempts on a fresh gate,
/// each attempt following the `try_acquire` transition.
pub open spec fn issued_after_attempts(capacity: nat, n: nat) -> nat
    decreases n,
{
    if n == 0 {
        0
    } else {
        let prev = issued_after_attempts(capacity, (n - 1) as nat);
        if admits(capacity, prev) {
            prev + 1
        } else {
            prev
        }
    }
}

/// A run of attempts on a fresh gate fills it one permit per attempt
/// until the capacity is reached, and never beyond it.
pub proof fn lemma_attempts_fill(capacity: nat, n: nat)
    ensures
        issued_after_attempts(capacity, n) == if n <= capacity {
            n
        } else {
            capacity
        },
    decreases n,
{
    if n > 0 {
        lemma_attempts_fill(capacity, (n - 1) as nat);
    }
}

/// For every capacity N: each of the first N admission attempts on a fresh
/// gate succeeds; the (N+1)-th is denied; after any one termination returns
/// a permit, exactly one further attempt succeeds and the one after that is
/// denied again.
pub proof fn lemma_capacity_law(n: nat)
    ensures
        forall|k: nat| k < n ==> admits(n, #[trigger] issued_after_attempts(n, k)),
        !admits(n, issued_after_attempts(n, n)),
        n > 0 ==> admits(n, (issued_after_attempts(n, n) - 1) as nat),
        n > 0 ==> !admits(n, ((issued_after_attempts(n, n) - 1) + 1) as nat),
{
    assert forall|k: nat| k < n implies admits(n, #[trigger] issued_after_attempts(n, k)) by {
        lemma_attempts_fill(n, k);
    }
    lemma_attempts_fill(n, n);
}

} // verus!
