//! The active-count register: a single counter, incremented when a session
//! is admitted and decremented (never below zero) when it terminates.

use vstd::prelude::*;

verus! {

/// One step applied to the register: an admission or a termination.
#[derive(Clone, Copy, PartialEq, Eq, Structural)]
pub enum RegisterOp {
    Increment,
    Decrement,
}

/// Counter of sessions currently past admission and not yet terminated.
pub struct ActiveCountRegister {
    count: u32,
}

/// Number of `Increment` steps in a trace of register operations.
pub open spec fn count_incs(ops: Seq<RegisterOp>) -> nat
    decreases ops.len(),
{
    if ops.len() == 0 {
        0
    } else {
        count_incs(ops.drop_last()) + if ops.last() is Increment {
            1nat
        } else {
            0nat
        }
    }
}

/// Number of `Decrement` steps in a trace of register operations.
pub open spec fn count_decs(ops: Seq<RegisterOp>) -> nat
    decreases ops.len(),
{
    if ops.len() == 0 {
        0
    } else {
        count_decs(ops.drop_last()) + if ops.last() is Decrement {
            1nat
        } else {
            0nat
        }
    }
}

/// The value one register operation leaves behind: an increment adds one,
/// a decrement subtracts one but never goes below zero.
pub open spec fn apply_op(v: nat, op: RegisterOp) -> nat {
    match op {
        RegisterOp::Increment => v + 1,
        RegisterOp::Decrement => if v > 0 {
            (v - 1) as nat
        } else {
            0
        },
    }
}

/// The value a whole trace of operations leaves behind, starting from zero.
pub open spec fn apply_ops(ops: Seq<RegisterOp>) -> nat
    decreases ops.len(),
{
    if ops.len() == 0 {
        0
    } else {
        apply_op(apply_ops(ops.drop_last()), ops.last())
    }
}

/// A trace is balanced when no prefix has more terminations than admissions.
pub open spec fn balanced(ops: Seq<RegisterOp>) -> bool {
    forall|i: int|
        0 <= i <= ops.len() ==> count_decs(#[trigger] ops.subrange(0, i)) <= count_incs(
            ops.subrange(0, i),
        )
}

/// The register never goes negative: whatever trace of admissions and
/// terminations has run, the value is a natural number, and at any
/// quiescent point of a balanced trace it equals the number of sessions
/// admitted minus the number terminated.
pub proof fn lemma_register_counts_sessions(ops: Seq<RegisterOp>)
    requires
        balanced(ops),
    ensures
        apply_ops(ops) >= 0,
        apply_ops(ops) == count_incs(ops) - count_decs(ops),
    decreases ops.len(),
{
    if ops.len() > 0 {
        let prefix = ops.drop_last();
        assert forall|i: int| 0 <= i <= prefix.len() implies count_decs(
            #[trigger] prefix.subrange(0, i),
        ) <= count_incs(prefix.subrange(0, i)) by {
            assert(prefix.subrange(0, i) =~= ops.subrange(0, i));
        }
        lemma_register_counts_sessions(prefix);
        assert(ops.subrange(0, ops.len() as int) =~= ops);
        assert(prefix =~= ops.subrange(0, ops.len() - 1));
    }
}

impl ActiveCountRegister {
    pub closed spec fn view(&self) -> nat {
        self.count as nat
    }

    /// A fresh register reads zero.
    pub fn new() -> (r: Self)
        ensures
            r@ == 0,
    {
        ActiveCountRegister { count: 0 }
    }

    /// Record one admission.
    pub fn increment(&mut self)
        requires
            old(self)@ < u32::MAX,
        ensures
            final(self)@ == old(self)@ + 1,
    {
        self.count = self.count + 1;
    }

    /// Record one termination; the count never goes below zero.
    pub fn decrement_saturating(&mut self)
        ensures
            final(self)@ == apply_op(old(self)@, RegisterOp::Decrement),
    {
        if self.count > 0 {
            self.count = self.count - 1;
        }
    }

    /// Read the current count.
    pub fn read(&self) -> (c: u32)
        ensures
            c == self@,
    {
        self.count
    }
}

} // verus!
