//! Per-class instruction counters (the instruction mix).

use vstd::prelude::*;
use crate::trace::OpType;

verus! {

/// Position of an instruction class among the counters, in declaration order.
pub open spec fn op_slot(op: OpType) -> int {
    match op {
        OpType::Unknown => 0,
        OpType::IntAlu => 1,
        OpType::Load => 2,
        OpType::Store => 3,
        OpType::Branch => 4,
        OpType::Jump => 5,
        OpType::System => 6,
    }
}

/// Distinct classes have distinct counters, each one of the seven.
pub proof fn lemma_op_slot_injective(a: OpType, b: OpType)
    ensures
        0 <= op_slot(a) < 7,
        op_slot(a) == op_slot(b) ==> a == b,
{
}

fn slot_of(op: OpType) -> (i: usize)
    ensures
        i == op_slot(op),
{
    match op {
        OpType::Unknown => 0,
        OpType::IntAlu => 1,
        OpType::Load => 2,
        OpType::Store => 3,
        OpType::Branch => 4,
        OpType::Jump => 5,
        OpType::System => 6,
    }
}

/// Number of retired instructions of each class. A class that has never
/// retired has no entry.
#[derive(Debug, Clone, Copy)]
pub struct OpStats {
    counts: [u64; 7],
}

impl OpStats {
    /// Count of the class at position `i`.
    pub closed spec fn slot_count(&self, i: int) -> nat {
        self.counts@[i] as nat
    }
}

impl View for OpStats {
    type V = Seq<nat>;

    /// The counts, indexed by `op_slot`.
    open spec fn view(&self) -> Seq<nat> {
        Seq::new(7, |i: int| self.slot_count(i))
    }
}

impl OpStats {
    /// No instruction counted.
    pub fn new() -> (r: Self)
        ensures
            r@ == Seq::new(7, |i: int| 0nat),
    {
        let r = OpStats { counts: [0u64; 7] };
        assert(r@ =~= Seq::new(7, |i: int| 0nat));
        r
    }

    /// The count of a class, if at least one instruction of it retired.
    pub fn get(&self, op: &OpType) -> (r: Option<&u64>)
        ensures
            r is None <==> self@[op_slot(*op)] == 0,
            r matches Some(v) ==> *v as nat == self@[op_slot(*op)],
    {
        let i = slot_of(*op);
        if self.counts[i] == 0 {
            None
        } else {
            Some(&self.counts[i])
        }
    }

    /// Counts one more instruction of class `op`.
    pub fn count_op(&mut self, op: OpType)
        requires
            old(self)@[op_slot(op)] < u64::MAX,
        ensures
            final(self)@ == old(self)@.update(op_slot(op), old(self)@[op_slot(op)] + 1),
            final(self)@[op_slot(op)] == old(self)@[op_slot(op)] + 1,
            forall|other: OpType|
                other != op ==> final(self)@[op_slot(other)] == old(self)@[op_slot(other)],
    {
        let i = slot_of(op);
        let c = self.counts[i];
        self.counts[i] = c + 1;
        assert(self@ =~= old(self)@.update(op_slot(op), old(self)@[op_slot(op)] + 1));
        proof {
            assert forall|other: OpType| other != op implies self@[op_slot(other)] == old(
                self,
            )@[op_slot(other)] by {
                lemma_op_slot_injective(other, op);
            }
        }
    }
}

} // verus!
