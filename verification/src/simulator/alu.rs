//! Combinational ALU. In a trace-driven simulator the ALU performs no real
//! arithmetic: the trace carries the computed values, and the ALU routes the
//! right one into the pipeline latch.

use vstd::prelude::*;
use crate::trace::{OpType, TraceRecord};

verus! {

/// Stateless, clockless ALU.
pub struct Alu;

/// The ALU result of an instruction: the effective address for loads and
/// stores, the return address `pc + 4` for jumps, and the value that the
/// trace records for every other class.
pub open spec fn alu_result_of(r: TraceRecord) -> u64 {
    match r.op_type {
        OpType::Load | OpType::Store => r.mem_addr,
        OpType::Jump => (r.pc + 4) as u64,
        _ => r.rd_val,
    }
}

/// The ALU result of `r` can be computed: a jump's return address `pc + 4`
/// fits in 64 bits.
pub open spec fn alu_computable(r: TraceRecord) -> bool {
    r.op_type == OpType::Jump ==> r.pc + 4 <= u64::MAX
}

/// The ALU result by class: a load or store yields its effective address, a
/// jump its return address `pc + 4`, and every other class (integer ALU,
/// branch, system, unknown) the value that the trace records.
pub proof fn lemma_alu_result_by_class(r: TraceRecord)
    ensures
        r.op_type == OpType::Load ==> alu_result_of(r) == r.mem_addr,
        r.op_type == OpType::Store ==> alu_result_of(r) == r.mem_addr,
        r.op_type == OpType::Jump && r.pc + 4 <= u64::MAX ==> alu_result_of(r) == r.pc + 4,
        r.op_type != OpType::Load && r.op_type != OpType::Store && r.op_type != OpType::Jump
            ==> alu_result_of(r) == r.rd_val,
{
}

impl Alu {
    /// Computes the ALU result of an instruction. The operand values are
    /// accepted for the interface of a real ALU but do not influence the
    /// result, which the trace already holds.
    pub fn compute(record: &TraceRecord, _rs1_val: u64, _rs2_val: u64) -> (r: u64)
        requires
            alu_computable(*record),
        ensures
            r == alu_result_of(*record),
            record.op_type == OpType::Load || record.op_type == OpType::Store ==> r
                == record.mem_addr,
            record.op_type == OpType::Jump ==> r == record.pc + 4,
            record.op_type != OpType::Load && record.op_type != OpType::Store && record.op_type
                != OpType::Jump ==> r == record.rd_val,
    {
        match record.op_type {
            OpType::Load | OpType::Store => record.mem_addr,
            OpType::Jump => record.pc + 4,
            _ => record.rd_val,
        }
    }
}

} // verus!
