//! Pipeline latches between the stages, and an immutable snapshot of all of
//! them for the combinational logic.

use vstd::prelude::*;
use crate::trace::TraceRecord;

verus! {

/// IF/ID latch: only the instruction record (no dynamic values yet).
#[derive(Debug, Clone, Copy)]
pub struct IfIdLatch {
    pub record: TraceRecord,
}

/// ID/EX latch: the record and its operand values as chosen by the
/// forwarding network.
#[derive(Debug, Clone, Copy)]
pub struct IdExLatch {
    pub record: TraceRecord,
    pub rs1_val: u64,
    pub rs2_val: u64,
}

/// EX/MEM latch: the record and its ALU result.
#[derive(Debug, Clone, Copy)]
pub struct ExMemLatch {
    pub record: TraceRecord,
    pub alu_result: u64,
}

/// MEM/WB latch: the record, its ALU result and its memory result.
#[derive(Debug, Clone, Copy)]
pub struct MemWbLatch {
    pub record: TraceRecord,
    pub alu_result: u64,
    pub mem_result: u64,
}

/// Immutable view of all latches and the register file at the start of a
/// cycle, on which the combinational units work.
#[derive(Debug, Clone, Copy)]
pub struct PipelineSnapshot {
    pub fd: Option<IfIdLatch>,
    pub de: Option<IdExLatch>,
    pub em: Option<ExMemLatch>,
    pub mw: Option<MemWbLatch>,
    pub registers: [u64; 32],
    pub cycle: u64,
}

impl IfIdLatch {
    pub fn new(record: TraceRecord) -> (r: Self)
        ensures
            r == (IfIdLatch { record }),
    {
        IfIdLatch { record }
    }
}

impl IdExLatch {
    pub fn new(record: TraceRecord, rs1_val: u64, rs2_val: u64) -> (r: Self)
        ensures
            r == (IdExLatch { record, rs1_val, rs2_val }),
    {
        IdExLatch { record, rs1_val, rs2_val }
    }
}

impl ExMemLatch {
    pub fn new(record: TraceRecord, alu_result: u64) -> (r: Self)
        ensures
            r == (ExMemLatch { record, alu_result }),
    {
        ExMemLatch { record, alu_result }
    }
}

impl MemWbLatch {
    pub fn new(record: TraceRecord, alu_result: u64, mem_result: u64) -> (r: Self)
        ensures
            r == (MemWbLatch { record, alu_result, mem_result }),
    {
        MemWbLatch { record, alu_result, mem_result }
    }
}

impl PipelineSnapshot {
    pub fn new(
        fd: Option<IfIdLatch>,
        de: Option<IdExLatch>,
        em: Option<ExMemLatch>,
        mw: Option<MemWbLatch>,
        registers: [u64; 32],
        cycle: u64,
    ) -> (r: Self)
        ensures
            r.fd == fd,
            r.de == de,
            r.em == em,
            r.mw == mw,
            r.registers@ == registers@,
            r.cycle == cycle,
    {
        PipelineSnapshot { fd, de, em, mw, registers, cycle }
    }
}

} // verus!
