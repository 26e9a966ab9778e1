//! The five-stage pipeline simulator and its combinational units.

pub mod latches;
pub mod alu;
pub mod lsu;
pub mod exec_unit;
pub mod hazard;
pub mod stats;
pub mod model;
pub mod engine;
pub mod pipeline;

use vstd::prelude::*;
use std::collections::VecDeque;
use crate::trace::TraceRecord;
use latches::{ExMemLatch, IdExLatch, IfIdLatch, MemWbLatch, PipelineSnapshot};
use lsu::{Lsu, LsuView};
use model::SimState;
use stats::OpStats;

verus! {

/// Performance simulator of the classic five-stage pipeline
/// (IF/ID/EX/MEM/WB) with a forwarding network and load-use stalls.
pub struct Simulator {
    /// Cycles simulated so far.
    pub cycle: u64,
    /// Instructions retired (counted in WB).
    pub inst_count: u64,
    /// Retired instructions per class (the instruction mix).
    pub op_stats: OpStats,
    /// IF/ID latch: fetch to decode.
    pub fd_latch: Option<IfIdLatch>,
    /// ID/EX latch: decode to execute.
    pub de_latch: Option<IdExLatch>,
    /// EX/MEM latch: execute to memory.
    pub em_latch: Option<ExMemLatch>,
    /// MEM/WB latch: memory to write-back.
    pub mw_latch: Option<MemWbLatch>,
    /// Load-store unit (models access timing).
    pub lsu: Lsu,
    /// Architectural register file: 32 integer registers, x0 hard-wired to 0.
    pub registers: [u64; 32],
    /// Records waiting to be fetched, in program order.
    pub trace: VecDeque<TraceRecord>,
    /// Stall flag: while set, IF is frozen.
    pub stall: bool,
    /// Load-use stalls so far.
    pub stall_count: u64,
    /// Operands taken from a latch rather than the register file so far.
    pub forward_count: u64,
}

impl View for Simulator {
    type V = SimState;

    open spec fn view(&self) -> SimState {
        SimState {
            cycle: self.cycle as nat,
            inst_count: self.inst_count as nat,
            op_stats: self.op_stats@,
            fd: self.fd_latch,
            de: self.de_latch,
            em: self.em_latch,
            mw: self.mw_latch,
            registers: self.registers@,
            trace: self.trace@,
            stall: self.stall,
            stall_count: self.stall_count as nat,
            forward_count: self.forward_count as nat,
        }
    }
}

impl Simulator {
    /// Creates an empty simulator.
    pub fn new() -> (r: Self)
        ensures
            r@ == SimState::initial(),
            r@.wf(),
            r.lsu@ == (LsuView { latency: 1, pipelined: true, busy_until: 0 }),
    {
        let r = Simulator {
            cycle: 0,
            inst_count: 0,
            op_stats: OpStats::new(),
            fd_latch: None,
            de_latch: None,
            em_latch: None,
            mw_latch: None,
            lsu: Lsu::new(),
            registers: [0u64; 32],
            trace: VecDeque::new(),
            stall: false,
            stall_count: 0,
            forward_count: 0,
        };
        assert(r.registers@ =~= Seq::new(32, |i: int| 0u64));
        assert(r@ =~= SimState::initial());
        r
    }

    /// Immutable snapshot of the latches and the register file, for the
    /// combinational units.
    fn snapshot(&self) -> (s: PipelineSnapshot)
        ensures
            s.fd == self.fd_latch,
            s.de == self.de_latch,
            s.em == self.em_latch,
            s.mw == self.mw_latch,
            s.registers@ == self.registers@,
            s.cycle == self.cycle,
    {
        PipelineSnapshot::new(
            self.fd_latch,
            self.de_latch,
            self.em_latch,
            self.mw_latch,
            self.registers,
            self.cycle,
        )
    }
}

} // verus!
pub mod laws;
