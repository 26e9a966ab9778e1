//! Loading a trace and advancing the pipeline one clock cycle at a time.

use vstd::prelude::*;
use std::collections::VecDeque;
use crate::trace::{OpType, TraceRecord};
use super::Simulator;
use super::alu::Alu;
use super::hazard::HazardUnit;
use super::latches::{ExMemLatch, IdExLatch, IfIdLatch, MemWbLatch};
use super::laws::lemma_step_preserves_wf;
use super::model::{record_wf, SimState};

verus! {

impl Simulator {
    /// Loads all trace records into the input queue, in program order.
    pub fn load_trace(&mut self, records: Vec<TraceRecord>)
        ensures
            final(self)@ == (SimState { trace: records@, ..old(self)@ }),
            final(self).lsu == old(self).lsu,
            old(self)@.wf() && (forall|i: int|
                0 <= i < records@.len() ==> record_wf(#[trigger] records@[i])) ==> final(self)@.wf(),
    {
        let mut queue: VecDeque<TraceRecord> = VecDeque::new();
        let mut i: usize = 0;
        while i < records.len()
            invariant
                i <= records@.len(),
                queue@ == records@.subrange(0, i as int),
            decreases records@.len() - i,
        {
            queue.push_back(records[i]);
            i = i + 1;
            assert(queue@ =~= records@.subrange(0, i as int));
        }
        assert(queue@ =~= records@);
        self.trace = queue;
        proof {
            let b = old(self)@;
            if b.wf() && (forall|i: int| 0 <= i < records@.len() ==> record_wf(#[trigger] records@[i])) {
                let s = self@;
                assert(s.in_flight() == b.in_flight());
                assert forall|i: int| 0 <= i < s.pending().len() implies record_wf(#[trigger] s.pending()[i]) by {
                    if i < s.in_flight().len() {
                        assert(s.pending()[i] == b.pending()[i]);
                    } else {
                        assert(s.pending()[i] == records@[i - s.in_flight().len()]);
                    }
                }
            }
        }
    }

    /// Whether the pipeline has drained: no record waits to be fetched and
    /// every latch is empty.
    pub fn is_done(&self) -> (b: bool)
        ensures
            b == self@.drained(),
    {
        self.trace.len() == 0 && self.fd_latch.is_none() && self.de_latch.is_none()
            && self.em_latch.is_none() && self.mw_latch.is_none()
    }

    /// Advances the pipeline by one cycle. A snapshot of the latches is
    /// taken, the hazard unit resolves load-use hazards on it, and the
    /// stages then commit in reverse order (WB, MEM, EX, ID, IF) so that ID
    /// forwards from the results that EX and MEM committed in this cycle.
    pub fn step_cycle(&mut self)
        requires
            old(self)@.can_step(),
        ensures
            final(self)@ == old(self)@.step(),
            final(self).lsu == old(self).lsu,
            old(self)@.wf() ==> final(self)@.wf(),
    {
        let ghost before = self@;
        proof {
            if before.wf() {
                lemma_step_preserves_wf(before);
            }
        }
        let snap = self.snapshot();
        let hazard = HazardUnit::resolve(&snap);

        // WB: write the MEM/WB result back to the register file.
        if let Some(mw) = snap.mw {
            if mw.record.rd != 0 {
                let value = if mw.record.op_type == OpType::Load {
                    mw.mem_result
                } else {
                    mw.alu_result
                };
                self.registers[mw.record.rd as usize] = value;
            }
            self.inst_count = self.inst_count + 1;
            self.op_stats.count_op(mw.record.op_type);
        }

        // MEM: EX/MEM moves into MEM/WB; a load takes its value from the trace.
        self.mw_latch = match self.em_latch.take() {
            Some(em) => {
                let mem_result = if em.record.op_type == OpType::Load {
                    em.record.rd_val
                } else {
                    0
                };
                Some(MemWbLatch::new(em.record, em.alu_result, mem_result))
            },
            None => None,
        };

        // EX: ID/EX moves into EX/MEM with the ALU result.
        self.em_latch = match self.de_latch.take() {
            Some(de) => {
                let alu_result = Alu::compute(&de.record, de.rs1_val, de.rs2_val);
                Some(ExMemLatch::new(de.record, alu_result))
            },
            None => None,
        };

        // ID: on a load-use hazard freeze IF/ID and insert a bubble;
        // otherwise move IF/ID into ID/EX, reading operands by forwarding.
        if hazard.stall_id || hazard.stall_if {
            self.stall = true;
            self.stall_count = self.stall_count + 1;
            self.de_latch = None;
        } else {
            self.stall = false;
            self.de_latch = match self.fd_latch.take() {
                Some(fd) => {
                    let rs1_val = self.forward(fd.record.rs1);
                    let rs2_val = self.forward(fd.record.rs2);
                    Some(IdExLatch::new(fd.record, rs1_val, rs2_val))
                },
                None => None,
            };
        }

        // IF: fetch the next record.
        if !self.stall && self.fd_latch.is_none() {
            self.fd_latch = match self.trace.pop_front() {
                Some(r) => Some(IfIdLatch::new(r)),
                None => None,
            };
        }

        self.cycle = self.cycle + 1;
    }
}

} // verus!
