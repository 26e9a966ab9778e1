//! The five stages as separate operations, and the forwarding network.

use vstd::prelude::*;
use crate::trace::OpType;
use super::Simulator;
use super::hazard::{forward_source, load_use_in_ex, operand_resolvable};
use super::latches::{ExMemLatch, IdExLatch, IfIdLatch, MemWbLatch};
use super::model::{hit, SimState};
use super::stats::op_slot;
use super::alu::alu_computable;

verus! {

impl Simulator {
    /// Write-back stage: the MEM/WB result is written to its destination
    /// register (unless that is x0) and the instruction is counted.
    pub fn stage_wb(&mut self)
        requires
            old(self).mw_latch matches Some(m) ==> {
                &&& m.record.rd < 32
                &&& old(self).inst_count + 1 <= u64::MAX
                &&& old(self)@.op_stats[op_slot(m.record.op_type)] + 1 <= u64::MAX
            },
        ensures
            final(self)@ == old(self)@.retire_stage(),
            final(self).lsu == old(self).lsu,
    {
        if let Some(latch) = self.mw_latch {
            if latch.record.rd != 0 {
                let value = if latch.record.op_type == OpType::Load {
                    latch.mem_result
                } else {
                    latch.alu_result
                };
                self.registers[latch.record.rd as usize] = value;
            }
            self.inst_count = self.inst_count + 1;
            self.op_stats.count_op(latch.record.op_type);
        }
    }

    /// Memory stage: EX/MEM moves into MEM/WB; a load obtains its value from
    /// the trace.
    pub fn stage_mem(&mut self)
        ensures
            final(self)@ == old(self)@.memory_stage(),
            final(self).lsu == old(self).lsu,
    {
        self.mw_latch = match self.em_latch.take() {
            Some(latch) => {
                let mem_result = if latch.record.op_type == OpType::Load {
                    latch.record.rd_val
                } else {
                    0
                };
                Some(MemWbLatch::new(latch.record, latch.alu_result, mem_result))
            },
            None => None,
        };
    }

    /// Execute stage: ID/EX moves into EX/MEM with its ALU result (the
    /// effective address for memory accesses, `pc + 4` for jumps, the traced
    /// value otherwise).
    pub fn stage_ex(&mut self)
        requires
            old(self).de_latch matches Some(d) ==> alu_computable(d.record),
        ensures
            final(self)@ == old(self)@.execute_stage(),
            final(self).lsu == old(self).lsu,
    {
        self.em_latch = match self.de_latch.take() {
            Some(latch) => {
                let alu_result = match latch.record.op_type {
                    OpType::Load | OpType::Store => latch.record.mem_addr,
                    OpType::Jump => latch.record.pc + 4,
                    _ => latch.record.rd_val,
                };
                Some(ExMemLatch::new(latch.record, alu_result))
            },
            None => None,
        };
    }

    /// Decode stage: detects a load-use hazard against the load now in
    /// EX/MEM and then either stalls (IF/ID frozen, bubble into ID/EX) or
    /// moves IF/ID into ID/EX with operands read through forwarding.
    pub fn stage_id(&mut self)
        requires
            load_use_in_ex(old(self).fd_latch, old(self).em_latch) ==> old(self).stall_count + 1
                <= u64::MAX,
            !load_use_in_ex(old(self).fd_latch, old(self).em_latch) ==> (old(
                self,
            ).fd_latch matches Some(f) ==> {
                let s1 = forward_source(f.record.rs1, old(self)@.em, old(self)@.mw, old(self)@.registers);
                let s2 = forward_source(f.record.rs2, old(self)@.em, old(self)@.mw, old(self)@.registers);
                &&& operand_resolvable(f.record.rs1, old(self).em_latch, old(self).mw_latch)
                &&& operand_resolvable(f.record.rs2, old(self).em_latch, old(self).mw_latch)
                &&& old(self).forward_count + hit(s1) + hit(s2) <= u64::MAX
            }),
        ensures
            final(self)@ == old(self)@.decode_stage(
                load_use_in_ex(old(self).fd_latch, old(self).em_latch),
            ),
            final(self).lsu == old(self).lsu,
    {
        if self.stall {
            self.stall = false;
        }
        let mut hazard = false;
        if let Some(em) = self.em_latch {
            if em.record.op_type == OpType::Load && em.record.rd != 0 {
                if let Some(fd) = self.fd_latch {
                    if fd.record.rs1 == em.record.rd || fd.record.rs2 == em.record.rd {
                        hazard = true;
                    }
                }
            }
        }
        if hazard {
            self.stall = true;
            self.stall_count = self.stall_count + 1;
            self.de_latch = None;
            return;
        }
        self.de_latch = match self.fd_latch.take() {
            Some(latch) => {
                let rs1_val = self.forward(latch.record.rs1);
                let rs2_val = self.forward(latch.record.rs2);
                Some(IdExLatch::new(latch.record, rs1_val, rs2_val))
            },
            None => None,
        };
    }

    /// Fetch stage: unless stalled or IF/ID is still occupied, the next
    /// record of the trace enters IF/ID.
    pub fn stage_if(&mut self)
        ensures
            final(self)@ == old(self)@.fetch_stage(),
            final(self).lsu == old(self).lsu,
    {
        if self.stall {
            return;
        }
        if self.fd_latch.is_some() {
            return;
        }
        self.fd_latch = match self.trace.pop_front() {
            Some(r) => Some(IfIdLatch::new(r)),
            None => None,
        };
    }

    /// Forwarding network: the newest value of source register `rs`. x0
    /// reads 0; otherwise the EX/MEM ALU result (not a load's, whose data is
    /// not ready), then the MEM/WB result (the loaded value for a load), then
    /// the register file. Every value taken from a latch is counted.
    pub fn forward(&mut self, rs: u8) -> (v: u64)
        requires
            operand_resolvable(rs, old(self).em_latch, old(self).mw_latch),
            old(self).forward_count + hit(
                forward_source(rs, old(self)@.em, old(self)@.mw, old(self)@.registers),
            ) <= u64::MAX,
        ensures
            v == forward_source(rs, old(self)@.em, old(self)@.mw, old(self)@.registers).val(),
            final(self)@ == (SimState {
                forward_count: old(self)@.forward_count + hit(
                    forward_source(rs, old(self)@.em, old(self)@.mw, old(self)@.registers),
                ),
                ..old(self)@
            }),
            final(self).lsu == old(self).lsu,
    {
        if rs == 0 {
            return 0;
        }
        if let Some(ref em) = self.em_latch {
            if em.record.rd == rs && em.record.op_type != OpType::Load {
                self.forward_count = self.forward_count + 1;
                return em.alu_result;
            }
        }
        if let Some(ref mw) = self.mw_latch {
            if mw.record.rd == rs {
                self.forward_count = self.forward_count + 1;
                return if mw.record.op_type == OpType::Load {
                    mw.mem_result
                } else {
                    mw.alu_result
                };
            }
        }
        self.registers[rs as usize]
    }
}

} // verus!
