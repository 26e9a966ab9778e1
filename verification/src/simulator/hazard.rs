//! Combinational hazard detection and forwarding resolution.

use vstd::prelude::*;
use crate::trace::OpType;
use super::latches::{ExMemLatch, IdExLatch, IfIdLatch, MemWbLatch, PipelineSnapshot};

verus! {

/// Where the value of a source operand comes from.
#[derive(Debug, Clone, Copy, PartialEq, Eq, Structural)]
pub enum ForwardSource {
    /// Value read from the register file.
    RegFile(u64),
    /// ALU result in the EX/MEM latch (the most recent result, never a load's).
    ExMemAlu(u64),
    /// ALU result in the MEM/WB latch.
    MemWbAlu(u64),
    /// Loaded value in the MEM/WB latch.
    MemWbMem(u64),
}

impl ForwardSource {
    /// The operand value that the source carries.
    pub open spec fn val(self) -> u64 {
        match self {
            ForwardSource::RegFile(v) => v,
            ForwardSource::ExMemAlu(v) => v,
            ForwardSource::MemWbAlu(v) => v,
            ForwardSource::MemWbMem(v) => v,
        }
    }

    /// The source is a forwarding hit (a latch, not the register file).
    pub open spec fn forwarded(self) -> bool {
        !(self is RegFile)
    }

    /// Extracts the operand value.
    pub fn value(&self) -> (v: u64)
        ensures
            v == self.val(),
    {
        match *self {
            ForwardSource::RegFile(v) | ForwardSource::ExMemAlu(v) | ForwardSource::MemWbAlu(v)
            | ForwardSource::MemWbMem(v) => v,
        }
    }

    /// Whether the value is forwarded from a latch rather than read from the
    /// register file.
    pub fn is_forward(&self) -> (b: bool)
        ensures
            b == self.forwarded(),
    {
        !matches!(self, ForwardSource::RegFile(_))
    }
}

/// Control signals computed by hazard resolution, for the sequential commit
/// of a cycle.
#[derive(Debug, Clone, Copy)]
pub struct HazardResult {
    /// Freeze the IF/ID latch (no fetch).
    pub stall_if: bool,
    /// Freeze the ID/EX latch (insert a bubble).
    pub stall_id: bool,
    /// Flush the IF/ID latch (e.g. on a branch misprediction).
    pub flush_if: bool,
    /// Flush the ID/EX latch.
    pub flush_id: bool,
    /// Source of the rs1 operand of the instruction in ID.
    pub fwd_src1: ForwardSource,
    /// Source of the rs2 operand of the instruction in ID.
    pub fwd_src2: ForwardSource,
}

impl Default for HazardResult {
    fn default() -> (r: Self)
        ensures
            r == (HazardResult {
                stall_if: false,
                stall_id: false,
                flush_if: false,
                flush_id: false,
                fwd_src1: ForwardSource::RegFile(0),
                fwd_src2: ForwardSource::RegFile(0),
            }),
    {
        HazardResult {
            stall_if: false,
            stall_id: false,
            flush_if: false,
            flush_id: false,
            fwd_src1: ForwardSource::RegFile(0),
            fwd_src2: ForwardSource::RegFile(0),
        }
    }
}

/// Stateless hazard detection and forwarding unit.
pub struct HazardUnit;

/// Load-use hazard: the instruction about to enter EX (in ID/EX) is a load
/// that writes a register other than x0, and the instruction in IF/ID reads
/// that register. The loaded value is ready only after MEM, so the reader
/// must wait one cycle.
pub open spec fn load_use_hazard(fd: Option<IfIdLatch>, de: Option<IdExLatch>) -> bool {
    match (fd, de) {
        (Some(f), Some(d)) => {
            &&& d.record.op_type == OpType::Load
            &&& d.record.rd != 0
            &&& (f.record.rs1 == d.record.rd || f.record.rs2 == d.record.rd)
        },
        _ => false,
    }
}

/// Load-use hazard as seen after EX has committed: the load has just moved
/// into EX/MEM and the instruction in IF/ID reads its destination register.
pub open spec fn load_use_in_ex(fd: Option<IfIdLatch>, em: Option<ExMemLatch>) -> bool {
    match (fd, em) {
        (Some(f), Some(e)) => {
            &&& e.record.op_type == OpType::Load
            &&& e.record.rd != 0
            &&& (f.record.rs1 == e.record.rd || f.record.rs2 == e.record.rd)
        },
        _ => false,
    }
}

/// The EX/MEM latch holds the result for register `rs`, and it is not a
/// load (whose data is not ready there).
pub open spec fn ex_mem_supplies(rs: u8, em: Option<ExMemLatch>) -> bool {
    em matches Some(e) && e.record.rd == rs && e.record.op_type != OpType::Load
}

/// The MEM/WB latch holds the result for register `rs`.
pub open spec fn mem_wb_supplies(rs: u8, mw: Option<MemWbLatch>) -> bool {
    mw matches Some(m) && m.record.rd == rs
}

/// The forwarding multiplexer: x0 is hard-wired to 0; otherwise the EX/MEM
/// ALU result (not a load's), then the MEM/WB result (the loaded value for a
/// load, the ALU result otherwise), then the register file.
pub open spec fn forward_source(
    rs: u8,
    em: Option<ExMemLatch>,
    mw: Option<MemWbLatch>,
    registers: Seq<u64>,
) -> ForwardSource {
    if rs == 0 {
        ForwardSource::RegFile(0)
    } else if ex_mem_supplies(rs, em) {
        ForwardSource::ExMemAlu(em->0.alu_result)
    } else if mem_wb_supplies(rs, mw) {
        if mw->0.record.op_type == OpType::Load {
            ForwardSource::MemWbMem(mw->0.mem_result)
        } else {
            ForwardSource::MemWbAlu(mw->0.alu_result)
        }
    } else {
        ForwardSource::RegFile(registers[rs as int])
    }
}

/// Resolving register `rs` can be done: if no latch supplies it and it is
/// not x0, it names one of the 32 registers.
pub open spec fn operand_resolvable(rs: u8, em: Option<ExMemLatch>, mw: Option<MemWbLatch>) -> bool {
    rs != 0 && !ex_mem_supplies(rs, em) && !mem_wb_supplies(rs, mw) ==> rs < 32
}

/// The operand source that hazard resolution reports for a source register
/// of the instruction in ID: the forwarding choice when there is one,
/// otherwise `RegFile(0)`.
pub open spec fn id_operand_source(
    fd: Option<IfIdLatch>,
    first: bool,
    em: Option<ExMemLatch>,
    mw: Option<MemWbLatch>,
    registers: Seq<u64>,
) -> ForwardSource {
    match fd {
        Some(f) => forward_source(if first { f.record.rs1 } else { f.record.rs2 }, em, mw, registers),
        None => ForwardSource::RegFile(0),
    }
}

/// What the forwarding network chooses for source register `rs`: x0 always
/// reads 0 from the register file; a value from EX/MEM is the ALU result of
/// a non-load writing `rs`, and EX/MEM wins whenever it holds one; a value
/// from MEM/WB is the loaded value of a load, or the ALU result of another
/// class, writing `rs`, when EX/MEM does not supply it; otherwise the value
/// is register `rs` of the register file.
pub proof fn lemma_forwarding_choice(
    rs: u8,
    em: Option<ExMemLatch>,
    mw: Option<MemWbLatch>,
    registers: Seq<u64>,
)
    ensures
        rs == 0 ==> forward_source(rs, em, mw, registers) == ForwardSource::RegFile(0),
        rs != 0 && em is Some && em->0.record.rd == rs && em->0.record.op_type != OpType::Load
            ==> forward_source(rs, em, mw, registers) == ForwardSource::ExMemAlu(em->0.alu_result),
        forward_source(rs, em, mw, registers) is ExMemAlu ==> {
            &&& rs != 0
            &&& em is Some
            &&& em->0.record.rd == rs
            &&& em->0.record.op_type != OpType::Load
            &&& forward_source(rs, em, mw, registers).val() == em->0.alu_result
        },
        em is Some && em->0.record.op_type == OpType::Load ==> !(forward_source(
            rs,
            em,
            mw,
            registers,
        ) is ExMemAlu),
        forward_source(rs, em, mw, registers) is MemWbMem ==> {
            &&& rs != 0
            &&& !(em is Some && em->0.record.rd == rs && em->0.record.op_type != OpType::Load)
            &&& mw is Some
            &&& mw->0.record.rd == rs
            &&& mw->0.record.op_type == OpType::Load
            &&& forward_source(rs, em, mw, registers).val() == mw->0.mem_result
        },
        forward_source(rs, em, mw, registers) is MemWbAlu ==> {
            &&& rs != 0
            &&& !(em is Some && em->0.record.rd == rs && em->0.record.op_type != OpType::Load)
            &&& mw is Some
            &&& mw->0.record.rd == rs
            &&& mw->0.record.op_type != OpType::Load
            &&& forward_source(rs, em, mw, registers).val() == mw->0.alu_result
        },
        rs != 0 && forward_source(rs, em, mw, registers) is RegFile ==> {
            &&& !(em is Some && em->0.record.rd == rs && em->0.record.op_type != OpType::Load)
            &&& !(mw is Some && mw->0.record.rd == rs)
            &&& forward_source(rs, em, mw, registers).val() == registers[rs as int]
        },
{
}

/// The operand sources that hazard resolution reports for the instruction in
/// ID are the forwarding network's choices on the same latches and register
/// file, so in particular never the address of a load in EX/MEM.
pub proof fn lemma_resolve_reports_forwarding_choice(
    f: IfIdLatch,
    em: Option<ExMemLatch>,
    mw: Option<MemWbLatch>,
    registers: Seq<u64>,
)
    ensures
        id_operand_source(Some(f), true, em, mw, registers) == forward_source(
            f.record.rs1,
            em,
            mw,
            registers,
        ),
        id_operand_source(Some(f), false, em, mw, registers) == forward_source(
            f.record.rs2,
            em,
            mw,
            registers,
        ),
        id_operand_source(None, true, em, mw, registers) == ForwardSource::RegFile(0),
        id_operand_source(None, false, em, mw, registers) == ForwardSource::RegFile(0),
{
}

impl HazardUnit {
    /// Resolves all hazards and forwarding sources from a snapshot of the
    /// pipeline at the start of a cycle.
    pub fn resolve(snapshot: &PipelineSnapshot) -> (r: HazardResult)
        requires
            snapshot.fd matches Some(f) ==> {
                &&& operand_resolvable(f.record.rs1, snapshot.em, snapshot.mw)
                &&& operand_resolvable(f.record.rs2, snapshot.em, snapshot.mw)
            },
        ensures
            r.stall_if == load_use_hazard(snapshot.fd, snapshot.de),
            r.stall_id == load_use_hazard(snapshot.fd, snapshot.de),
            !r.flush_if,
            !r.flush_id,
            snapshot.fd matches Some(f) ==> r.fwd_src1 == forward_source(
                f.record.rs1,
                snapshot.em,
                snapshot.mw,
                snapshot.registers@,
            ),
            snapshot.fd matches Some(f) ==> r.fwd_src2 == forward_source(
                f.record.rs2,
                snapshot.em,
                snapshot.mw,
                snapshot.registers@,
            ),
            snapshot.fd is None ==> r.fwd_src1 == ForwardSource::RegFile(0) && r.fwd_src2
                == ForwardSource::RegFile(0),
            r.fwd_src1 == id_operand_source(
                snapshot.fd,
                true,
                snapshot.em,
                snapshot.mw,
                snapshot.registers@,
            ),
            r.fwd_src2 == id_operand_source(
                snapshot.fd,
                false,
                snapshot.em,
                snapshot.mw,
                snapshot.registers@,
            ),
    {
        let mut result = HazardResult::default();

        if let Some(ref de) = snapshot.de {
            if de.record.op_type == OpType::Load && de.record.rd != 0 {
                if let Some(ref fd) = snapshot.fd {
                    if fd.record.rs1 == de.record.rd || fd.record.rs2 == de.record.rd {
                        result.stall_if = true;
                        result.stall_id = true;
                    }
                }
            }
        }

        if let Some(ref fd) = snapshot.fd {
            result.fwd_src1 = Self::resolve_forward(fd.record.rs1, snapshot);
            result.fwd_src2 = Self::resolve_forward(fd.record.rs2, snapshot);
        }

        result
    }

    /// Resolves the source of one register operand.
    fn resolve_forward(rs: u8, snap: &PipelineSnapshot) -> (r: ForwardSource)
        requires
            operand_resolvable(rs, snap.em, snap.mw),
        ensures
            r == forward_source(rs, snap.em, snap.mw, snap.registers@),
    {
        if rs == 0 {
            return ForwardSource::RegFile(0);
        }
        if let Some(ref em) = snap.em {
            if em.record.rd == rs && em.record.op_type != OpType::Load {
                return ForwardSource::ExMemAlu(em.alu_result);
            }
        }
        if let Some(ref mw) = snap.mw {
            if mw.record.rd == rs {
                return if mw.record.op_type == OpType::Load {
                    ForwardSource::MemWbMem(mw.mem_result)
                } else {
                    ForwardSource::MemWbAlu(mw.alu_result)
                };
            }
        }
        ForwardSource::RegFile(snap.registers[rs as usize])
    }
}

} // verus!
