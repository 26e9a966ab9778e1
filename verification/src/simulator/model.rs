//! Mathematical model of the simulator state and of one clock cycle.

use vstd::prelude::*;
use crate::trace::{OpType, TraceRecord};
use super::alu::{alu_computable, alu_result_of};
use super::hazard::{forward_source, load_use_hazard, operand_resolvable, ForwardSource};
use super::latches::{ExMemLatch, IdExLatch, IfIdLatch, MemWbLatch};
use super::lsu::load_value_of;
use super::stats::op_slot;

verus! {

/// The whole state of the simulator as mathematical values.
#[verifier::ext_equal]
pub struct SimState {
    /// Cycles simulated so far.
    pub cycle: nat,
    /// Instructions retired (counted in WB).
    pub inst_count: nat,
    /// Retired instructions per class, indexed by `op_slot`.
    pub op_stats: Seq<nat>,
    /// IF/ID latch.
    pub fd: Option<IfIdLatch>,
    /// ID/EX latch.
    pub de: Option<IdExLatch>,
    /// EX/MEM latch.
    pub em: Option<ExMemLatch>,
    /// MEM/WB latch.
    pub mw: Option<MemWbLatch>,
    /// Architectural register file (x0 is hard-wired to 0).
    pub registers: Seq<u64>,
    /// Records not yet fetched, in program order.
    pub trace: Seq<TraceRecord>,
    /// A load-use stall happened last cycle: IF is frozen.
    pub stall: bool,
    /// Load-use stalls so far.
    pub stall_count: nat,
    /// Operands taken from a latch rather than the register file so far.
    pub forward_count: nat,
}

/// The value that WB writes back from the MEM/WB latch: the loaded value for
/// a load, the ALU result otherwise.
pub open spec fn writeback_value(m: MemWbLatch) -> u64 {
    if m.record.op_type == OpType::Load {
        m.mem_result
    } else {
        m.alu_result
    }
}

/// 1 when the operand source is a forwarding hit, 0 otherwise.
pub open spec fn hit(s: ForwardSource) -> nat {
    if s.forwarded() {
        1
    } else {
        0
    }
}

/// A record can flow through the pipeline: its register indices name one of
/// the 32 registers and its ALU result can be computed.
pub open spec fn record_wf(r: TraceRecord) -> bool {
    &&& r.rs1 < 32
    &&& r.rs2 < 32
    &&& r.rd < 32
    &&& alu_computable(r)
}

/// Number of records of class `c` in `p`.
pub open spec fn count_of_class(p: Seq<TraceRecord>, c: OpType) -> nat
    decreases p.len(),
{
    if p.len() == 0 {
        0
    } else {
        count_of_class(p.drop_last(), c) + if p.last().op_type == c {
            1nat
        } else {
            0nat
        }
    }
}

/// The value an instruction leaves in its destination register in program
/// order: the loaded value for a load, the ALU result otherwise.
pub open spec fn result_of(r: TraceRecord) -> u64 {
    if r.op_type == OpType::Load {
        r.rd_val
    } else {
        alu_result_of(r)
    }
}

/// The register file after `r` retires: its result goes to its destination
/// register unless that is x0.
pub open spec fn retire(registers: Seq<u64>, r: TraceRecord) -> Seq<u64> {
    if r.rd != 0 {
        registers.update(r.rd as int, result_of(r))
    } else {
        registers
    }
}

/// The register file after the records of `p` retire one after another.
pub open spec fn retire_all(registers: Seq<u64>, p: Seq<TraceRecord>) -> Seq<u64>
    decreases p.len(),
{
    if p.len() == 0 {
        registers
    } else {
        retire(retire_all(registers, p.drop_last()), p.last())
    }
}

/// Number of records of each class in `p`, indexed by `op_slot`.
pub open spec fn class_counts(p: Seq<TraceRecord>) -> Seq<nat>
    decreases p.len(),
{
    if p.len() == 0 {
        Seq::new(7, |i: int| 0nat)
    } else {
        let c = class_counts(p.drop_last());
        c.update(op_slot(p.last().op_type), c[op_slot(p.last().op_type)] + 1)
    }
}

/// The record in a latch, as a sequence of zero or one records.
pub open spec fn held<L>(latch: Option<L>, record: spec_fn(L) -> TraceRecord) -> Seq<TraceRecord> {
    match latch {
        Some(l) => seq![record(l)],
        None => Seq::empty(),
    }
}

/// `b` reads the destination register of the load `a` just ahead of it: a
/// load-use pair, which costs one stall cycle.
pub open spec fn load_use_pair(a: TraceRecord, b: TraceRecord) -> bool {
    &&& a.op_type == OpType::Load
    &&& a.rd != 0
    &&& (b.rs1 == a.rd || b.rs2 == a.rd)
}

/// Number of adjacent load-use pairs in `p`.
pub open spec fn load_use_pairs(p: Seq<TraceRecord>) -> nat
    decreases p.len(),
{
    if p.len() < 2 {
        0
    } else {
        (if load_use_pair(p[0], p[1]) {
            1nat
        } else {
            0nat
        }) + load_use_pairs(p.drop_first())
    }
}

/// Cycles that a fresh simulator needs to run `p` until it has drained: four
/// to fill the pipeline, one per record and one per load-use stall.
pub open spec fn cycles_to_run(p: Seq<TraceRecord>) -> nat {
    if p.len() == 0 {
        0
    } else {
        p.len() + 4 + load_use_pairs(p)
    }
}

impl SimState {
    /// A fresh simulator: everything empty or zero.
    pub open spec fn initial() -> SimState {
        SimState {
            cycle: 0,
            inst_count: 0,
            op_stats: Seq::new(7, |i: int| 0nat),
            fd: None,
            de: None,
            em: None,
            mw: None,
            registers: Seq::new(32, |i: int| 0u64),
            trace: Seq::empty(),
            stall: false,
            stall_count: 0,
            forward_count: 0,
        }
    }

    /// No instruction waits to be fetched and every latch is empty.
    pub open spec fn drained(self) -> bool {
        &&& self.trace.len() == 0
        &&& self.fd is None
        &&& self.de is None
        &&& self.em is None
        &&& self.mw is None
    }

    /// WB: the instruction in MEM/WB writes its result to its destination
    /// register (unless that is x0) and is counted as retired. The latch
    /// itself is overwritten by MEM.
    pub open spec fn retire_stage(self) -> SimState {
        match self.mw {
            Some(m) => SimState {
                registers: if m.record.rd != 0 {
                    self.registers.update(m.record.rd as int, writeback_value(m))
                } else {
                    self.registers
                },
                inst_count: self.inst_count + 1,
                op_stats: self.op_stats.update(
                    op_slot(m.record.op_type),
                    self.op_stats[op_slot(m.record.op_type)] + 1,
                ),
                ..self
            },
            None => self,
        }
    }

    /// MEM: EX/MEM moves into MEM/WB; a load obtains its loaded value.
    pub open spec fn memory_stage(self) -> SimState {
        SimState {
            mw: match self.em {
                Some(e) => Some(
                    MemWbLatch {
                        record: e.record,
                        alu_result: e.alu_result,
                        mem_result: load_value_of(e.record),
                    },
                ),
                None => None,
            },
            em: None,
            ..self
        }
    }

    /// EX: ID/EX moves into EX/MEM with its ALU result.
    pub open spec fn execute_stage(self) -> SimState {
        SimState {
            em: match self.de {
                Some(d) => Some(ExMemLatch { record: d.record, alu_result: alu_result_of(d.record) }),
                None => None,
            },
            de: None,
            ..self
        }
    }

    /// ID: on a load-use `hazard` IF/ID is frozen and a bubble enters ID/EX;
    /// otherwise IF/ID moves into ID/EX with its operands read through the
    /// forwarding network, and every forwarding hit is counted.
    pub open spec fn decode_stage(self, hazard: bool) -> SimState {
        if hazard {
            SimState { stall: true, stall_count: self.stall_count + 1, de: None, ..self }
        } else {
            match self.fd {
                Some(f) => {
                    let s1 = forward_source(f.record.rs1, self.em, self.mw, self.registers);
                    let s2 = forward_source(f.record.rs2, self.em, self.mw, self.registers);
                    SimState {
                        stall: false,
                        fd: None,
                        de: Some(IdExLatch { record: f.record, rs1_val: s1.val(), rs2_val: s2.val() }),
                        forward_count: self.forward_count + hit(s1) + hit(s2),
                        ..self
                    }
                },
                None => SimState { stall: false, de: None, ..self },
            }
        }
    }

    /// IF: unless stalled or IF/ID is still occupied, the next record of the
    /// trace enters IF/ID.
    pub open spec fn fetch_stage(self) -> SimState {
        if !self.stall && self.fd is None && self.trace.len() > 0 {
            SimState {
                fd: Some(IfIdLatch { record: self.trace[0] }),
                trace: self.trace.drop_first(),
                ..self
            }
        } else {
            self
        }
    }

    /// The state in which ID works: after WB, MEM and EX have committed.
    pub open spec fn before_decode(self) -> SimState {
        self.retire_stage().memory_stage().execute_stage()
    }

    /// One clock cycle. The load-use hazard is detected on the state at the
    /// start of the cycle; the stages then commit in reverse order
    /// (WB, MEM, EX, ID, IF), so that ID forwards from the latches that EX
    /// and MEM have just written.
    pub open spec fn step(self) -> SimState {
        let hazard = load_use_hazard(self.fd, self.de);
        let s = self.before_decode().decode_stage(hazard).fetch_stage();
        SimState { cycle: self.cycle + 1, ..s }
    }

    /// `k` consecutive cycles.
    pub open spec fn steps(self, k: nat) -> SimState
        decreases k,
    {
        if k == 0 {
            self
        } else {
            self.step().steps((k - 1) as nat)
        }
    }

    /// The records in flight that are older than the one in IF/ID, oldest
    /// first: those in MEM/WB, EX/MEM and ID/EX.
    pub open spec fn older_in_flight(self) -> Seq<TraceRecord> {
        held(self.mw, |l: MemWbLatch| l.record) + held(self.em, |l: ExMemLatch| l.record) + held(
            self.de,
            |l: IdExLatch| l.record,
        )
    }

    /// All records in flight, oldest first.
    pub open spec fn in_flight(self) -> Seq<TraceRecord> {
        self.older_in_flight() + held(self.fd, |l: IfIdLatch| l.record)
    }

    /// Every record not yet retired, in program order: those in flight, then
    /// those waiting to be fetched.
    pub open spec fn pending(self) -> Seq<TraceRecord> {
        self.in_flight() + self.trace
    }

    /// Invariant of every state that a fresh simulator reaches by loading
    /// well-formed records and stepping: x0 reads 0, each class count is at
    /// most the retired count, every pending record is well-formed, the EX/MEM and MEM/WB latches hold the results of their
    /// records, and a stall leaves IF/ID occupied and a bubble in ID/EX.
    pub open spec fn wf(self) -> bool {
        &&& self.registers.len() == 32
        &&& self.registers[0] == 0
        &&& self.op_stats.len() == 7
        &&& forall|i: int| 0 <= i < 7 ==> #[trigger] self.op_stats[i] <= self.inst_count
        &&& forall|i: int| 0 <= i < self.pending().len() ==> record_wf(#[trigger] self.pending()[i])
        &&& self.em matches Some(e) ==> e.alu_result == alu_result_of(e.record)
        &&& self.mw matches Some(m) ==> {
            &&& m.alu_result == alu_result_of(m.record)
            &&& m.mem_result == load_value_of(m.record)
        }
        &&& self.stall ==> self.fd is Some && self.de is None
    }

    /// The records that have not yet left ID, in program order: those in
    /// ID/EX and IF/ID and those waiting to be fetched.
    pub open spec fn undecoded(self) -> Seq<TraceRecord> {
        held(self.de, |l: IdExLatch| l.record) + held(self.fd, |l: IfIdLatch| l.record) + self.trace
    }

    /// Load-use stalls still to come: one per adjacent load-use pair among
    /// the records that have not yet left ID.
    pub open spec fn stalls_ahead(self) -> nat {
        load_use_pairs(self.undecoded())
    }

    /// Cycles until the pipeline has drained. While records remain to leave
    /// ID, one leaves per cycle, each stall costs a cycle, an empty ID/EX
    /// (and, before the first fetch, an empty IF/ID) costs a cycle to refill,
    /// and the last record then needs two more cycles through MEM and WB;
    /// otherwise EX/MEM and MEM/WB just empty out.
    pub open spec fn cycles_to_drain(self) -> nat {
        let u = self.undecoded().len();
        if u == 0 {
            if self.em is Some {
                2
            } else if self.mw is Some {
                1
            } else {
                0
            }
        } else {
            (if self.de is None {
                1nat
            } else {
                0nat
            }) + (if self.de is None && self.fd is None {
                1nat
            } else {
                0nat
            }) + u + self.stalls_ahead() + 2
        }
    }

    /// Before the first fetch the whole pipeline is empty: an IF/ID latch
    /// left empty with records still waiting to be fetched only occurs with
    /// an empty ID/EX.
    pub open spec fn fetch_ready(self) -> bool {
        self.fd is None && self.trace.len() > 0 ==> self.de is None
    }

    /// A fresh simulator with `program` loaded.
    pub open spec fn loaded(program: Seq<TraceRecord>) -> SimState {
        SimState { trace: program, ..SimState::initial() }
    }

    /// The state is one that running `program` on a fresh simulator passes
    /// through: it keeps the invariant, the first `inst_count` records of
    /// `program` have retired, in order, into the register file and the
    /// class counts, and the rest are pending in program order.
    pub open spec fn follows(self, program: Seq<TraceRecord>) -> bool {
        &&& self.wf()
        &&& self.inst_count <= program.len()
        &&& self.pending() == program.skip(self.inst_count as int)
        &&& self.registers == retire_all(
            Seq::new(32, |i: int| 0u64),
            program.take(self.inst_count as int),
        )
        &&& self.op_stats == class_counts(program.take(self.inst_count as int))
    }

    /// One cycle can be simulated without an index out of range or a counter
    /// overflow.
    pub open spec fn can_step(self) -> bool {
        let hazard = load_use_hazard(self.fd, self.de);
        let t = self.before_decode();
        &&& self.registers.len() == 32
        &&& self.op_stats.len() == 7
        &&& self.cycle + 1 <= u64::MAX
        &&& self.mw matches Some(m) ==> {
            &&& m.record.rd < 32
            &&& self.inst_count + 1 <= u64::MAX
            &&& self.op_stats[op_slot(m.record.op_type)] + 1 <= u64::MAX
        }
        &&& self.de matches Some(d) ==> alu_computable(d.record)
        &&& self.fd matches Some(f) ==> {
            &&& operand_resolvable(f.record.rs1, self.em, self.mw)
            &&& operand_resolvable(f.record.rs2, self.em, self.mw)
        }
        &&& hazard ==> self.stall_count + 1 <= u64::MAX
        &&& !hazard ==> (self.fd matches Some(f) ==> {
            let s1 = forward_source(f.record.rs1, t.em, t.mw, t.registers);
            let s2 = forward_source(f.record.rs2, t.em, t.mw, t.registers);
            &&& operand_resolvable(f.record.rs1, t.em, t.mw)
            &&& operand_resolvable(f.record.rs2, t.em, t.mw)
            &&& self.forward_count + hit(s1) + hit(s2) <= u64::MAX
        })
    }
}

} // verus!
