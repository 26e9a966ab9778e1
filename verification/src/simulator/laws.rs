//! Laws of the pipeline model, proved over `SimState`.

use vstd::prelude::*;
use crate::trace::{OpType, TraceRecord};
use super::alu::lemma_alu_result_by_class;
use super::hazard::{load_use_hazard, load_use_in_ex};
use super::latches::{ExMemLatch, IdExLatch, IfIdLatch, MemWbLatch};
use super::model::{
    class_counts, count_of_class, cycles_to_run, held, load_use_pair, load_use_pairs, record_wf, result_of, retire,
    retire_all, writeback_value, SimState,
};
use super::stats::{lemma_op_slot_injective, op_slot};

verus! {

/// One cycle of `step_cycle` is the same as the stage operations performed
/// in the order WB, MEM, EX, ID, IF, followed by the cycle count: the hazard
/// that `step_cycle` detects on the ID/EX latch at the start of the cycle is
/// the one that `stage_id` detects on the EX/MEM latch after EX.
pub proof fn lemma_cycle_is_stage_sequence(s: SimState)
    ensures
        ({
            let x = s.retire_stage().memory_stage().execute_stage();
            let t = x.decode_stage(load_use_in_ex(x.fd, x.em)).fetch_stage();
            s.step() == SimState { cycle: s.cycle + 1, ..t }
        }),
{
}

proof fn lemma_memory_stage_pending(s: SimState)
    ensures
        s.memory_stage().pending() =~= s.pending().skip(if s.mw is Some { 1int } else { 0int }),
{
    let m = s.memory_stage();
    let hm = held(s.mw, |l: MemWbLatch| l.record);
    let rest = held(s.em, |l: ExMemLatch| l.record) + held(s.de, |l: IdExLatch| l.record) + held(
        s.fd,
        |l: IfIdLatch| l.record,
    ) + s.trace;
    assert(held(m.mw, |l: MemWbLatch| l.record) =~= held(s.em, |l: ExMemLatch| l.record));
    assert(held(m.em, |l: ExMemLatch| l.record) =~= Seq::<TraceRecord>::empty());
    assert(s.pending() =~= hm + rest);
    assert(m.pending() =~= rest);
    assert((hm + rest).skip(hm.len() as int) =~= rest);
    if let Some(x) = s.mw {
        assert(hm =~= seq![x.record]);
    } else {
        assert(hm =~= Seq::<TraceRecord>::empty());
    }
}

proof fn lemma_execute_stage_pending(s: SimState)
    requires
        s.em is None,
    ensures
        s.execute_stage().pending() =~= s.pending(),
{
    let m = s.execute_stage();
    assert(held(m.em, |l: ExMemLatch| l.record) =~= held(s.de, |l: IdExLatch| l.record));
    assert(held(m.de, |l: IdExLatch| l.record) =~= Seq::<TraceRecord>::empty());
}

proof fn lemma_decode_stage_pending(s: SimState, hazard: bool)
    requires
        s.de is None,
    ensures
        s.decode_stage(hazard).pending() =~= s.pending(),
{
    let m = s.decode_stage(hazard);
    if !hazard {
        assert(held(m.de, |l: IdExLatch| l.record) =~= held(s.fd, |l: IfIdLatch| l.record));
        assert(held(m.fd, |l: IfIdLatch| l.record) =~= Seq::<TraceRecord>::empty());
    }
}

proof fn lemma_fetch_stage_pending(s: SimState)
    ensures
        s.fetch_stage().pending() =~= s.pending(),
{
    let m = s.fetch_stage();
    if !s.stall && s.fd is None && s.trace.len() > 0 {
        assert(held(m.fd, |l: IfIdLatch| l.record) =~= seq![s.trace[0]]);
        assert(s.trace =~= seq![s.trace[0]] + s.trace.drop_first());
    }
}

/// A cycle retires the oldest pending record when one is in MEM/WB and
/// keeps all other pending records in program order: they neither get lost,
/// nor duplicated, nor reordered.
pub proof fn lemma_step_keeps_program_order(s: SimState)
    ensures
        s.step().pending() =~= s.pending().skip(if s.mw is Some { 1int } else { 0int }),
{
    let a = s.retire_stage();
    let b = a.memory_stage();
    let c = b.execute_stage();
    let d = c.decode_stage(load_use_hazard(s.fd, s.de));
    lemma_memory_stage_pending(a);
    lemma_execute_stage_pending(b);
    lemma_decode_stage_pending(c, load_use_hazard(s.fd, s.de));
    lemma_fetch_stage_pending(d);
    assert(a.pending() == s.pending());
}

/// Every cycle keeps the invariant of reachable states.
pub proof fn lemma_step_preserves_wf(s: SimState)
    requires
        s.wf(),
    ensures
        s.step().wf(),
{
    let t = s.step();
    lemma_step_keeps_program_order(s);
    let k = if s.mw is Some { 1int } else { 0int };
    assert forall|i: int| 0 <= i < t.pending().len() implies record_wf(#[trigger] t.pending()[i]) by {
        assert(t.pending()[i] == s.pending()[i + k]);
    }
    if let Some(m) = s.mw {
        assert(s.pending()[0] == m.record);
        assert(record_wf(s.pending()[0]));
        let j = op_slot(m.record.op_type);
        assert forall|i: int| 0 <= i < 7 implies #[trigger] t.op_stats[i] <= t.inst_count by {
            if i != j {
                assert(t.op_stats[i] == s.op_stats[i]);
            }
        }
    }
}

/// The records in the latches of a state of the invariant are well-formed.
pub proof fn lemma_latch_records_wf(s: SimState)
    requires
        s.wf(),
    ensures
        s.mw matches Some(m) ==> record_wf(m.record),
        s.em matches Some(e) ==> record_wf(e.record),
        s.de matches Some(d) ==> record_wf(d.record),
        s.fd matches Some(f) ==> record_wf(f.record),
{
    let a = held(s.mw, |l: MemWbLatch| l.record);
    let b = held(s.em, |l: ExMemLatch| l.record);
    let c = held(s.de, |l: IdExLatch| l.record);
    let d = held(s.fd, |l: IfIdLatch| l.record);
    let p = s.pending();
    assert(p =~= a + b + c + d + s.trace);
    if let Some(m) = s.mw {
        assert(p[0] == m.record);
    }
    if let Some(e) = s.em {
        assert(p[a.len() as int] == e.record);
    }
    if let Some(x) = s.de {
        assert(p[a.len() + b.len() as int] == x.record);
    }
    if let Some(f) = s.fd {
        assert(p[a.len() + b.len() + c.len() as int] == f.record);
    }
}

/// In a state of the invariant whose counters are below their limits
/// (cycles, retired instructions and stalls below `u64::MAX`, forwarding
/// hits at most `u64::MAX - 2`), a cycle can always be simulated.
pub proof fn lemma_wf_can_step(s: SimState)
    requires
        s.wf(),
        s.cycle < u64::MAX,
        s.inst_count < u64::MAX,
        s.stall_count < u64::MAX,
        s.forward_count + 2 <= u64::MAX,
    ensures
        s.can_step(),
{
    lemma_latch_records_wf(s);
    if let Some(m) = s.mw {
        assert(s.op_stats[op_slot(m.record.op_type)] <= s.inst_count);
    }
}

/// x0 stays hard-wired to 0: no cycle writes it.
pub proof fn lemma_x0_stays_zero(s: SimState)
    requires
        s.wf(),
    ensures
        s.step().registers[0] == 0,
{
    lemma_step_preserves_wf(s);
}

/// Once drained, the pipeline stays drained and a cycle changes nothing but
/// the cycle count.
pub proof fn lemma_drained_is_idle(s: SimState)
    requires
        s.wf(),
        s.drained(),
    ensures
        s.step() == (SimState { cycle: s.cycle + 1, ..s }),
{
}

proof fn lemma_retire_all_push(r: Seq<u64>, p: Seq<TraceRecord>, x: TraceRecord)
    ensures
        retire_all(r, p.push(x)) == retire(retire_all(r, p), x),
{
    assert(p.push(x).drop_last() =~= p);
}

proof fn lemma_retire_all_held<L>(
    r: Seq<u64>,
    p: Seq<TraceRecord>,
    l: Option<L>,
    f: spec_fn(L) -> TraceRecord,
)
    ensures
        retire_all(r, p + held(l, f)) == match l {
            Some(x) => retire(retire_all(r, p), f(x)),
            None => retire_all(r, p),
        },
{
    match l {
        Some(x) => {
            assert(p + held(l, f) =~= p.push(f(x)));
            lemma_retire_all_push(r, p, f(x));
        },
        None => {
            assert(p + held(l, f) =~= p);
        },
    }
}

/// The value that the writeback of a MEM/WB latch of a state of the
/// invariant produces is the result of its record.
proof fn lemma_writeback_is_result(s: SimState)
    requires
        s.wf(),
    ensures
        s.mw matches Some(m) ==> writeback_value(m) == result_of(m.record),
{
}

/// The operand values that an instruction reads in ID are the values that
/// its source registers hold once every older instruction in flight has
/// retired in program order (x0 reads 0): as long as the load-use stall
/// keeps a reader back from a load just ahead of it, forwarding is
/// invisible to the program.
pub proof fn lemma_operands_are_program_order_values(s: SimState)
    requires
        s.wf(),
        s.fd is Some,
        !load_use_hazard(s.fd, s.de),
    ensures
        ({
            let f = s.fd->0;
            let arch = retire_all(s.registers, s.older_in_flight());
            s.step().de == Some(
                IdExLatch {
                    record: f.record,
                    rs1_val: arch[f.record.rs1 as int],
                    rs2_val: arch[f.record.rs2 as int],
                },
            )
        }),
{
    lemma_latch_records_wf(s);
    let e0: Seq<TraceRecord> = Seq::empty();
    let hm = held(s.mw, |l: MemWbLatch| l.record);
    let he = held(s.em, |l: ExMemLatch| l.record);
    let hd = held(s.de, |l: IdExLatch| l.record);
    assert(e0 + hm =~= hm);
    lemma_retire_all_held(s.registers, e0, s.mw, |l: MemWbLatch| l.record);
    lemma_retire_all_held(s.registers, hm, s.em, |l: ExMemLatch| l.record);
    lemma_retire_all_held(s.registers, hm + he, s.de, |l: IdExLatch| l.record);
    assert(retire_all(s.registers, e0) == s.registers);
}

/// Loading well-formed records into a fresh simulator gives a state that
/// follows the program made of those records.
pub proof fn lemma_loaded_follows(program: Seq<TraceRecord>)
    requires
        forall|i: int| 0 <= i < program.len() ==> record_wf(#[trigger] program[i]),
    ensures
        SimState::loaded(program).follows(program),
{
    let s = SimState::loaded(program);
    assert(s.in_flight() =~= Seq::<TraceRecord>::empty());
    assert(s.pending() =~= program);
    assert(program.take(0) =~= Seq::<TraceRecord>::empty());
    assert(program.skip(0) =~= program);
}

/// A cycle of a state that follows a program gives a state that follows it:
/// the record that retires is the next one of the program, and the register
/// file and the class counts take in exactly its result.
pub proof fn lemma_step_follows(s: SimState, program: Seq<TraceRecord>)
    requires
        s.follows(program),
    ensures
        s.step().follows(program),
{
    lemma_step_preserves_wf(s);
    lemma_step_keeps_program_order(s);
    let t = s.step();
    let c = s.inst_count as int;
    if let Some(m) = s.mw {
        assert(s.pending()[0] == m.record);
        assert(program[c] == m.record);
        assert(program.take(c + 1).drop_last() =~= program.take(c));
        assert(program.take(c + 1).last() == program[c]);
        assert(program.skip(c + 1) =~= program.skip(c).skip(1));
        lemma_writeback_is_result(s);
        let z = Seq::new(32, |i: int| 0u64);
        assert(retire_all(z, program.take(c + 1)) == retire(retire_all(z, program.take(c)), program[c]));
        assert(t.registers == retire(s.registers, m.record));
        assert(t.registers == retire_all(z, program.take(c + 1)));
        assert(t.op_stats == class_counts(program.take(c + 1)));
        assert(t.pending() == program.skip(c + 1));
        assert(t.inst_count <= program.len());
    } else {
        assert(t.registers == s.registers);
        assert(s.pending().skip(0) =~= s.pending());
        assert(t.pending() == s.pending());
    }
}

/// The result of running a program: a state that follows `program` and has
/// drained has retired every record, its register file is that of the
/// records retired in program order from all-zero registers, and its class
/// counts are those of the program.
pub proof fn lemma_drained_holds_program_result(s: SimState, program: Seq<TraceRecord>)
    requires
        s.follows(program),
        s.drained(),
    ensures
        s.inst_count == program.len(),
        s.registers == retire_all(Seq::new(32, |i: int| 0u64), program),
        s.op_stats == class_counts(program),
{
    assert(s.in_flight() =~= Seq::<TraceRecord>::empty());
    assert(s.pending().len() == 0);
    assert(program.take(program.len() as int) =~= program);
}

/// Functional correctness of the pipeline: from a fresh simulator loaded
/// with well-formed records, every number of cycles leads to a state that
/// follows the program, and once the pipeline has drained, exactly the
/// program's records have retired, the register file holds their results
/// in program order and the class counts are the program's.
pub proof fn lemma_run_computes_program_result(program: Seq<TraceRecord>, k: nat)
    requires
        forall|i: int| 0 <= i < program.len() ==> record_wf(#[trigger] program[i]),
    ensures
        SimState::loaded(program).steps(k).follows(program),
        SimState::loaded(program).steps(k).drained() ==> {
            &&& SimState::loaded(program).steps(k).inst_count == program.len()
            &&& SimState::loaded(program).steps(k).registers == retire_all(
                Seq::new(32, |i: int| 0u64),
                program,
            )
            &&& SimState::loaded(program).steps(k).op_stats == class_counts(program)
        },
{
    lemma_loaded_follows(program);
    lemma_steps_follow(SimState::loaded(program), program, k);
    if SimState::loaded(program).steps(k).drained() {
        lemma_drained_holds_program_result(SimState::loaded(program).steps(k), program);
    }
}

proof fn lemma_steps_follow(s: SimState, program: Seq<TraceRecord>, k: nat)
    requires
        s.follows(program),
    ensures
        s.steps(k).follows(program),
    decreases k,
{
    if k > 0 {
        lemma_step_follows(s, program);
        lemma_steps_follow(s.step(), program, (k - 1) as nat);
    }
}

proof fn lemma_pairs_cons(x: TraceRecord, rest: Seq<TraceRecord>)
    requires
        rest.len() > 0,
    ensures
        load_use_pairs(seq![x] + rest) == (if load_use_pair(x, rest[0]) {
            1nat
        } else {
            0nat
        }) + load_use_pairs(rest),
{
    let p = seq![x] + rest;
    assert(p.drop_first() =~= rest);
    assert(p[0] == x);
    assert(p[1] == rest[0]);
}

/// Each cycle of a state of the invariant that has not drained takes one
/// cycle off the cycles left until it drains, and every stall that happens
/// is one of the stalls ahead.
pub proof fn lemma_step_progress(s: SimState)
    requires
        s.wf(),
        s.fetch_ready(),
        !s.drained(),
    ensures
        s.step().fetch_ready(),
        s.step().cycles_to_drain() + 1 == s.cycles_to_drain(),
        s.step().stall_count + s.step().stalls_ahead() == s.stall_count + s.stalls_ahead(),
        s.step().cycle == s.cycle + 1,
{
    let t = s.step();
    let e: Seq<TraceRecord> = Seq::empty();
    let hd = held(s.de, |l: IdExLatch| l.record);
    let hf = held(s.fd, |l: IfIdLatch| l.record);
    let u = s.undecoded();
    let hazard = load_use_hazard(s.fd, s.de);
    if let Some(d) = s.de {
        assert(hd =~= seq![d.record]);
        if let Some(f) = s.fd {
            assert(hf =~= seq![f.record]);
            assert(u =~= seq![d.record] + (seq![f.record] + s.trace));
            lemma_pairs_cons(d.record, seq![f.record] + s.trace);
            assert((seq![f.record] + s.trace)[0] == f.record);
            if hazard {
                assert(t.undecoded() =~= seq![f.record] + s.trace);
            } else if s.trace.len() > 0 {
                assert(t.undecoded() =~= seq![f.record] + s.trace);
            } else {
                assert(t.undecoded() =~= seq![f.record]);
                assert(seq![f.record] + s.trace =~= seq![f.record]);
            }
        } else {
            assert(s.trace.len() == 0);
            assert(u =~= seq![d.record]);
            assert(t.undecoded() =~= e);
        }
    } else {
        assert(hd =~= e);
        if let Some(f) = s.fd {
            assert(hf =~= seq![f.record]);
            if s.trace.len() > 0 {
                assert(t.undecoded() =~= seq![f.record] + (seq![s.trace[0]] + s.trace.drop_first()));
                assert(s.trace =~= seq![s.trace[0]] + s.trace.drop_first());
                assert(u =~= t.undecoded());
            } else {
                assert(t.undecoded() =~= seq![f.record]);
                assert(u =~= seq![f.record]);
            }
        } else {
            assert(hf =~= e);
            if s.trace.len() > 0 {
                assert(t.undecoded() =~= seq![s.trace[0]] + s.trace.drop_first());
                assert(s.trace =~= seq![s.trace[0]] + s.trace.drop_first());
                assert(u =~= s.trace);
            } else {
                assert(u =~= e);
                assert(t.undecoded() =~= e);
            }
        }
    }
}

proof fn lemma_drained_iff_no_cycles_left(s: SimState)
    ensures
        s.drained() <==> s.cycles_to_drain() == 0,
        s.drained() ==> s.stalls_ahead() == 0,
{
    if s.drained() {
        assert(s.undecoded() =~= Seq::<TraceRecord>::empty());
    }
    if s.undecoded().len() == 0 {
        assert(held(s.de, |l: IdExLatch| l.record).len() == 0);
        assert(held(s.fd, |l: IfIdLatch| l.record).len() == 0);
    }
}

proof fn lemma_steps_progress(s: SimState, k: nat)
    requires
        s.wf(),
        s.fetch_ready(),
    ensures
        s.steps(k).wf(),
        s.steps(k).fetch_ready(),
        s.steps(k).cycle == s.cycle + k,
        s.steps(k).cycles_to_drain() == if k <= s.cycles_to_drain() {
            s.cycles_to_drain() - k
        } else {
            0
        },
        s.steps(k).stall_count + s.steps(k).stalls_ahead() == s.stall_count + s.stalls_ahead(),
    decreases k,
{
    if k > 0 {
        lemma_drained_iff_no_cycles_left(s);
        lemma_step_preserves_wf(s);
        if s.drained() {
            lemma_drained_is_idle(s);
            lemma_drained_iff_no_cycles_left(s.step());
        } else {
            lemma_step_progress(s);
        }
        lemma_steps_progress(s.step(), (k - 1) as nat);
    }
}

/// Timing of a run: a fresh simulator loaded with well-formed records
/// drains after exactly `cycles_to_run` cycles (four to fill the pipeline,
/// one per record and one per adjacent load-use pair) and not before; by
/// then it has stalled once per load-use pair, and the cycle counter counts
/// the cycles run.
pub proof fn lemma_run_takes_cycles(program: Seq<TraceRecord>, k: nat)
    requires
        forall|i: int| 0 <= i < program.len() ==> record_wf(#[trigger] program[i]),
    ensures
        SimState::loaded(program).steps(k).drained() <==> k >= cycles_to_run(program),
        SimState::loaded(program).steps(k).cycle == k,
        k >= cycles_to_run(program) ==> SimState::loaded(program).steps(k).stall_count
            == load_use_pairs(program),
{
    let s = SimState::loaded(program);
    lemma_loaded_follows(program);
    assert(s.undecoded() =~= program);
    lemma_steps_progress(s, k);
    lemma_drained_iff_no_cycles_left(s.steps(k));
}

/// What retiring an instruction does to the register file: its
/// destination register (unless x0) receives the traced value for a load
/// and for the classes without an address or link (integer ALU, branch,
/// system, unknown), the effective address for a store and the return
/// address `pc + 4` for a jump; every other register keeps its value.
pub proof fn lemma_retire_writes_destination(registers: Seq<u64>, r: TraceRecord)
    requires
        registers.len() == 32,
        record_wf(r),
    ensures
        retire(registers, r).len() == 32,
        forall|i: int| 0 <= i < 32 && i != r.rd ==> #[trigger] retire(registers, r)[i] == registers[i],
        r.rd == 0 ==> retire(registers, r) == registers,
        r.rd != 0 ==> retire(registers, r)[r.rd as int] == if r.op_type == OpType::Store {
            r.mem_addr
        } else if r.op_type == OpType::Jump {
            (r.pc + 4) as u64
        } else {
            r.rd_val
        },
{
    lemma_alu_result_by_class(r);
}

/// The class counts of a program: the counter of each class is the number
/// of records of that class, and there are exactly seven counters.
pub proof fn lemma_class_counts_count(p: Seq<TraceRecord>)
    ensures
        class_counts(p).len() == 7,
        forall|c: OpType| #[trigger] class_counts(p)[op_slot(c)] == count_of_class(p, c),
    decreases p.len(),
{
    if p.len() > 0 {
        lemma_class_counts_count(p.drop_last());
        assert forall|c: OpType| #[trigger] class_counts(p)[op_slot(c)] == count_of_class(p, c) by {
            lemma_op_slot_injective(c, p.last().op_type);
            lemma_op_slot_injective(p.last().op_type, c);
        }
    }
}

} // verus!
