use trace_simulator::simulator::latches::{ExMemLatch, IfIdLatch, MemWbLatch};
use trace_simulator::simulator::Simulator;
use trace_simulator::trace::{OpType, TraceRecord};

fn r(op_type: OpType, rs1: u8, rs2: u8, rd: u8, mem_addr: u64, rd_val: u64) -> TraceRecord {
    TraceRecord { pc: 0x100, inst: 0, rs1, rs2, rd, op_type, mem_addr, rd_val }
}

fn run(sim: &mut Simulator) {
    while !sim.is_done() {
        sim.step_cycle();
    }
}

fn program() -> Vec<TraceRecord> {
    vec![
        r(OpType::Load, 4, 0, 1, 0x8000, 11),
        r(OpType::IntAlu, 1, 0, 2, 0, 22),
        r(OpType::Load, 2, 0, 3, 0x8008, 33),
        r(OpType::Store, 3, 1, 0, 0x9000, 0),
        r(OpType::Load, 0, 0, 5, 0x8010, 55),
        r(OpType::Branch, 0, 5, 0, 0, 1),
        TraceRecord { pc: 0x200, inst: 0, rs1: 0, rs2: 0, rd: 6, op_type: OpType::Jump, mem_addr: 0, rd_val: 0 },
        r(OpType::Store, 6, 0, 7, 0x9100, 0),
    ]
}

/// Sequential reference: every record writes its result, in program order.
fn reference(p: &[TraceRecord]) -> [u64; 32] {
    let mut regs = [0u64; 32];
    for rec in p {
        if rec.rd != 0 {
            regs[rec.rd as usize] = match rec.op_type {
                OpType::Load => rec.rd_val,
                OpType::Store => rec.mem_addr,
                OpType::Jump => rec.pc + 4,
                _ => rec.rd_val,
            };
        }
    }
    regs
}

#[test]
fn drained_state_is_sequential_result() {
    let p = program();
    let mut sim = Simulator::new();
    sim.load_trace(p.clone());
    run(&mut sim);
    assert_eq!(sim.registers, reference(&p));
    assert_eq!(sim.registers[7], 0x9100);
    assert_eq!(sim.registers[6], 0x204);
    assert_eq!(sim.inst_count, 8);
    assert_eq!(sim.op_stats.get(&OpType::Load), Some(&3));
    assert_eq!(sim.op_stats.get(&OpType::Store), Some(&2));
    assert_eq!(sim.op_stats.get(&OpType::IntAlu), Some(&1));
    assert_eq!(sim.op_stats.get(&OpType::Branch), Some(&1));
    assert_eq!(sim.op_stats.get(&OpType::Jump), Some(&1));
    assert_eq!(sim.op_stats.get(&OpType::System), None);
}

#[test]
fn run_time_is_records_plus_fill_plus_load_use_pairs() {
    // Load-use pairs: (0,1), (2,3), (4,5): three stalls.
    let p = program();
    let mut sim = Simulator::new();
    sim.load_trace(p);
    let mut k = 0u64;
    while !sim.is_done() {
        sim.step_cycle();
        k += 1;
    }
    assert_eq!(sim.stall_count, 3);
    assert_eq!(sim.cycle, 8 + 4 + 3);
    assert_eq!(k, sim.cycle);
}

#[test]
fn load_writing_x0_never_stalls() {
    let mut sim = Simulator::new();
    sim.load_trace(vec![r(OpType::Load, 4, 0, 0, 0x10, 5), r(OpType::IntAlu, 0, 0, 1, 0, 6)]);
    run(&mut sim);
    assert_eq!(sim.stall_count, 0);
    assert_eq!(sim.cycle, 2 + 4);
    assert_eq!(sim.registers[0], 0);
}

#[test]
fn drained_pipeline_only_counts_cycles() {
    let mut sim = Simulator::new();
    sim.load_trace(vec![r(OpType::IntAlu, 0, 0, 9, 0, 99)]);
    run(&mut sim);
    let regs = sim.registers;
    let (inst, stalls, fwds) = (sim.inst_count, sim.stall_count, sim.forward_count);
    sim.step_cycle();
    sim.step_cycle();
    assert!(sim.is_done());
    assert_eq!(sim.cycle, 5 + 2);
    assert_eq!(sim.registers, regs);
    assert_eq!((sim.inst_count, sim.stall_count, sim.forward_count), (inst, stalls, fwds));
}

#[test]
fn operands_read_in_id_are_program_order_values() {
    // x1 from a load two ahead (MEM/WB), x2 from an ALU op just ahead (EX/MEM).
    let mut sim = Simulator::new();
    sim.load_trace(vec![
        r(OpType::Load, 0, 0, 1, 0x40, 111),
        r(OpType::IntAlu, 0, 0, 2, 0, 222),
        r(OpType::IntAlu, 1, 2, 3, 0, 333),
    ]);
    for _ in 0..4 {
        sim.step_cycle();
    }
    let de = sim.de_latch.expect("third record in ID/EX");
    assert_eq!(de.record.rd, 3);
    assert_eq!(de.rs1_val, 111);
    assert_eq!(de.rs2_val, 222);
}

#[test]
fn stage_operations_equal_one_cycle() {
    let p = program();
    let mut a = Simulator::new();
    let mut b = Simulator::new();
    a.load_trace(p.clone());
    b.load_trace(p);
    for _ in 0..20 {
        a.step_cycle();
        b.stage_wb();
        b.stage_mem();
        b.stage_ex();
        b.stage_id();
        b.stage_if();
        b.cycle += 1;
        assert_eq!(a.registers, b.registers);
        assert_eq!(a.cycle, b.cycle);
        assert_eq!(a.inst_count, b.inst_count);
        assert_eq!(a.stall_count, b.stall_count);
        assert_eq!(a.forward_count, b.forward_count);
        assert_eq!(a.stall, b.stall);
        assert_eq!(a.fd_latch.map(|l| l.record), b.fd_latch.map(|l| l.record));
        assert_eq!(a.de_latch.map(|l| (l.record, l.rs1_val, l.rs2_val)), b.de_latch.map(|l| (l.record, l.rs1_val, l.rs2_val)));
        assert_eq!(a.em_latch.map(|l| (l.record, l.alu_result)), b.em_latch.map(|l| (l.record, l.alu_result)));
        assert_eq!(
            a.mw_latch.map(|l| (l.record, l.alu_result, l.mem_result)),
            b.mw_latch.map(|l| (l.record, l.alu_result, l.mem_result))
        );
        assert_eq!(a.trace.len(), b.trace.len());
    }
    assert!(a.is_done() && b.is_done());
}

#[test]
fn forward_counts_hits_and_prefers_ex_mem() {
    let mut sim = Simulator::new();
    sim.registers[3] = 7;
    sim.em_latch = Some(ExMemLatch::new(r(OpType::IntAlu, 0, 0, 3, 0, 50), 50));
    sim.mw_latch = Some(MemWbLatch::new(r(OpType::IntAlu, 0, 0, 3, 0, 40), 40, 0));
    assert_eq!(sim.forward(3), 50);
    assert_eq!(sim.forward(0), 0);
    assert_eq!(sim.forward(4), 0);
    assert_eq!(sim.forward_count, 1);
    sim.em_latch = Some(ExMemLatch::new(r(OpType::Load, 0, 0, 3, 0x10, 60), 0x10));
    assert_eq!(sim.forward(3), 40);
    sim.mw_latch = None;
    assert_eq!(sim.forward(3), 7);
    assert_eq!(sim.forward_count, 2);
}

#[test]
fn stall_freezes_fetch_for_one_cycle() {
    let mut sim = Simulator::new();
    sim.load_trace(vec![
        r(OpType::Load, 0, 0, 1, 0x40, 9),
        r(OpType::IntAlu, 1, 0, 2, 0, 10),
        r(OpType::IntAlu, 0, 0, 3, 0, 11),
    ]);
    sim.step_cycle();
    sim.step_cycle();
    sim.step_cycle();
    // The reader of x1 is held in IF/ID, a bubble enters ID/EX.
    assert!(sim.stall);
    assert!(sim.de_latch.is_none());
    assert_eq!(sim.fd_latch.map(|l| l.record.rd), Some(2));
    assert_eq!(sim.trace.len(), 1);
    sim.step_cycle();
    assert!(!sim.stall);
    assert_eq!(sim.de_latch.map(|l| l.rs1_val), Some(9));
    assert_eq!(sim.fd_latch.map(|l: IfIdLatch| l.record.rd), Some(3));
}
