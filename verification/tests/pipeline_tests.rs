use trace_simulator::simulator::Simulator;
use trace_simulator::trace::{OpType, TraceRecord};

fn make_alu(pc: u64, rs1: u8, rs2: u8, rd: u8, rd_val: u64) -> TraceRecord {
    TraceRecord { pc, inst: 0, rs1, rs2, rd, op_type: OpType::IntAlu, mem_addr: 0, rd_val }
}

fn make_load(pc: u64, rs1: u8, rd: u8, rd_val: u64) -> TraceRecord {
    TraceRecord { pc, inst: 0, rs1, rs2: 0, rd, op_type: OpType::Load, mem_addr: 0x8000_0000, rd_val }
}

fn make_store(pc: u64, rs1: u8, rs2: u8, mem_addr: u64) -> TraceRecord {
    TraceRecord { pc, inst: 0, rs1, rs2, rd: 0, op_type: OpType::Store, mem_addr, rd_val: 0 }
}

fn make_jump(pc: u64, rd: u8) -> TraceRecord {
    TraceRecord { pc, inst: 0, rs1: 0, rs2: 0, rd, op_type: OpType::Jump, mem_addr: 0, rd_val: 0 }
}

fn make_branch(pc: u64, rs1: u8, rs2: u8) -> TraceRecord {
    TraceRecord { pc, inst: 0, rs1, rs2, rd: 0, op_type: OpType::Branch, mem_addr: 0, rd_val: 0 }
}

fn run(sim: &mut Simulator) {
    while !sim.is_done() {
        sim.step_cycle();
    }
}

#[test]
fn tests_test_basic_pipeline_flow() {
    let mut sim = Simulator::new();
    sim.load_trace(vec![
        make_alu(0x100, 0, 0, 1, 10),
        make_alu(0x104, 0, 0, 2, 20),
        make_alu(0x108, 0, 0, 3, 30),
    ]);
    run(&mut sim);
    assert_eq!(sim.cycle, 7);
    assert_eq!(sim.inst_count, 3);
    assert_eq!(sim.registers[1], 10);
    assert_eq!(sim.registers[2], 20);
    assert_eq!(sim.registers[3], 30);
}

#[test]
fn tests_test_alu_forwarding() {
    let mut sim = Simulator::new();
    sim.load_trace(vec![make_alu(0x100, 4, 5, 1, 42), make_alu(0x104, 1, 0, 2, 84)]);
    run(&mut sim);
    assert!(sim.forward_count >= 1);
    assert_eq!(sim.registers[1], 42);
    assert_eq!(sim.registers[2], 84);
    assert_eq!(sim.stall_count, 0);
}

#[test]
fn tests_test_load_use_stall() {
    let mut sim = Simulator::new();
    sim.load_trace(vec![make_load(0x100, 4, 1, 99), make_alu(0x104, 1, 0, 2, 199)]);
    run(&mut sim);
    assert_eq!(sim.stall_count, 1);
    assert_eq!(sim.registers[1], 99);
    assert_eq!(sim.registers[2], 199);
}

#[test]
fn tests_test_independent_instructions_ipc() {
    let mut sim = Simulator::new();
    let n = 100;
    let records: Vec<TraceRecord> =
        (0..n).map(|i| make_alu(i * 4, 0, 0, (i % 31 + 1) as u8, i)).collect();
    sim.load_trace(records);
    run(&mut sim);
    let expected_cycles = 4 + n;
    assert_eq!(sim.cycle, expected_cycles);
    assert_eq!(sim.inst_count, n);
    let ipc = sim.inst_count as f64 / sim.cycle as f64;
    println!("无依赖 IPC: {:.3}", ipc);
    assert!(ipc > 0.9);
}

#[test]
fn tests_test_store_pipeline() {
    let mut sim = Simulator::new();
    sim.load_trace(vec![make_alu(0x100, 0, 0, 5, 0xDEAD), make_store(0x104, 5, 0, 0x1000)]);
    run(&mut sim);
    assert_eq!(sim.inst_count, 2);
    assert!(sim.forward_count >= 1);
}

#[test]
fn test_alu_forwarding_chain() {
    let mut sim = Simulator::new();
    sim.load_trace(vec![
        make_alu(0x100, 0, 0, 1, 10),
        make_alu(0x104, 1, 0, 2, 20),
        make_alu(0x108, 2, 0, 3, 30),
    ]);
    run(&mut sim);
    assert_eq!(sim.registers[1], 10);
    assert_eq!(sim.registers[2], 20);
    assert_eq!(sim.registers[3], 30);
    assert!(sim.forward_count >= 2);
    assert_eq!(sim.stall_count, 0);
}

#[test]
fn test_load_result_forwarded_from_mwb() {
    let mut sim = Simulator::new();
    sim.load_trace(vec![
        make_load(0x100, 4, 1, 99),
        make_alu(0x104, 0, 0, 5, 50),
        make_alu(0x108, 1, 0, 2, 199),
    ]);
    run(&mut sim);
    assert_eq!(sim.stall_count, 0);
    assert_eq!(sim.registers[1], 99);
    assert_eq!(sim.registers[2], 199);
    assert!(sim.forward_count >= 1);
}

#[test]
fn test_back_to_back_load_use() {
    let mut sim = Simulator::new();
    sim.load_trace(vec![
        make_load(0x100, 4, 1, 10),
        make_load(0x104, 5, 2, 20),
        make_alu(0x108, 1, 2, 3, 30),
    ]);
    run(&mut sim);
    assert_eq!(sim.registers[1], 10);
    assert_eq!(sim.registers[2], 20);
    assert_eq!(sim.registers[3], 30);
    assert_eq!(sim.stall_count, 1);
}

#[test]
fn test_jump_link_writeback() {
    let mut sim = Simulator::new();
    let jump_pc = 0x100;
    sim.load_trace(vec![make_jump(jump_pc, 1)]);
    run(&mut sim);
    assert_eq!(sim.registers[1], jump_pc + 4);
    assert_eq!(sim.inst_count, 1);
}

#[test]
fn test_branch_pipeline_flow() {
    let mut sim = Simulator::new();
    sim.load_trace(vec![make_alu(0x100, 0, 0, 5, 5), make_branch(0x104, 5, 0)]);
    run(&mut sim);
    assert_eq!(sim.inst_count, 2);
    assert!(sim.forward_count >= 1);
}

#[test]
fn test_store_rs2_forwarding() {
    let mut sim = Simulator::new();
    sim.load_trace(vec![
        make_alu(0x100, 0, 0, 5, 0xABCD),
        make_alu(0x104, 5, 0, 6, 0x5678),
        make_store(0x108, 10, 6, 0x8000),
    ]);
    run(&mut sim);
    assert_eq!(sim.inst_count, 3);
    assert!(sim.forward_count >= 2);
    assert_eq!(sim.stall_count, 0);
    assert_eq!(sim.registers[5], 0xABCD);
    assert_eq!(sim.registers[6], 0x5678);
}

#[test]
fn test_x0_always_zero() {
    let mut sim = Simulator::new();
    sim.load_trace(vec![make_alu(0x100, 0, 0, 0, 999), make_alu(0x104, 0, 0, 0, 888)]);
    run(&mut sim);
    assert_eq!(sim.registers[0], 0);
    assert_eq!(sim.inst_count, 2);
}

#[test]
fn test_forwarding_priority_em_over_mw() {
    let mut sim = Simulator::new();
    sim.load_trace(vec![
        make_alu(0x100, 0, 0, 3, 100),
        make_alu(0x104, 0, 0, 3, 200),
        make_alu(0x108, 3, 0, 5, 300),
    ]);
    run(&mut sim);
    assert_eq!(sim.registers[3], 200);
    assert_eq!(sim.registers[5], 300);
    assert!(sim.forward_count >= 1);
}

#[test]
fn test_empty_trace() {
    let sim = Simulator::new();
    assert!(sim.is_done());
    assert_eq!(sim.cycle, 0);
    assert_eq!(sim.inst_count, 0);
}

#[test]
fn test_op_stats_distribution() {
    let mut sim = Simulator::new();
    sim.load_trace(vec![
        make_alu(0x100, 0, 0, 1, 10),
        make_load(0x104, 1, 2, 20),
        make_alu(0x108, 2, 0, 3, 30),
        make_store(0x10C, 3, 0, 0x8000),
        make_branch(0x110, 1, 2),
        make_jump(0x114, 5),
    ]);
    run(&mut sim);
    assert_eq!(sim.inst_count, 6);
    assert_eq!(sim.op_stats.get(&OpType::IntAlu), Some(&2));
    assert_eq!(sim.op_stats.get(&OpType::Load), Some(&1));
    assert_eq!(sim.op_stats.get(&OpType::Store), Some(&1));
    assert_eq!(sim.op_stats.get(&OpType::Branch), Some(&1));
    assert_eq!(sim.op_stats.get(&OpType::Jump), Some(&1));
}
