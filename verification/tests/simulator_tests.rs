use trace_simulator::simulator::Simulator;
use trace_simulator::trace::{OpType, TraceRecord};

fn make_alu(pc: u64, rs1: u8, rs2: u8, rd: u8, rd_val: u64) -> TraceRecord {
    TraceRecord { pc, inst: 0, rs1, rs2, rd, op_type: OpType::IntAlu, mem_addr: 0, rd_val }
}

fn make_load(pc: u64, rs1: u8, rd: u8, rd_val: u64) -> TraceRecord {
    TraceRecord { pc, inst: 0, rs1, rs2: 0, rd, op_type: OpType::Load, mem_addr: 0x8000_0000, rd_val }
}

fn make_store(pc: u64, rs1: u8, rs2: u8, mem_addr: u64) -> TraceRecord {
    TraceRecord { pc, inst: 0, rs1, rs2, rd: 0, op_type: OpType::Store, mem_addr, rd_val: 0 }
}

fn run(sim: &mut Simulator) {
    while !sim.is_done() {
        sim.step_cycle();
    }
}


#[test]
fn simulator_test_basic_pipeline_flow() {
    let mut sim = Simulator::new();
    sim.load_trace(vec![
        make_alu(0x100, 0, 0, 1, 10),
        make_alu(0x104, 0, 0, 2, 20),
        make_alu(0x108, 0, 0, 3, 30),
    ]);
    run(&mut sim);
    assert_eq!(sim.cycle, 7);
    assert_eq!(sim.inst_count, 3);
    assert_eq!(sim.registers[1], 10);
    assert_eq!(sim.registers[2], 20);
    assert_eq!(sim.registers[3], 30);
}

#[test]
fn simulator_test_alu_forwarding() {
    let mut sim = Simulator::new();
    sim.load_trace(vec![make_alu(0x100, 4, 5, 1, 42), make_alu(0x104, 1, 0, 2, 84)]);
    run(&mut sim);
    assert!(sim.forward_count >= 1);
    assert_eq!(sim.registers[1], 42);
    assert_eq!(sim.registers[2], 84);
    assert_eq!(sim.stall_count, 0);
}

#[test]
fn simulator_test_load_use_stall() {
    let mut sim = Simulator::new();
    sim.load_trace(vec![make_load(0x100, 4, 1, 99), make_alu(0x104, 1, 0, 2, 199)]);
    run(&mut sim);
    assert_eq!(sim.stall_count, 1);
    assert_eq!(sim.registers[1], 99);
    assert_eq!(sim.registers[2], 199);
}

#[test]
fn simulator_test_independent_instructions_ipc() {
    let mut sim = Simulator::new();
    let n = 100;
    let records: Vec<TraceRecord> =
        (0..n).map(|i| make_alu(i * 4, 0, 0, (i % 31 + 1) as u8, i)).collect();
    sim.load_trace(records);
    run(&mut sim);
    let expected_cycles = 4 + n;
    assert_eq!(sim.cycle, expected_cycles);
    assert_eq!(sim.inst_count, n);
    let ipc = sim.inst_count as f64 / sim.cycle as f64;
    println!("无依赖 IPC: {:.3}", ipc);
    assert!(ipc > 0.9);
}

#[test]
fn simulator_test_store_pipeline() {
    let mut sim = Simulator::new();
    sim.load_trace(vec![make_alu(0x100, 0, 0, 5, 0xDEAD), make_store(0x104, 5, 0, 0x1000)]);
    run(&mut sim);
    assert_eq!(sim.inst_count, 2);
    assert!(sim.forward_count >= 1);
}
