use trace_simulator::simulator::alu::Alu;
use trace_simulator::trace::{OpType, TraceRecord};

fn make_record(pc: u64, op_type: OpType, mem_addr: u64, rd_val: u64) -> TraceRecord {
    TraceRecord { pc, inst: 0, rs1: 0, rs2: 0, rd: 1, op_type, mem_addr, rd_val }
}

#[test]
fn test_alu_int_uses_rd_val() {
    let rec = make_record(0x100, OpType::IntAlu, 0, 42);
    assert_eq!(Alu::compute(&rec, 10, 32), 42);
}

#[test]
fn test_alu_load_uses_mem_addr() {
    let rec = make_record(0x100, OpType::Load, 0x8000_0000, 99);
    assert_eq!(Alu::compute(&rec, 0, 0), 0x8000_0000);
}

#[test]
fn test_alu_store_uses_mem_addr() {
    let rec = make_record(0x100, OpType::Store, 0x1000, 0);
    assert_eq!(Alu::compute(&rec, 0, 0), 0x1000);
}

#[test]
fn test_alu_jump_uses_pc_plus_4() {
    let rec = make_record(0x200, OpType::Jump, 0, 0);
    assert_eq!(Alu::compute(&rec, 0, 0), 0x204);
}

#[test]
fn test_alu_branch_uses_rd_val() {
    let rec = make_record(0x100, OpType::Branch, 0, 1);
    assert_eq!(Alu::compute(&rec, 0, 0), 1);
}
