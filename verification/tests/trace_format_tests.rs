use trace_simulator::trace::{parse_trace, OpType, TraceRecordRaw, RECORD_SIZE};

fn raw_bytes(pc: u64, inst: u32, rs1: u8, rs2: u8, rd: u8, op: u8, mem_addr: u64, rd_val: u64) -> Vec<u8> {
    let mut b = Vec::new();
    b.extend_from_slice(&pc.to_le_bytes());
    b.extend_from_slice(&inst.to_le_bytes());
    b.push(rs1);
    b.push(rs2);
    b.push(rd);
    b.push(op);
    b.extend_from_slice(&mem_addr.to_le_bytes());
    b.extend_from_slice(&rd_val.to_le_bytes());
    b
}

#[test]
fn op_type_from_code() {
    assert_eq!(OpType::from(0u8), OpType::Unknown);
    assert_eq!(OpType::from(1u8), OpType::IntAlu);
    assert_eq!(OpType::from(2u8), OpType::Load);
    assert_eq!(OpType::from(3u8), OpType::Store);
    assert_eq!(OpType::from(4u8), OpType::Branch);
    assert_eq!(OpType::from(5u8), OpType::Jump);
    assert_eq!(OpType::from(6u8), OpType::System);
    assert_eq!(OpType::from(7u8), OpType::Unknown);
    assert_eq!(OpType::from(255u8), OpType::Unknown);
}

#[test]
fn raw_record_decodes_little_endian_fields() {
    let b = raw_bytes(0x1122_3344_5566_7788, 0xA1B2_C3D4, 3, 4, 5, 2, 0x8000_0010, u64::MAX);
    assert_eq!(b.len(), RECORD_SIZE);
    let raw = TraceRecordRaw::from_le_bytes(&b, 0);
    assert_eq!({ raw.pc }, 0x1122_3344_5566_7788);
    assert_eq!({ raw.inst }, 0xA1B2_C3D4);
    assert_eq!({ raw.op_type }, 2);
    assert_eq!({ raw.mem_addr }, 0x8000_0010);
    assert_eq!({ raw.rd_val }, u64::MAX);
    let rec = raw.into_record();
    assert_eq!(rec.pc, 0x1122_3344_5566_7788);
    assert_eq!(rec.inst, 0xA1B2_C3D4);
    assert_eq!((rec.rs1, rec.rs2, rec.rd), (3, 4, 5));
    assert_eq!(rec.op_type, OpType::Load);
    assert_eq!(rec.mem_addr, 0x8000_0010);
    assert_eq!(rec.rd_val, u64::MAX);
}

#[test]
fn into_record_maps_unknown_codes() {
    let b = raw_bytes(4, 0, 0, 0, 0, 9, 0, 0);
    let rec = TraceRecordRaw::from_le_bytes(&b, 0).into_record();
    assert_eq!(rec.op_type, OpType::Unknown);
}

#[test]
fn parse_trace_reads_whole_blocks_only() {
    let mut b = raw_bytes(0x100, 0x13, 0, 0, 1, 1, 0, 10);
    b.extend(raw_bytes(0x104, 0x23, 1, 2, 0, 3, 0x2000, 0));
    b.extend_from_slice(&[1, 2, 3, 4, 5]);
    let records = parse_trace(&b);
    assert_eq!(records.len(), 2);
    assert_eq!(records[0].pc, 0x100);
    assert_eq!(records[0].op_type, OpType::IntAlu);
    assert_eq!(records[0].rd_val, 10);
    assert_eq!(records[1].pc, 0x104);
    assert_eq!(records[1].op_type, OpType::Store);
    assert_eq!(records[1].mem_addr, 0x2000);
    assert_eq!((records[1].rs1, records[1].rs2), (1, 2));
}

#[test]
fn parse_trace_of_short_input_is_empty() {
    assert!(parse_trace(&[]).is_empty());
    assert!(parse_trace(&[0u8; 31]).is_empty());
}
