//! Instruction trace records: the raw on-disk layout and the decoded form
//! that flows through the pipeline.

use vstd::prelude::*;

verus! {

/// Instruction class of a trace record (basic RISC-V categories).
#[derive(Debug, Clone, Copy, PartialEq, Eq, Hash, Structural)]
pub enum OpType {
    /// Unknown class.
    Unknown,
    /// Integer ALU instruction (add, sub, and, or, ...).
    IntAlu,
    /// Memory load (lw, lb, ...).
    Load,
    /// Memory store (sw, sb, ...).
    Store,
    /// Conditional branch (beq, bne, ...).
    Branch,
    /// Unconditional jump (jal, jalr).
    Jump,
    /// System call or CSR access (ecall, csrrw, ...).
    System,
}

/// The class that a numeric op-type code stands for: 1 to 6 name the classes
/// in declaration order, every other code is `Unknown`.
pub open spec fn op_type_of_code(val: u8) -> OpType {
    if val == 1 {
        OpType::IntAlu
    } else if val == 2 {
        OpType::Load
    } else if val == 3 {
        OpType::Store
    } else if val == 4 {
        OpType::Branch
    } else if val == 5 {
        OpType::Jump
    } else if val == 6 {
        OpType::System
    } else {
        OpType::Unknown
    }
}

/// The code under which the trace file stores a class: 0 for `Unknown`,
/// then 1 to 6 in declaration order.
pub open spec fn code_of(op: OpType) -> u8 {
    match op {
        OpType::Unknown => 0,
        OpType::IntAlu => 1,
        OpType::Load => 2,
        OpType::Store => 3,
        OpType::Branch => 4,
        OpType::Jump => 5,
        OpType::System => 6,
    }
}

/// Decoding the code of a class gives back the class, and every code that
/// names no class (0, or above 6) decodes to `Unknown`.
pub proof fn lemma_op_code_round_trip(op: OpType, v: u8)
    ensures
        op_type_of_code(code_of(op)) == op,
        v == 0 || v > 6 ==> op_type_of_code(v) == OpType::Unknown,
        1 <= v <= 6 ==> code_of(op_type_of_code(v)) == v,
{
}

impl From<u8> for OpType {
    fn from(val: u8) -> (r: Self) {
        match val {
            1 => OpType::IntAlu,
            2 => OpType::Load,
            3 => OpType::Store,
            4 => OpType::Branch,
            5 => OpType::Jump,
            6 => OpType::System,
            _ => OpType::Unknown,
        }
    }
}

impl vstd::std_specs::convert::FromSpecImpl<u8> for OpType {
    open spec fn obeys_from_spec() -> bool {
        true
    }

    open spec fn from_spec(v: u8) -> OpType {
        op_type_of_code(v)
    }
}


/// Trace record in the layout of the binary trace file: 32 bytes, packed,
/// little-endian, fields in declaration order.
#[derive(Debug, Clone, Copy)]
pub struct TraceRecordRaw {
    /// Program counter of the instruction.
    pub pc: u64,
    /// Raw machine code.
    pub inst: u32,
    /// Index of source register 1.
    pub rs1: u8,
    /// Index of source register 2.
    pub rs2: u8,
    /// Index of the destination register.
    pub rd: u8,
    /// Numeric instruction class (see `op_type_of_code`).
    pub op_type: u8,
    /// Effective memory address (meaningful for loads and stores).
    pub mem_addr: u64,
    /// Value written to the destination register.
    pub rd_val: u64,
}

/// Decoded trace record as it flows through the simulator.
#[derive(Debug, Clone, Copy, PartialEq, Eq, Structural)]
pub struct TraceRecord {
    /// Program counter of the instruction.
    pub pc: u64,
    /// Raw machine code.
    pub inst: u32,
    /// Index of source register 1.
    pub rs1: u8,
    /// Index of source register 2.
    pub rs2: u8,
    /// Index of the destination register.
    pub rd: u8,
    /// Instruction class.
    pub op_type: OpType,
    /// Effective memory address (meaningful for loads and stores).
    pub mem_addr: u64,
    /// Value written to the destination register (for a load, the loaded
    /// value).
    pub rd_val: u64,
}

/// Number of bytes of one record in the binary trace file.
pub const RECORD_SIZE: usize = 32;

/// The record that a raw record decodes to: every field copied, the class
/// code mapped by `op_type_of_code`.
pub open spec fn decoded(raw: TraceRecordRaw) -> TraceRecord {
    TraceRecord {
        pc: raw.pc,
        inst: raw.inst,
        rs1: raw.rs1,
        rs2: raw.rs2,
        rd: raw.rd,
        op_type: op_type_of_code(raw.op_type),
        mem_addr: raw.mem_addr,
        rd_val: raw.rd_val,
    }
}

impl TraceRecordRaw {
    /// Converts a raw record read from the file into a structured record.
    pub fn into_record(self) -> (r: TraceRecord)
        ensures
            r == decoded(self),
            r.pc == self.pc,
            r.inst == self.inst,
            r.rs1 == self.rs1,
            r.rs2 == self.rs2,
            r.rd == self.rd,
            r.op_type == op_type_of_code(self.op_type),
            r.mem_addr == self.mem_addr,
            r.rd_val == self.rd_val,
    {
        TraceRecord {
            pc: self.pc,
            inst: self.inst,
            rs1: self.rs1,
            rs2: self.rs2,
            rd: self.rd,
            op_type: OpType::from(self.op_type),
            mem_addr: self.mem_addr,
            rd_val: self.rd_val,
        }
    }
}

/// Little-endian value of the 4 bytes of `b` that start at `off`.
pub open spec fn le_u32_at(b: Seq<u8>, off: int) -> int {
    b[off] + 256 * b[off + 1] + 65536 * b[off + 2] + 16777216 * b[off + 3]
}

/// Little-endian value of the 8 bytes of `b` that start at `off`.
pub open spec fn le_u64_at(b: Seq<u8>, off: int) -> int {
    le_u32_at(b, off) + 4294967296 * le_u32_at(b, off + 4)
}

/// The raw record held by the 32 bytes of `b` that start at `off`.
pub open spec fn raw_record_at(b: Seq<u8>, off: int) -> TraceRecordRaw {
    TraceRecordRaw {
        pc: le_u64_at(b, off) as u64,
        inst: le_u32_at(b, off + 8) as u32,
        rs1: b[off + 12],
        rs2: b[off + 13],
        rd: b[off + 14],
        op_type: b[off + 15],
        mem_addr: le_u64_at(b, off + 16) as u64,
        rd_val: le_u64_at(b, off + 24) as u64,
    }
}

/// The records of a trace file's bytes: one per whole 32-byte block, in
/// order; an incomplete block at the end is not a record.
pub open spec fn records_of(b: Seq<u8>) -> Seq<TraceRecord> {
    Seq::new(
        b.len() / (RECORD_SIZE as nat),
        |i: int| decoded(raw_record_at(b, i * RECORD_SIZE as int)),
    )
}

fn read_u32_le(b: &[u8], off: usize) -> (v: u32)
    requires
        off + 4 <= b.len(),
    ensures
        v == le_u32_at(b@, off as int),
{
    let x0 = b[off] as u32;
    let x1 = b[off + 1] as u32;
    let x2 = b[off + 2] as u32;
    let x3 = b[off + 3] as u32;
    x0 + 256 * x1 + 65536 * x2 + 16777216 * x3
}

fn read_u64_le(b: &[u8], off: usize) -> (v: u64)
    requires
        off + 8 <= b.len(),
    ensures
        v == le_u64_at(b@, off as int),
{
    let lo = read_u32_le(b, off) as u64;
    let hi = read_u32_le(b, off + 4) as u64;
    lo + 4294967296 * hi
}

impl TraceRecordRaw {
    /// Reads the raw record held by the 32 bytes of `b` that start at `off`.
    pub fn from_le_bytes(b: &[u8], off: usize) -> (r: TraceRecordRaw)
        requires
            off + RECORD_SIZE <= b.len(),
        ensures
            r == raw_record_at(b@, off as int),
            r.pc == le_u64_at(b@, off as int),
            r.inst == le_u32_at(b@, off + 8),
            r.rs1 == b@[off + 12],
            r.rs2 == b@[off + 13],
            r.rd == b@[off + 14],
            r.op_type == b@[off + 15],
            r.mem_addr == le_u64_at(b@, off + 16),
            r.rd_val == le_u64_at(b@, off + 24),
    {
        TraceRecordRaw {
            pc: read_u64_le(b, off),
            inst: read_u32_le(b, off + 8),
            rs1: b[off + 12],
            rs2: b[off + 13],
            rd: b[off + 14],
            op_type: b[off + 15],
            mem_addr: read_u64_le(b, off + 16),
            rd_val: read_u64_le(b, off + 24),
        }
    }
}

/// Decodes the contents of a binary trace file into records, one per whole
/// 32-byte block; an incomplete block at the end is ignored.
pub fn parse_trace(bytes: &[u8]) -> (records: Vec<TraceRecord>)
    ensures
        records@ == records_of(bytes@),
        records@.len() * RECORD_SIZE <= bytes@.len() < (records@.len() + 1) * RECORD_SIZE,
{
    proof {
        lemma_records_of_count(bytes@);
    }
    let n = bytes.len() / RECORD_SIZE;
    let mut records: Vec<TraceRecord> = Vec::new();
    let mut i: usize = 0;
    while i < n
        invariant
            n == bytes.len() / RECORD_SIZE,
            i <= n,
            records@.len() == i,
            forall|j: int| 0 <= j < i ==> records@[j] == records_of(bytes@)[j],
        decreases n - i,
    {
        assert((i + 1) * RECORD_SIZE <= bytes.len()) by (nonlinear_arith)
            requires
                i < n,
                n == bytes.len() / 32,
        ;
        let raw = TraceRecordRaw::from_le_bytes(bytes, i * RECORD_SIZE);
        records.push(raw.into_record());
        i = i + 1;
    }
    assert(records@ =~= records_of(bytes@));
    records
}

/// The 8 little-endian bytes of `x`, least significant first.
pub open spec fn le_bytes_u64(x: u64) -> Seq<u8> {
    seq![
        x as u8,
        (x >> 8) as u8,
        (x >> 16) as u8,
        (x >> 24) as u8,
        (x >> 32) as u8,
        (x >> 40) as u8,
        (x >> 48) as u8,
        (x >> 56) as u8,
    ]
}

/// The 4 little-endian bytes of `x`, least significant first.
pub open spec fn le_bytes_u32(x: u32) -> Seq<u8> {
    seq![x as u8, (x >> 8) as u8, (x >> 16) as u8, (x >> 24) as u8]
}

/// How a record is laid out in a trace file: pc, inst, rs1, rs2, rd,
/// op_type, mem_addr, rd_val, packed, each integer little-endian.
pub open spec fn encode_raw(r: TraceRecordRaw) -> Seq<u8> {
    le_bytes_u64(r.pc) + le_bytes_u32(r.inst) + seq![r.rs1, r.rs2, r.rd, r.op_type] + le_bytes_u64(
        r.mem_addr,
    ) + le_bytes_u64(r.rd_val)
}

/// A trace file holding the records of `rs`, in order.
pub open spec fn encode_all(rs: Seq<TraceRecordRaw>) -> Seq<u8>
    decreases rs.len(),
{
    if rs.len() == 0 {
        Seq::empty()
    } else {
        encode_all(rs.drop_last()) + encode_raw(rs.last())
    }
}

/// Every whole 32-byte block of a trace file is one record, and only the
/// bytes of an incomplete last block are left over.
pub proof fn lemma_records_of_count(b: Seq<u8>)
    ensures
        records_of(b).len() * RECORD_SIZE <= b.len() < (records_of(b).len() + 1) * RECORD_SIZE,
{
    let n = records_of(b).len();
    assert(n == b.len() / 32);
    assert(n * 32 <= b.len() < (n + 1) * 32) by (nonlinear_arith)
        requires
            n == b.len() / 32,
    ;
}

proof fn lemma_le_u64_of_bytes(x: u64)
    ensures
        le_u64_at(le_bytes_u64(x), 0) == x,
{
    let e = le_bytes_u64(x);
    assert(e[0] == x as u8 && e[1] == (x >> 8) as u8 && e[2] == (x >> 16) as u8 && e[3] == (x
        >> 24) as u8 && e[4] == (x >> 32) as u8 && e[5] == (x >> 40) as u8 && e[6] == (x
        >> 48) as u8 && e[7] == (x >> 56) as u8);
    assert(x == (x as u8) + 256 * ((x >> 8) as u8) + 65536 * ((x >> 16) as u8) + 16777216 * ((x
        >> 24) as u8) + 4294967296 * (((x >> 32) as u8) + 256 * ((x >> 40) as u8) + 65536 * ((x
        >> 48) as u8) + 16777216 * ((x >> 56) as u8))) by (bit_vector);
}

proof fn lemma_le_u32_of_bytes(x: u32)
    ensures
        le_u32_at(le_bytes_u32(x), 0) == x,
{
    let e = le_bytes_u32(x);
    assert(e[0] == x as u8 && e[1] == (x >> 8) as u8 && e[2] == (x >> 16) as u8 && e[3] == (x
        >> 24) as u8);
    assert(x == (x as u8) + 256 * ((x >> 8) as u8) + 65536 * ((x >> 16) as u8) + 16777216 * ((x
        >> 24) as u8)) by (bit_vector);
}

/// The record read at `off` depends only on the 32 bytes from `off`.
proof fn lemma_raw_record_at_local(b: Seq<u8>, off: int, e: Seq<u8>)
    requires
        0 <= off,
        off + 32 <= b.len(),
        e.len() == 32,
        forall|k: int| 0 <= k < 32 ==> b[off + k] == #[trigger] e[k],
    ensures
        raw_record_at(b, off) == raw_record_at(e, 0),
{
    assert forall|k: int| 0 <= k < 32 implies #[trigger] b[off + k] == e[k] by {}
    assert(b[off] == e[0]);
}

/// Decoding the layout of a record gives back the record: every field, all
/// of its bytes.
pub proof fn lemma_decode_encoded_record(r: TraceRecordRaw)
    ensures
        encode_raw(r).len() == RECORD_SIZE,
        raw_record_at(encode_raw(r), 0) == r,
{
    let e = encode_raw(r);
    lemma_le_u64_of_bytes(r.pc);
    lemma_le_u32_of_bytes(r.inst);
    lemma_le_u64_of_bytes(r.mem_addr);
    lemma_le_u64_of_bytes(r.rd_val);
    let p = le_bytes_u64(r.pc);
    let q = le_bytes_u32(r.inst);
    let m = le_bytes_u64(r.mem_addr);
    let v = le_bytes_u64(r.rd_val);
    assert forall|k: int| 0 <= k < 8 implies e[k] == p[k] && e[16 + k] == m[k] && e[24 + k] == v[k] by {}
    assert forall|k: int| 0 <= k < 4 implies e[8 + k] == q[k] by {}
    assert(le_u64_at(e, 0) == le_u64_at(p, 0));
    assert(le_u32_at(e, 8) == le_u32_at(q, 0));
    assert(le_u64_at(e, 16) == le_u64_at(m, 0));
    assert(le_u64_at(e, 24) == le_u64_at(v, 0));
    assert(e[12] == r.rs1 && e[13] == r.rs2 && e[14] == r.rd && e[15] == r.op_type);
}

proof fn lemma_encode_all_bytes(rs: Seq<TraceRecordRaw>)
    ensures
        encode_all(rs).len() == rs.len() * 32,
        forall|i: int, k: int|
            0 <= i < rs.len() && 0 <= k < 32 ==> encode_all(rs)[i * 32 + k] == #[trigger] encode_raw(
                rs[i],
            )[k],
    decreases rs.len(),
{
    if rs.len() > 0 {
        let init = rs.drop_last();
        lemma_encode_all_bytes(init);
        lemma_decode_encoded_record(rs.last());
        let n = rs.len();
        assert(encode_all(rs).len() == rs.len() * 32) by (nonlinear_arith)
            requires
                encode_all(rs).len() == init.len() * 32 + 32,
                init.len() + 1 == n,
                rs.len() == n,
        ;
        assert forall|i: int, k: int| 0 <= i < rs.len() && 0 <= k < 32 implies encode_all(rs)[i * 32
            + k] == #[trigger] encode_raw(rs[i])[k] by {
            if i < init.len() {
                assert(i * 32 + k < init.len() * 32) by (nonlinear_arith)
                    requires
                        i < init.len(),
                        0 <= k < 32,
                ;
                assert(rs[i] == init[i]);
            } else {
                assert(i * 32 == init.len() * 32) by (nonlinear_arith)
                    requires
                        i == init.len(),
                ;
            }
        }
    }
}

/// Decoding a trace file that holds the records of `rs` gives back exactly
/// those records, in order.
pub proof fn lemma_parse_encoded_trace(rs: Seq<TraceRecordRaw>)
    ensures
        records_of(encode_all(rs)) == rs.map_values(|r: TraceRecordRaw| decoded(r)),
{
    let b = encode_all(rs);
    lemma_encode_all_bytes(rs);
    let n = rs.len();
    assert(b.len() / 32 == n) by (nonlinear_arith)
        requires
            b.len() == n * 32,
    ;
    assert forall|i: int| 0 <= i < n implies records_of(b)[i] == decoded(#[trigger] rs[i]) by {
        lemma_decode_encoded_record(rs[i]);
        assert(0 <= i * 32 && i * 32 + 32 <= b.len()) by (nonlinear_arith)
            requires
                0 <= i < n,
                b.len() == n * 32,
        ;
        assert forall|k: int| 0 <= k < 32 implies b[i * 32 + k] == #[trigger] encode_raw(rs[i])[k] by {}
        lemma_raw_record_at_local(b, i * 32, encode_raw(rs[i]));
    }
    assert(records_of(b) =~= rs.map_values(|r: TraceRecordRaw| decoded(r)));
}

} // verus!
