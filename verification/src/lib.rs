//! A trace-driven simulator of the classic five-stage in-order pipeline
//! (IF / ID / EX / MEM / WB) with a forwarding network and load-use stalls.

pub mod trace;
pub mod simulator;
