# trace_simulator

A trace-driven performance simulator of the classic five-stage in-order
pipeline (IF, ID, EX, MEM, WB) with a forwarding network and load-use
stalls, verified with Verus.

- `src/trace.rs`: trace records, their 32-byte little-endian file layout and
  the decoder of a trace file.
- `src/simulator/`: the simulator. `model.rs` describes the whole state and
  one clock cycle as mathematical values; `engine.rs` (`step_cycle`) and
  `pipeline.rs` (the stages one by one, and the forwarding network) are
  proved to implement it; `hazard.rs`, `alu.rs`, `lsu.rs` and `exec_unit.rs`
  are the combinational and timing units; `laws.rs` proves what running a
  trace computes (the in-order result), how long it takes (records + 4 +
  load-use pairs cycles) and that forwarded operands are the in-order values.
- `app/main.rs`: the command-line driver (file input, statistics output).
