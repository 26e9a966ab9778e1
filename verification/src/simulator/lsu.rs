//! Load-store unit: models when the data of a memory access is available.
//! The trace supplies loaded values, so no real memory is accessed.

use vstd::prelude::*;
use crate::trace::{OpType, TraceRecord};

verus! {

/// Load-store unit of the classic five-stage pipeline: by default a latency
/// of one cycle (L1 hit) and fully pipelined.
#[derive(Debug, Clone)]
pub struct Lsu {
    /// Access latency in cycles.
    pub latency: u32,
    /// Whether a new request can be accepted every cycle.
    pub pipelined: bool,
    /// Cycle at which the unit becomes free (when not pipelined).
    busy_until: u64,
}

/// The timing state of a load-store unit.
pub struct LsuView {
    pub latency: u32,
    pub pipelined: bool,
    pub busy_until: u64,
}

impl View for Lsu {
    type V = LsuView;

    closed spec fn view(&self) -> LsuView {
        LsuView { latency: self.latency, pipelined: self.pipelined, busy_until: self.busy_until }
    }
}

impl LsuView {
    /// The unit can accept a request in cycle `c`: always when pipelined,
    /// otherwise once it is free.
    pub open spec fn ready_at(self, c: u64) -> bool {
        self.pipelined || c >= self.busy_until
    }

    /// The state after reserving the unit for an access that is ready in
    /// cycle `ready`: a unit that is not pipelined stays busy until then.
    pub open spec fn reserved(self, ready: u64) -> LsuView {
        LsuView { busy_until: if self.pipelined { self.busy_until } else { ready }, ..self }
    }
}

/// A pipelined LSU accepts a request in every cycle; one that is not
/// pipelined, once reserved in cycle `c`, refuses requests until the data is
/// available in cycle `c + latency` and accepts them from then on.
pub proof fn lemma_reserved_lsu_ready(u: LsuView, c: u64, t: u64)
    requires
        c + u.latency <= u64::MAX,
    ensures
        u.pipelined ==> u.reserved((c + u.latency) as u64).ready_at(t),
        !u.pipelined ==> (u.reserved((c + u.latency) as u64).ready_at(t) <==> t >= c + u.latency),
{
}

/// The value that the memory stage produces for an instruction: the loaded
/// value that the trace records for a load, 0 for every other class.
pub open spec fn load_value_of(r: TraceRecord) -> u64 {
    if r.op_type == OpType::Load {
        r.rd_val
    } else {
        0
    }
}

impl Lsu {
    /// Creates an LSU with a latency of one cycle, fully pipelined.
    pub fn new() -> (r: Self)
        ensures
            r@ == (LsuView { latency: 1, pipelined: true, busy_until: 0 }),
    {
        Lsu { latency: 1, pipelined: true, busy_until: 0 }
    }

    /// Whether the unit can accept a new access in `current_cycle`.
    pub fn is_ready(&self, current_cycle: u64) -> (r: bool)
        ensures
            r == self@.ready_at(current_cycle),
    {
        self.pipelined || current_cycle >= self.busy_until
    }

    /// Reserves the unit for an access that starts in `current_cycle` and
    /// returns the cycle at which its data is available.
    pub fn reserve(&mut self, current_cycle: u64) -> (ready: u64)
        requires
            current_cycle + old(self)@.latency <= u64::MAX,
        ensures
            ready == current_cycle + old(self)@.latency,
            final(self)@ == old(self)@.reserved(ready),
    {
        let ready_cycle = current_cycle + self.latency as u64;
        if !self.pipelined {
            self.busy_until = ready_cycle;
        }
        ready_cycle
    }

    /// Performs the access: the loaded value for a load, 0 otherwise.
    pub fn execute(&self, record: &TraceRecord) -> (r: u64)
        ensures
            r == load_value_of(*record),
            record.op_type == OpType::Load ==> r == record.rd_val,
            record.op_type != OpType::Load ==> r == 0,
    {
        match record.op_type {
            OpType::Load => record.rd_val,
            _ => 0,
        }
    }
}

impl Default for Lsu {
    fn default() -> (r: Self)
        ensures
            r@ == (LsuView { latency: 1, pipelined: true, busy_until: 0 }),
    {
        Self::new()
    }
}

} // verus!
