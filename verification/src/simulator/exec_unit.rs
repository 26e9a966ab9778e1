//! Timing model of an execution unit: latency and structural hazards. The
//! trace supplies results, so no computation happens here.

use vstd::prelude::*;

verus! {

/// An execution unit. In the classic five-stage pipeline every unit has a
/// latency of one cycle and is fully pipelined.
#[derive(Debug, Clone)]
pub struct ExecUnit {
    /// Readable name for debugging and statistics.
    pub name: String,
    /// Cycles from issue until the result is available.
    pub latency: u32,
    /// Whether a new instruction can be accepted every cycle.
    pub pipelined: bool,
    /// Cycle at which the unit becomes free (when not pipelined).
    busy_until: u64,
}

/// The state of an execution unit.
pub struct ExecUnitView {
    pub name: Seq<char>,
    pub latency: u32,
    pub pipelined: bool,
    pub busy_until: u64,
}

impl View for ExecUnit {
    type V = ExecUnitView;

    closed spec fn view(&self) -> ExecUnitView {
        ExecUnitView {
            name: self.name@,
            latency: self.latency,
            pipelined: self.pipelined,
            busy_until: self.busy_until,
        }
    }
}

impl ExecUnitView {
    /// The unit can accept an instruction in cycle `c`: always when
    /// pipelined (no structural hazard), otherwise once it is free.
    pub open spec fn ready_at(self, c: u64) -> bool {
        self.pipelined || c >= self.busy_until
    }

    /// Cycle at which the result of an instruction issued in cycle `c` is
    /// available: the next cycle for a pipelined unit, `c + latency` for one
    /// that is not pipelined.
    pub open spec fn ready_cycle(self, c: u64) -> int {
        if self.pipelined {
            c + 1
        } else {
            c + self.latency
        }
    }

    /// The ready cycle of an instruction issued in cycle `c` fits in 64 bits.
    pub open spec fn can_reserve(self, c: u64) -> bool {
        self.ready_cycle(c) <= u64::MAX
    }

    /// The state after reserving the unit for an instruction whose result is
    /// ready in cycle `ready`: a unit that is not pipelined stays busy until
    /// then.
    pub open spec fn reserved(self, ready: u64) -> ExecUnitView {
        ExecUnitView { busy_until: if self.pipelined { self.busy_until } else { ready }, ..self }
    }
}

/// Structural hazards: a pipelined unit accepts an instruction in every
/// cycle, reserved or not; a unit that is not pipelined, once reserved in
/// cycle `c`, refuses new instructions until its result is ready in cycle
/// `c + latency` and accepts them from then on.
pub proof fn lemma_reserved_unit_ready(u: ExecUnitView, c: u64, t: u64)
    requires
        u.can_reserve(c),
    ensures
        u.pipelined ==> u.reserved(u.ready_cycle(c) as u64).ready_at(t),
        !u.pipelined ==> (u.reserved(u.ready_cycle(c) as u64).ready_at(t) <==> t >= c + u.latency),
{
}

impl ExecUnit {
    /// Creates a free unit.
    pub fn new(name: &str, latency: u32, pipelined: bool) -> (r: Self)
        ensures
            r@ == (ExecUnitView { name: name@, latency, pipelined, busy_until: 0 }),
    {
        broadcast use vstd::string::to_string_from_display_ensures_for_str;

        ExecUnit { name: name.to_string(), latency, pipelined, busy_until: 0 }
    }

    /// The default integer ALU: one cycle, fully pipelined.
    pub fn default_int_alu() -> (r: Self)
        ensures
            r@ == (ExecUnitView { name: "IntAlu"@, latency: 1, pipelined: true, busy_until: 0 }),
    {
        Self::new("IntAlu", 1, true)
    }

    /// The default load/store unit: one cycle, fully pipelined.
    pub fn default_lsu() -> (r: Self)
        ensures
            r@ == (ExecUnitView { name: "LSU"@, latency: 1, pipelined: true, busy_until: 0 }),
    {
        Self::new("LSU", 1, true)
    }

    /// The default branch unit: one cycle, fully pipelined.
    pub fn default_branch() -> (r: Self)
        ensures
            r@ == (ExecUnitView { name: "Branch"@, latency: 1, pipelined: true, busy_until: 0 }),
    {
        Self::new("Branch", 1, true)
    }

    /// Whether the unit can accept an instruction in `current_cycle`.
    pub fn is_ready(&self, current_cycle: u64) -> (r: bool)
        ensures
            r == self@.ready_at(current_cycle),
    {
        self.pipelined || current_cycle >= self.busy_until
    }

    /// Reserves the unit for an instruction issued in `current_cycle` and
    /// returns the cycle at which its result is available: the next cycle
    /// for a pipelined unit; `current_cycle + latency` for one that is not
    /// pipelined, which stays busy until then.
    pub fn reserve(&mut self, current_cycle: u64) -> (ready: u64)
        requires
            old(self)@.can_reserve(current_cycle),
        ensures
            ready == old(self)@.ready_cycle(current_cycle),
            old(self)@.pipelined ==> ready == current_cycle + 1,
            !old(self)@.pipelined ==> ready == current_cycle + old(self)@.latency,
            final(self)@ == old(self)@.reserved(ready),
    {
        if self.pipelined {
            current_cycle + 1
        } else {
            let ready_cycle = current_cycle + self.latency as u64;
            self.busy_until = ready_cycle;
            ready_cycle
        }
    }

    /// Frees the unit (for a unit that is not pipelined, once its result has
    /// been consumed).
    pub fn release(&mut self)
        ensures
            final(self)@ == (ExecUnitView { busy_until: 0, ..old(self)@ }),
    {
        self.busy_until = 0;
    }
}

} // verus!
