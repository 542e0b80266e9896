//! The emulation driver's state: whether the machine is paused or running,
//! and how many steps it has driven. The loop itself (pacing, pause polling,
//! process I/O) lives outside the core; between steps the driver may hold
//! the processor paused, checked once per would-be step.

use vstd::prelude::*;

verus! {

/// Driver state around the core: pause/run flags and a step counter.
#[allow(non_camel_case_types)]
pub struct emu_context {
    pub paused: bool,
    pub running: bool,
    pub ticks: u64,
}

impl emu_context {
    /// A driver that has not started yet.
    pub fn new() -> (r: emu_context)
        ensures
            !r.paused,
            !r.running,
            r.ticks == 0,
    {
        emu_context { paused: false, running: false, ticks: 0 }
    }
}

} // verus!
