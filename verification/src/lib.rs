//! Core of an instruction-set simulator for a classic 8-bit handheld game
//! console: a register file with flag-bit semantics, a memory-bus address
//! decoder, an addressing-mode resolver, a table-driven execution dispatcher,
//! a call/return stack, and the interrupt-enable register.
//!
//! Every state change is specified against a ghost model of the machine
//! (`cpu::CpuView`); the executable code is proved to follow that model
//! exactly, including timing-tick placement and the byte-exact bus dispatch
//! table.

pub mod bus;
pub mod cart;
pub mod common;
pub mod cpu;
pub mod cpu_fetch;
pub mod cpu_proc;
pub mod cpu_util;
pub mod emu;
pub mod instructions;
pub mod ram;
pub mod stack;

use vstd::prelude::*;

verus! {

/// Failures the core can signal while executing.
///
/// `UnsupportedRegion` is a recoverable signal: a bus access touched an
/// address window with no implementation behind it yet. `InvalidInstruction`
/// is fatal: the sentinel descriptor of an unmapped opcode reached the
/// execute phase. The two are deliberately distinct so that adding a
/// peripheral never masks a decoding defect.
#[derive(Clone, Copy, PartialEq, Eq, Structural, Debug)]
pub enum EmuError {
    /// A bus access reached an address window that is not implemented;
    /// carries the offending address.
    UnsupportedRegion(u16),
    /// The sentinel "no operation" descriptor reached the execute phase;
    /// carries the offending opcode.
    InvalidInstruction(u8),
}

} // verus!
