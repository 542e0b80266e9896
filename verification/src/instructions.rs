//! The instruction table: a pure, total lookup from opcode to descriptor.
//!
//! Every opcode has a descriptor. Opcodes outside the implemented set map to
//! the sentinel "no operation" descriptor (`InType::InNone`), so decoding
//! never fails structurally; executing the sentinel is reported as
//! `EmuError::InvalidInstruction` at execute time.

use vstd::prelude::*;

verus! {

/// The operation kind of an instruction; one execution handler per variant.
#[derive(Clone, Copy, PartialEq, Eq, Structural, Debug)]
pub enum InType {
    /// Sentinel of unmapped opcodes; fatal when executed.
    InNone,
    InNop,
    InLd,
    InLdh,
    InJp,
    InJr,
    InCall,
    InRet,
    InReti,
    InRst,
    InPop,
    InPush,
    InInc,
    InDi,
    InXor,
}

/// The addressing mode: how the resolver finds the operand value and/or the
/// destination address of an instruction.
#[derive(Clone, Copy, PartialEq, Eq, Structural, Debug)]
pub enum AddrMode {
    /// No operand.
    AmImp,
    /// Operand is the value of `reg_1`.
    AmR,
    /// Operand is the value of `reg_2`.
    AmRr,
    /// `reg_1` takes an 8-bit immediate.
    AmRD8,
    /// A 16-bit immediate operand (little endian).
    AmD16,
    /// Memory destination at `reg_1`, operand from `reg_2`.
    AmMrr,
    /// `reg_1` takes the byte at the address in `reg_2`.
    AmRMr,
    /// `reg_1` takes the byte at HL; HL is incremented while addressing.
    AmRhli,
    /// `reg_1` takes the byte at HL; HL is decremented while addressing.
    AmRhld,
    /// Memory destination at HL, operand from `reg_2`; HL is incremented.
    AmHlir,
    /// Memory destination at HL, operand from `reg_2`; HL is decremented.
    AmHldr,
    /// `reg_1` takes the byte at the I/O port 0xFF00 + 8-bit immediate.
    AmRa8,
    /// Memory destination at the I/O port 0xFF00 + 8-bit immediate.
    AmA8r,
    /// `reg_1` takes `reg_2` plus a signed 8-bit immediate (stack-relative).
    AmHlspr,
    /// An 8-bit immediate operand.
    AmD8,
    /// Memory destination at a 16-bit immediate address, operand from `reg_2`.
    AmD16r,
    /// Memory destination at `reg_1`, 8-bit immediate operand.
    AmMrd8,
    /// Memory destination at `reg_1`, operand is the byte there.
    AmMr,
    /// `reg_1` takes the byte at a 16-bit immediate address.
    AmRa16,
}

/// An operand designator: one of the 8-bit registers, a composite 16-bit
/// pair, the program counter or the stack pointer.
#[derive(Clone, Copy, PartialEq, Eq, Structural, Debug)]
pub enum RegType {
    RtNone,
    RtA,
    RtF,
    RtB,
    RtC,
    RtD,
    RtE,
    RtH,
    RtL,
    RtAf,
    RtBc,
    RtDe,
    RtHl,
    RtSp,
    RtPc,
}

/// A branch condition over the Z and C flags; `CtNone` is always taken.
#[derive(Clone, Copy, PartialEq, Eq, Structural, Debug)]
pub enum CondType {
    CtNone,
    CtNz,
    CtZ,
    CtNc,
    CtC,
}

/// An instruction descriptor: operation kind, addressing mode, up to two
/// operand designators, branch condition, and an optional fixed parameter
/// (the restart target address).
#[derive(Clone, Copy, PartialEq, Eq, Structural, Debug)]
pub struct Instruction {
    pub type_in: InType,
    pub mode: AddrMode,
    pub reg_1: RegType,
    pub reg_2: RegType,
    pub cond: CondType,
    pub param: u8,
}

/// The sentinel descriptor that unmapped opcodes decode to.
pub open spec fn spec_no_instruction() -> Instruction {
    Instruction { type_in: InType::InNone, mode: AddrMode::AmImp, reg_1: RegType::RtNone, reg_2: RegType::RtNone, cond: CondType::CtNone, param: 0x00 }
}

/// The instruction table as a mathematical function: the authoritative
/// opcode -> descriptor mapping, dense over all 256 opcodes.
pub open spec fn spec_instruction(opcode: u8) -> Instruction {
    match opcode {
        0x00 => Instruction { type_in: InType::InNop, mode: AddrMode::AmImp, reg_1: RegType::RtNone, reg_2: RegType::RtNone, cond: CondType::CtNone, param: 0x00 },
        0x01 => Instruction { type_in: InType::InLd, mode: AddrMode::AmD16, reg_1: RegType::RtBc, reg_2: RegType::RtNone, cond: CondType::CtNone, param: 0x00 },
        0x02 => Instruction { type_in: InType::InLd, mode: AddrMode::AmMrr, reg_1: RegType::RtBc, reg_2: RegType::RtA, cond: CondType::CtNone, param: 0x00 },
        0x03 => Instruction { type_in: InType::InInc, mode: AddrMode::AmR, reg_1: RegType::RtBc, reg_2: RegType::RtNone, cond: CondType::CtNone, param: 0x00 },
        0x04 => Instruction { type_in: InType::InInc, mode: AddrMode::AmR, reg_1: RegType::RtB, reg_2: RegType::RtNone, cond: CondType::CtNone, param: 0x00 },
        0x06 => Instruction { type_in: InType::InLd, mode: AddrMode::AmRD8, reg_1: RegType::RtB, reg_2: RegType::RtNone, cond: CondType::CtNone, param: 0x00 },
        0x08 => Instruction { type_in: InType::InLd, mode: AddrMode::AmD16r, reg_1: RegType::RtNone, reg_2: RegType::RtSp, cond: CondType::CtNone, param: 0x00 },
        0x0A => Instruction { type_in: InType::InLd, mode: AddrMode::AmRMr, reg_1: RegType::RtA, reg_2: RegType::RtBc, cond: CondType::CtNone, param: 0x00 },
        0x0C => Instruction { type_in: InType::InInc, mode: AddrMode::AmR, reg_1: RegType::RtC, reg_2: RegType::RtNone, cond: CondType::CtNone, param: 0x00 },
        0x0E => Instruction { type_in: InType::InLd, mode: AddrMode::AmRD8, reg_1: RegType::RtC, reg_2: RegType::RtNone, cond: CondType::CtNone, param: 0x00 },
        0x11 => Instruction { type_in: InType::InLd, mode: AddrMode::AmD16, reg_1: RegType::RtDe, reg_2: RegType::RtNone, cond: CondType::CtNone, param: 0x00 },
        0x12 => Instruction { type_in: InType::InLd, mode: AddrMode::AmMrr, reg_1: RegType::RtDe, reg_2: RegType::RtA, cond: CondType::CtNone, param: 0x00 },
        0x13 => Instruction { type_in: InType::InInc, mode: AddrMode::AmR, reg_1: RegType::RtDe, reg_2: RegType::RtNone, cond: CondType::CtNone, param: 0x00 },
        0x14 => Instruction { type_in: InType::InInc, mode: AddrMode::AmR, reg_1: RegType::RtD, reg_2: RegType::RtNone, cond: CondType::CtNone, param: 0x00 },
        0x16 => Instruction { type_in: InType::InLd, mode: AddrMode::AmRD8, reg_1: RegType::RtD, reg_2: RegType::RtNone, cond: CondType::CtNone, param: 0x00 },
        0x18 => Instruction { type_in: InType::InJr, mode: AddrMode::AmD8, reg_1: RegType::RtNone, reg_2: RegType::RtNone, cond: CondType::CtNone, param: 0x00 },
        0x1A => Instruction { type_in: InType::InLd, mode: AddrMode::AmRMr, reg_1: RegType::RtA, reg_2: RegType::RtDe, cond: CondType::CtNone, param: 0x00 },
        0x1C => Instruction { type_in: InType::InInc, mode: AddrMode::AmR, reg_1: RegType::RtE, reg_2: RegType::RtNone, cond: CondType::CtNone, param: 0x00 },
        0x1E => Instruction { type_in: InType::InLd, mode: AddrMode::AmRD8, reg_1: RegType::RtE, reg_2: RegType::RtNone, cond: CondType::CtNone, param: 0x00 },
        0x20 => Instruction { type_in: InType::InJr, mode: AddrMode::AmD8, reg_1: RegType::RtNone, reg_2: RegType::RtNone, cond: CondType::CtNz, param: 0x00 },
        0x21 => Instruction { type_in: InType::InLd, mode: AddrMode::AmD16, reg_1: RegType::RtHl, reg_2: RegType::RtNone, cond: CondType::CtNone, param: 0x00 },
        0x22 => Instruction { type_in: InType::InLd, mode: AddrMode::AmHlir, reg_1: RegType::RtHl, reg_2: RegType::RtA, cond: CondType::CtNone, param: 0x00 },
        0x23 => Instruction { type_in: InType::InInc, mode: AddrMode::AmR, reg_1: RegType::RtHl, reg_2: RegType::RtNone, cond: CondType::CtNone, param: 0x00 },
        0x24 => Instruction { type_in: InType::InInc, mode: AddrMode::AmR, reg_1: RegType::RtH, reg_2: RegType::RtNone, cond: CondType::CtNone, param: 0x00 },
        0x26 => Instruction { type_in: InType::InLd, mode: AddrMode::AmRD8, reg_1: RegType::RtH, reg_2: RegType::RtNone, cond: CondType::CtNone, param: 0x00 },
        0x28 => Instruction { type_in: InType::InJr, mode: AddrMode::AmD8, reg_1: RegType::RtNone, reg_2: RegType::RtNone, cond: CondType::CtZ, param: 0x00 },
        0x2A => Instruction { type_in: InType::InLd, mode: AddrMode::AmRhli, reg_1: RegType::RtA, reg_2: RegType::RtHl, cond: CondType::CtNone, param: 0x00 },
        0x2C => Instruction { type_in: InType::InInc, mode: AddrMode::AmR, reg_1: RegType::RtL, reg_2: RegType::RtNone, cond: CondType::CtNone, param: 0x00 },
        0x2E => Instruction { type_in: InType::InLd, mode: AddrMode::AmRD8, reg_1: RegType::RtL, reg_2: RegType::RtNone, cond: CondType::CtNone, param: 0x00 },
        0x30 => Instruction { type_in: InType::InJr, mode: AddrMode::AmD8, reg_1: RegType::RtNone, reg_2: RegType::RtNone, cond: CondType::CtNc, param: 0x00 },
        0x31 => Instruction { type_in: InType::InLd, mode: AddrMode::AmD16, reg_1: RegType::RtSp, reg_2: RegType::RtNone, cond: CondType::CtNone, param: 0x00 },
        0x32 => Instruction { type_in: InType::InLd, mode: AddrMode::AmHldr, reg_1: RegType::RtHl, reg_2: RegType::RtA, cond: CondType::CtNone, param: 0x00 },
        0x33 => Instruction { type_in: InType::InInc, mode: AddrMode::AmR, reg_1: RegType::RtSp, reg_2: RegType::RtNone, cond: CondType::CtNone, param: 0x00 },
        0x34 => Instruction { type_in: InType::InInc, mode: AddrMode::AmMr, reg_1: RegType::RtHl, reg_2: RegType::RtNone, cond: CondType::CtNone, param: 0x00 },
        0x36 => Instruction { type_in: InType::InLd, mode: AddrMode::AmMrd8, reg_1: RegType::RtHl, reg_2: RegType::RtNone, cond: CondType::CtNone, param: 0x00 },
        0x38 => Instruction { type_in: InType::InJr, mode: AddrMode::AmD8, reg_1: RegType::RtNone, reg_2: RegType::RtNone, cond: CondType::CtC, param: 0x00 },
        0x3A => Instruction { type_in: InType::InLd, mode: AddrMode::AmRhld, reg_1: RegType::RtA, reg_2: RegType::RtHl, cond: CondType::CtNone, param: 0x00 },
        0x3C => Instruction { type_in: InType::InInc, mode: AddrMode::AmR, reg_1: RegType::RtA, reg_2: RegType::RtNone, cond: CondType::CtNone, param: 0x00 },
        0x3E => Instruction { type_in: InType::InLd, mode: AddrMode::AmRD8, reg_1: RegType::RtA, reg_2: RegType::RtNone, cond: CondType::CtNone, param: 0x00 },
        0x40 => Instruction { type_in: InType::InLd, mode: AddrMode::AmRr, reg_1: RegType::RtB, reg_2: RegType::RtB, cond: CondType::CtNone, param: 0x00 },
        0x41 => Instruction { type_in: InType::InLd, mode: AddrMode::AmRr, reg_1: RegType::RtB, reg_2: RegType::RtC, cond: CondType::CtNone, param: 0x00 },
        0x42 => Instruction { type_in: InType::InLd, mode: AddrMode::AmRr, reg_1: RegType::RtB, reg_2: RegType::RtD, cond: CondType::CtNone, param: 0x00 },
        0x43 => Instruction { type_in: InType::InLd, mode: AddrMode::AmRr, reg_1: RegType::RtB, reg_2: RegType::RtE, cond: CondType::CtNone, param: 0x00 },
        0x44 => Instruction { type_in: InType::InLd, mode: AddrMode::AmRr, reg_1: RegType::RtB, reg_2: RegType::RtH, cond: CondType::CtNone, param: 0x00 },
        0x45 => Instruction { type_in: InType::InLd, mode: AddrMode::AmRr, reg_1: RegType::RtB, reg_2: RegType::RtL, cond: CondType::CtNone, param: 0x00 },
        0x46 => Instruction { type_in: InType::InLd, mode: AddrMode::AmRMr, reg_1: RegType::RtB, reg_2: RegType::RtHl, cond: CondType::CtNone, param: 0x00 },
        0x47 => Instruction { type_in: InType::InLd, mode: AddrMode::AmRr, reg_1: RegType::RtB, reg_2: RegType::RtA, cond: CondType::CtNone, param: 0x00 },
        0x48 => Instruction { type_in: InType::InLd, mode: AddrMode::AmRr, reg_1: RegType::RtC, reg_2: RegType::RtB, cond: CondType::CtNone, param: 0x00 },
        0x49 => Instruction { type_in: InType::InLd, mode: AddrMode::AmRr, reg_1: RegType::RtC, reg_2: RegType::RtC, cond: CondType::CtNone, param: 0x00 },
        0x4A => Instruction { type_in: InType::InLd, mode: AddrMode::AmRr, reg_1: RegType::RtC, reg_2: RegType::RtD, cond: CondType::CtNone, param: 0x00 },
        0x4B => Instruction { type_in: InType::InLd, mode: AddrMode::AmRr, reg_1: RegType::RtC, reg_2: RegType::RtE, cond: CondType::CtNone, param: 0x00 },
        0x4C => Instruction { type_in: InType::InLd, mode: AddrMode::AmRr, reg_1: RegType::RtC, reg_2: RegType::RtH, cond: CondType::CtNone, param: 0x00 },
        0x4D => Instruction { type_in: InType::InLd, mode: AddrMode::AmRr, reg_1: RegType::RtC, reg_2: RegType::RtL, cond: CondType::CtNone, param: 0x00 },
        0x4E => Instruction { type_in: InType::InLd, mode: AddrMode::AmRMr, reg_1: RegType::RtC, reg_2: RegType::RtHl, cond: CondType::CtNone, param: 0x00 },
        0x4F => Instruction { type_in: InType::InLd, mode: AddrMode::AmRr, reg_1: RegType::RtC, reg_2: RegType::RtA, cond: CondType::CtNone, param: 0x00 },
        0x50 => Instruction { type_in: InType::InLd, mode: AddrMode::AmRr, reg_1: RegType::RtD, reg_2: RegType::RtB, cond: CondType::CtNone, param: 0x00 },
        0x51 => Instruction { type_in: InType::InLd, mode: AddrMode::AmRr, reg_1: RegType::RtD, reg_2: RegType::RtC, cond: CondType::CtNone, param: 0x00 },
        0x52 => Instruction { type_in: InType::InLd, mode: AddrMode::AmRr, reg_1: RegType::RtD, reg_2: RegType::RtD, cond: CondType::CtNone, param: 0x00 },
        0x53 => Instruction { type_in: InType::InLd, mode: AddrMode::AmRr, reg_1: RegType::RtD, reg_2: RegType::RtE, cond: CondType::CtNone, param: 0x00 },
        0x54 => Instruction { type_in: InType::InLd, mode: AddrMode::AmRr, reg_1: RegType::RtD, reg_2: RegType::RtH, cond: CondType::CtNone, param: 0x00 },
        0x55 => Instruction { type_in: InType::InLd, mode: AddrMode::AmRr, reg_1: RegType::RtD, reg_2: RegType::RtL, cond: CondType::CtNone, param: 0x00 },
        0x56 => Instruction { type_in: InType::InLd, mode: AddrMode::AmRMr, reg_1: RegType::RtD, reg_2: RegType::RtHl, cond: CondType::CtNone, param: 0x00 },
        0x57 => Instruction { type_in: InType::InLd, mode: AddrMode::AmRr, reg_1: RegType::RtD, reg_2: RegType::RtA, cond: CondType::CtNone, param: 0x00 },
        0x58 => Instruction { type_in: InType::InLd, mode: AddrMode::AmRr, reg_1: RegType::RtE, reg_2: RegType::RtB, cond: CondType::CtNone, param: 0x00 },
        0x59 => Instruction { type_in: InType::InLd, mode: AddrMode::AmRr, reg_1: RegType::RtE, reg_2: RegType::RtC, cond: CondType::CtNone, param: 0x00 },
        0x5A => Instruction { type_in: InType::InLd, mode: AddrMode::AmRr, reg_1: RegType::RtE, reg_2: RegType::RtD, cond: CondType::CtNone, param: 0x00 },
        0x5B => Instruction { type_in: InType::InLd, mode: AddrMode::AmRr, reg_1: RegType::RtE, reg_2: RegType::RtE, cond: CondType::CtNone, param: 0x00 },
        0x5C => Instruction { type_in: InType::InLd, mode: AddrMode::AmRr, reg_1: RegType::RtE, reg_2: RegType::RtH, cond: CondType::CtNone, param: 0x00 },
        0x5D => Instruction { type_in: InType::InLd, mode: AddrMode::AmRr, reg_1: RegType::RtE, reg_2: RegType::RtL, cond: CondType::CtNone, param: 0x00 },
        0x5E => Instruction { type_in: InType::InLd, mode: AddrMode::AmRMr, reg_1: RegType::RtE, reg_2: RegType::RtHl, cond: CondType::CtNone, param: 0x00 },
        0x5F => Instruction { type_in: InType::InLd, mode: AddrMode::AmRr, reg_1: RegType::RtE, reg_2: RegType::RtA, cond: CondType::CtNone, param: 0x00 },
        0x60 => Instruction { type_in: InType::InLd, mode: AddrMode::AmRr, reg_1: RegType::RtH, reg_2: RegType::RtB, cond: CondType::CtNone, param: 0x00 },
        0x61 => Instruction { type_in: InType::InLd, mode: AddrMode::AmRr, reg_1: RegType::RtH, reg_2: RegType::RtC, cond: CondType::CtNone, param: 0x00 },
        0x62 => Instruction { type_in: InType::InLd, mode: AddrMode::AmRr, reg_1: RegType::RtH, reg_2: RegType::RtD, cond: CondType::CtNone, param: 0x00 },
        0x63 => Instruction { type_in: InType::InLd, mode: AddrMode::AmRr, reg_1: RegType::RtH, reg_2: RegType::RtE, cond: CondType::CtNone, param: 0x00 },
        0x64 => Instruction { type_in: InType::InLd, mode: AddrMode::AmRr, reg_1: RegType::RtH, reg_2: RegType::RtH, cond: CondType::CtNone, param: 0x00 },
        0x65 => Instruction { type_in: InType::InLd, mode: AddrMode::AmRr, reg_1: RegType::RtH, reg_2: RegType::RtL, cond: CondType::CtNone, param: 0x00 },
        0x66 => Instruction { type_in: InType::InLd, mode: AddrMode::AmRMr, reg_1: RegType::RtH, reg_2: RegType::RtHl, cond: CondType::CtNone, param: 0x00 },
        0x67 => Instruction { type_in: InType::InLd, mode: AddrMode::AmRr, reg_1: RegType::RtH, reg_2: RegType::RtA, cond: CondType::CtNone, param: 0x00 },
        0x68 => Instruction { type_in: InType::InLd, mode: AddrMode::AmRr, reg_1: RegType::RtL, reg_2: RegType::RtB, cond: CondType::CtNone, param: 0x00 },
        0x69 => Instruction { type_in: InType::InLd, mode: AddrMode::AmRr, reg_1: RegType::RtL, reg_2: RegType::RtC, cond: CondType::CtNone, param: 0x00 },
        0x6A => Instruction { type_in: InType::InLd, mode: AddrMode::AmRr, reg_1: RegType::RtL, reg_2: RegType::RtD, cond: CondType::CtNone, param: 0x00 },
        0x6B => Instruction { type_in: InType::InLd, mode: AddrMode::AmRr, reg_1: RegType::RtL, reg_2: RegType::RtE, cond: CondType::CtNone, param: 0x00 },
        0x6C => Instruction { type_in: InType::InLd, mode: AddrMode::AmRr, reg_1: RegType::RtL, reg_2: RegType::RtH, cond: CondType::CtNone, param: 0x00 },
        0x6D => Instruction { type_in: InType::InLd, mode: AddrMode::AmRr, reg_1: RegType::RtL, reg_2: RegType::RtL, cond: CondType::CtNone, param: 0x00 },
        0x6E => Instruction { type_in: InType::InLd, mode: AddrMode::AmRMr, reg_1: RegType::RtL, reg_2: RegType::RtHl, cond: CondType::CtNone, param: 0x00 },
        0x6F => Instruction { type_in: InType::InLd, mode: AddrMode::AmRr, reg_1: RegType::RtL, reg_2: RegType::RtA, cond: CondType::CtNone, param: 0x00 },
        0x70 => Instruction { type_in: InType::InLd, mode: AddrMode::AmMrr, reg_1: RegType::RtHl, reg_2: RegType::RtB, cond: CondType::CtNone, param: 0x00 },
        0x71 => Instruction { type_in: InType::InLd, mode: AddrMode::AmMrr, reg_1: RegType::RtHl, reg_2: RegType::RtC, cond: CondType::CtNone, param: 0x00 },
        0x72 => Instruction { type_in: InType::InLd, mode: AddrMode::AmMrr, reg_1: RegType::RtHl, reg_2: RegType::RtD, cond: CondType::CtNone, param: 0x00 },
        0x73 => Instruction { type_in: InType::InLd, mode: AddrMode::AmMrr, reg_1: RegType::RtHl, reg_2: RegType::RtE, cond: CondType::CtNone, param: 0x00 },
        0x74 => Instruction { type_in: InType::InLd, mode: AddrMode::AmMrr, reg_1: RegType::RtHl, reg_2: RegType::RtH, cond: CondType::CtNone, param: 0x00 },
        0x75 => Instruction { type_in: InType::InLd, mode: AddrMode::AmMrr, reg_1: RegType::RtHl, reg_2: RegType::RtL, cond: CondType::CtNone, param: 0x00 },
        0x77 => Instruction { type_in: InType::InLd, mode: AddrMode::AmMrr, reg_1: RegType::RtHl, reg_2: RegType::RtA, cond: CondType::CtNone, param: 0x00 },
        0x78 => Instruction { type_in: InType::InLd, mode: AddrMode::AmRr, reg_1: RegType::RtA, reg_2: RegType::RtB, cond: CondType::CtNone, param: 0x00 },
        0x79 => Instruction { type_in: InType::InLd, mode: AddrMode::AmRr, reg_1: RegType::RtA, reg_2: RegType::RtC, cond: CondType::CtNone, param: 0x00 },
        0x7A => Instruction { type_in: InType::InLd, mode: AddrMode::AmRr, reg_1: RegType::RtA, reg_2: RegType::RtD, cond: CondType::CtNone, param: 0x00 },
        0x7B => Instruction { type_in: InType::InLd, mode: AddrMode::AmRr, reg_1: RegType::RtA, reg_2: RegType::RtE, cond: CondType::CtNone, param: 0x00 },
        0x7C => Instruction { type_in: InType::InLd, mode: AddrMode::AmRr, reg_1: RegType::RtA, reg_2: RegType::RtH, cond: CondType::CtNone, param: 0x00 },
        0x7D => Instruction { type_in: InType::InLd, mode: AddrMode::AmRr, reg_1: RegType::RtA, reg_2: RegType::RtL, cond: CondType::CtNone, param: 0x00 },
        0x7E => Instruction { type_in: InType::InLd, mode: AddrMode::AmRMr, reg_1: RegType::RtA, reg_2: RegType::RtHl, cond: CondType::CtNone, param: 0x00 },
        0x7F => Instruction { type_in: InType::InLd, mode: AddrMode::AmRr, reg_1: RegType::RtA, reg_2: RegType::RtA, cond: CondType::CtNone, param: 0x00 },
        0xA8 => Instruction { type_in: InType::InXor, mode: AddrMode::AmRr, reg_1: RegType::RtA, reg_2: RegType::RtB, cond: CondType::CtNone, param: 0x00 },
        0xA9 => Instruction { type_in: InType::InXor, mode: AddrMode::AmRr, reg_1: RegType::RtA, reg_2: RegType::RtC, cond: CondType::CtNone, param: 0x00 },
        0xAA => Instruction { type_in: InType::InXor, mode: AddrMode::AmRr, reg_1: RegType::RtA, reg_2: RegType::RtD, cond: CondType::CtNone, param: 0x00 },
        0xAB => Instruction { type_in: InType::InXor, mode: AddrMode::AmRr, reg_1: RegType::RtA, reg_2: RegType::RtE, cond: CondType::CtNone, param: 0x00 },
        0xAC => Instruction { type_in: InType::InXor, mode: AddrMode::AmRr, reg_1: RegType::RtA, reg_2: RegType::RtH, cond: CondType::CtNone, param: 0x00 },
        0xAD => Instruction { type_in: InType::InXor, mode: AddrMode::AmRr, reg_1: RegType::RtA, reg_2: RegType::RtL, cond: CondType::CtNone, param: 0x00 },
        0xAE => Instruction { type_in: InType::InXor, mode: AddrMode::AmRMr, reg_1: RegType::RtA, reg_2: RegType::RtHl, cond: CondType::CtNone, param: 0x00 },
        0xAF => Instruction { type_in: InType::InXor, mode: AddrMode::AmRr, reg_1: RegType::RtA, reg_2: RegType::RtA, cond: CondType::CtNone, param: 0x00 },
        0xC0 => Instruction { type_in: InType::InRet, mode: AddrMode::AmImp, reg_1: RegType::RtNone, reg_2: RegType::RtNone, cond: CondType::CtNz, param: 0x00 },
        0xC1 => Instruction { type_in: InType::InPop, mode: AddrMode::AmR, reg_1: RegType::RtBc, reg_2: RegType::RtNone, cond: CondType::CtNone, param: 0x00 },
        0xC2 => Instruction { type_in: InType::InJp, mode: AddrMode::AmD16, reg_1: RegType::RtNone, reg_2: RegType::RtNone, cond: CondType::CtNz, param: 0x00 },
        0xC3 => Instruction { type_in: InType::InJp, mode: AddrMode::AmD16, reg_1: RegType::RtNone, reg_2: RegType::RtNone, cond: CondType::CtNone, param: 0x00 },
        0xC4 => Instruction { type_in: InType::InCall, mode: AddrMode::AmD16, reg_1: RegType::RtNone, reg_2: RegType::RtNone, cond: CondType::CtNz, param: 0x00 },
        0xC5 => Instruction { type_in: InType::InPush, mode: AddrMode::AmR, reg_1: RegType::RtBc, reg_2: RegType::RtNone, cond: CondType::CtNone, param: 0x00 },
        0xC7 => Instruction { type_in: InType::InRst, mode: AddrMode::AmImp, reg_1: RegType::RtNone, reg_2: RegType::RtNone, cond: CondType::CtNone, param: 0x00 },
        0xC8 => Instruction { type_in: InType::InRet, mode: AddrMode::AmImp, reg_1: RegType::RtNone, reg_2: RegType::RtNone, cond: CondType::CtZ, param: 0x00 },
        0xC9 => Instruction { type_in: InType::InRet, mode: AddrMode::AmImp, reg_1: RegType::RtNone, reg_2: RegType::RtNone, cond: CondType::CtNone, param: 0x00 },
        0xCA => Instruction { type_in: InType::InJp, mode: AddrMode::AmD16, reg_1: RegType::RtNone, reg_2: RegType::RtNone, cond: CondType::CtZ, param: 0x00 },
        0xCC => Instruction { type_in: InType::InCall, mode: AddrMode::AmD16, reg_1: RegType::RtNone, reg_2: RegType::RtNone, cond: CondType::CtZ, param: 0x00 },
        0xCD => Instruction { type_in: InType::InCall, mode: AddrMode::AmD16, reg_1: RegType::RtNone, reg_2: RegType::RtNone, cond: CondType::CtNone, param: 0x00 },
        0xCF => Instruction { type_in: InType::InRst, mode: AddrMode::AmImp, reg_1: RegType::RtNone, reg_2: RegType::RtNone, cond: CondType::CtNone, param: 0x08 },
        0xD0 => Instruction { type_in: InType::InRet, mode: AddrMode::AmImp, reg_1: RegType::RtNone, reg_2: RegType::RtNone, cond: CondType::CtNc, param: 0x00 },
        0xD1 => Instruction { type_in: InType::InPop, mode: AddrMode::AmR, reg_1: RegType::RtDe, reg_2: RegType::RtNone, cond: CondType::CtNone, param: 0x00 },
        0xD2 => Instruction { type_in: InType::InJp, mode: AddrMode::AmD16, reg_1: RegType::RtNone, reg_2: RegType::RtNone, cond: CondType::CtNc, param: 0x00 },
        0xD4 => Instruction { type_in: InType::InCall, mode: AddrMode::AmD16, reg_1: RegType::RtNone, reg_2: RegType::RtNone, cond: CondType::CtNc, param: 0x00 },
        0xD5 => Instruction { type_in: InType::InPush, mode: AddrMode::AmR, reg_1: RegType::RtDe, reg_2: RegType::RtNone, cond: CondType::CtNone, param: 0x00 },
        0xD7 => Instruction { type_in: InType::InRst, mode: AddrMode::AmImp, reg_1: RegType::RtNone, reg_2: RegType::RtNone, cond: CondType::CtNone, param: 0x10 },
        0xD8 => Instruction { type_in: InType::InRet, mode: AddrMode::AmImp, reg_1: RegType::RtNone, reg_2: RegType::RtNone, cond: CondType::CtC, param: 0x00 },
        0xD9 => Instruction { type_in: InType::InReti, mode: AddrMode::AmImp, reg_1: RegType::RtNone, reg_2: RegType::RtNone, cond: CondType::CtNone, param: 0x00 },
        0xDA => Instruction { type_in: InType::InJp, mode: AddrMode::AmD16, reg_1: RegType::RtNone, reg_2: RegType::RtNone, cond: CondType::CtC, param: 0x00 },
        0xDC => Instruction { type_in: InType::InCall, mode: AddrMode::AmD16, reg_1: RegType::RtNone, reg_2: RegType::RtNone, cond: CondType::CtC, param: 0x00 },
        0xDF => Instruction { type_in: InType::InRst, mode: AddrMode::AmImp, reg_1: RegType::RtNone, reg_2: RegType::RtNone, cond: CondType::CtNone, param: 0x18 },
        0xE0 => Instruction { type_in: InType::InLdh, mode: AddrMode::AmA8r, reg_1: RegType::RtNone, reg_2: RegType::RtA, cond: CondType::CtNone, param: 0x00 },
        0xE1 => Instruction { type_in: InType::InPop, mode: AddrMode::AmR, reg_1: RegType::RtHl, reg_2: RegType::RtNone, cond: CondType::CtNone, param: 0x00 },
        0xE2 => Instruction { type_in: InType::InLd, mode: AddrMode::AmMrr, reg_1: RegType::RtC, reg_2: RegType::RtA, cond: CondType::CtNone, param: 0x00 },
        0xE5 => Instruction { type_in: InType::InPush, mode: AddrMode::AmR, reg_1: RegType::RtHl, reg_2: RegType::RtNone, cond: CondType::CtNone, param: 0x00 },
        0xE7 => Instruction { type_in: InType::InRst, mode: AddrMode::AmImp, reg_1: RegType::RtNone, reg_2: RegType::RtNone, cond: CondType::CtNone, param: 0x20 },
        0xE9 => Instruction { type_in: InType::InJp, mode: AddrMode::AmR, reg_1: RegType::RtHl, reg_2: RegType::RtNone, cond: CondType::CtNone, param: 0x00 },
        0xEA => Instruction { type_in: InType::InLd, mode: AddrMode::AmD16r, reg_1: RegType::RtNone, reg_2: RegType::RtA, cond: CondType::CtNone, param: 0x00 },
        0xEE => Instruction { type_in: InType::InXor, mode: AddrMode::AmRD8, reg_1: RegType::RtA, reg_2: RegType::RtNone, cond: CondType::CtNone, param: 0x00 },
        0xEF => Instruction { type_in: InType::InRst, mode: AddrMode::AmImp, reg_1: RegType::RtNone, reg_2: RegType::RtNone, cond: CondType::CtNone, param: 0x28 },
        0xF0 => Instruction { type_in: InType::InLdh, mode: AddrMode::AmRa8, reg_1: RegType::RtA, reg_2: RegType::RtNone, cond: CondType::CtNone, param: 0x00 },
        0xF1 => Instruction { type_in: InType::InPop, mode: AddrMode::AmR, reg_1: RegType::RtAf, reg_2: RegType::RtNone, cond: CondType::CtNone, param: 0x00 },
        0xF2 => Instruction { type_in: InType::InLd, mode: AddrMode::AmRMr, reg_1: RegType::RtA, reg_2: RegType::RtC, cond: CondType::CtNone, param: 0x00 },
        0xF3 => Instruction { type_in: InType::InDi, mode: AddrMode::AmImp, reg_1: RegType::RtNone, reg_2: RegType::RtNone, cond: CondType::CtNone, param: 0x00 },
        0xF5 => Instruction { type_in: InType::InPush, mode: AddrMode::AmR, reg_1: RegType::RtAf, reg_2: RegType::RtNone, cond: CondType::CtNone, param: 0x00 },
        0xF7 => Instruction { type_in: InType::InRst, mode: AddrMode::AmImp, reg_1: RegType::RtNone, reg_2: RegType::RtNone, cond: CondType::CtNone, param: 0x30 },
        0xF8 => Instruction { type_in: InType::InLd, mode: AddrMode::AmHlspr, reg_1: RegType::RtHl, reg_2: RegType::RtSp, cond: CondType::CtNone, param: 0x00 },
        0xF9 => Instruction { type_in: InType::InLd, mode: AddrMode::AmRr, reg_1: RegType::RtSp, reg_2: RegType::RtHl, cond: CondType::CtNone, param: 0x00 },
        0xFA => Instruction { type_in: InType::InLd, mode: AddrMode::AmRa16, reg_1: RegType::RtA, reg_2: RegType::RtNone, cond: CondType::CtNone, param: 0x00 },
        0xFF => Instruction { type_in: InType::InRst, mode: AddrMode::AmImp, reg_1: RegType::RtNone, reg_2: RegType::RtNone, cond: CondType::CtNone, param: 0x38 },
        _ => Instruction { type_in: InType::InNone, mode: AddrMode::AmImp, reg_1: RegType::RtNone, reg_2: RegType::RtNone, cond: CondType::CtNone, param: 0x00 },
    }
}

/// Looks an opcode up in the instruction table. Total: an unmapped opcode
/// yields the sentinel descriptor rather than a failure.
pub fn instruction_by_opcode(opcode: u8) -> (r: Instruction)
    ensures
        r == spec_instruction(opcode),
{
    match opcode {
        0x00 => Instruction { type_in: InType::InNop, mode: AddrMode::AmImp, reg_1: RegType::RtNone, reg_2: RegType::RtNone, cond: CondType::CtNone, param: 0x00 },
        0x01 => Instruction { type_in: InType::InLd, mode: AddrMode::AmD16, reg_1: RegType::RtBc, reg_2: RegType::RtNone, cond: CondType::CtNone, param: 0x00 },
        0x02 => Instruction { type_in: InType::InLd, mode: AddrMode::AmMrr, reg_1: RegType::RtBc, reg_2: RegType::RtA, cond: CondType::CtNone, param: 0x00 },
        0x03 => Instruction { type_in: InType::InInc, mode: AddrMode::AmR, reg_1: RegType::RtBc, reg_2: RegType::RtNone, cond: CondType::CtNone, param: 0x00 },
        0x04 => Instruction { type_in: InType::InInc, mode: AddrMode::AmR, reg_1: RegType::RtB, reg_2: RegType::RtNone, cond: CondType::CtNone, param: 0x00 },
        0x06 => Instruction { type_in: InType::InLd, mode: AddrMode::AmRD8, reg_1: RegType::RtB, reg_2: RegType::RtNone, cond: CondType::CtNone, param: 0x00 },
        0x08 => Instruction { type_in: InType::InLd, mode: AddrMode::AmD16r, reg_1: RegType::RtNone, reg_2: RegType::RtSp, cond: CondType::CtNone, param: 0x00 },
        0x0A => Instruction { type_in: InType::InLd, mode: AddrMode::AmRMr, reg_1: RegType::RtA, reg_2: RegType::RtBc, cond: CondType::CtNone, param: 0x00 },
        0x0C => Instruction { type_in: InType::InInc, mode: AddrMode::AmR, reg_1: RegType::RtC, reg_2: RegType::RtNone, cond: CondType::CtNone, param: 0x00 },
        0x0E => Instruction { type_in: InType::InLd, mode: AddrMode::AmRD8, reg_1: RegType::RtC, reg_2: RegType::RtNone, cond: CondType::CtNone, param: 0x00 },
        0x11 => Instruction { type_in: InType::InLd, mode: AddrMode::AmD16, reg_1: RegType::RtDe, reg_2: RegType::RtNone, cond: CondType::CtNone, param: 0x00 },
        0x12 => Instruction { type_in: InType::InLd, mode: AddrMode::AmMrr, reg_1: RegType::RtDe, reg_2: RegType::RtA, cond: CondType::CtNone, param: 0x00 },
        0x13 => Instruction { type_in: InType::InInc, mode: AddrMode::AmR, reg_1: RegType::RtDe, reg_2: RegType::RtNone, cond: CondType::CtNone, param: 0x00 },
        0x14 => Instruction { type_in: InType::InInc, mode: AddrMode::AmR, reg_1: RegType::RtD, reg_2: RegType::RtNone, cond: CondType::CtNone, param: 0x00 },
        0x16 => Instruction { type_in: InType::InLd, mode: AddrMode::AmRD8, reg_1: RegType::RtD, reg_2: RegType::RtNone, cond: CondType::CtNone, param: 0x00 },
        0x18 => Instruction { type_in: InType::InJr, mode: AddrMode::AmD8, reg_1: RegType::RtNone, reg_2: RegType::RtNone, cond: CondType::CtNone, param: 0x00 },
        0x1A => Instruction { type_in: InType::InLd, mode: AddrMode::AmRMr, reg_1: RegType::RtA, reg_2: RegType::RtDe, cond: CondType::CtNone, param: 0x00 },
        0x1C => Instruction { type_in: InType::InInc, mode: AddrMode::AmR, reg_1: RegType::RtE, reg_2: RegType::RtNone, cond: CondType::CtNone, param: 0x00 },
        0x1E => Instruction { type_in: InType::InLd, mode: AddrMode::AmRD8, reg_1: RegType::RtE, reg_2: RegType::RtNone, cond: CondType::CtNone, param: 0x00 },
        0x20 => Instruction { type_in: InType::InJr, mode: AddrMode::AmD8, reg_1: RegType::RtNone, reg_2: RegType::RtNone, cond: CondType::CtNz, param: 0x00 },
        0x21 => Instruction { type_in: InType::InLd, mode: AddrMode::AmD16, reg_1: RegType::RtHl, reg_2: RegType::RtNone, cond: CondType::CtNone, param: 0x00 },
        0x22 => Instruction { type_in: InType::InLd, mode: AddrMode::AmHlir, reg_1: RegType::RtHl, reg_2: RegType::RtA, cond: CondType::CtNone, param: 0x00 },
        0x23 => Instruction { type_in: InType::InInc, mode: AddrMode::AmR, reg_1: RegType::RtHl, reg_2: RegType::RtNone, cond: CondType::CtNone, param: 0x00 },
        0x24 => Instruction { type_in: InType::InInc, mode: AddrMode::AmR, reg_1: RegType::RtH, reg_2: RegType::RtNone, cond: CondType::CtNone, param: 0x00 },
        0x26 => Instruction { type_in: InType::InLd, mode: AddrMode::AmRD8, reg_1: RegType::RtH, reg_2: RegType::RtNone, cond: CondType::CtNone, param: 0x00 },
        0x28 => Instruction { type_in: InType::InJr, mode: AddrMode::AmD8, reg_1: RegType::RtNone, reg_2: RegType::RtNone, cond: CondType::CtZ, param: 0x00 },
        0x2A => Instruction { type_in: InType::InLd, mode: AddrMode::AmRhli, reg_1: RegType::RtA, reg_2: RegType::RtHl, cond: CondType::CtNone, param: 0x00 },
        0x2C => Instruction { type_in: InType::InInc, mode: AddrMode::AmR, reg_1: RegType::RtL, reg_2: RegType::RtNone, cond: CondType::CtNone, param: 0x00 },
        0x2E => Instruction { type_in: InType::InLd, mode: AddrMode::AmRD8, reg_1: RegType::RtL, reg_2: RegType::RtNone, cond: CondType::CtNone, param: 0x00 },
        0x30 => Instruction { type_in: InType::InJr, mode: AddrMode::AmD8, reg_1: RegType::RtNone, reg_2: RegType::RtNone, cond: CondType::CtNc, param: 0x00 },
        0x31 => Instruction { type_in: InType::InLd, mode: AddrMode::AmD16, reg_1: RegType::RtSp, reg_2: RegType::RtNone, cond: CondType::CtNone, param: 0x00 },
        0x32 => Instruction { type_in: InType::InLd, mode: AddrMode::AmHldr, reg_1: RegType::RtHl, reg_2: RegType::RtA, cond: CondType::CtNone, param: 0x00 },
        0x33 => Instruction { type_in: InType::InInc, mode: AddrMode::AmR, reg_1: RegType::RtSp, reg_2: RegType::RtNone, cond: CondType::CtNone, param: 0x00 },
        0x34 => Instruction { type_in: InType::InInc, mode: AddrMode::AmMr, reg_1: RegType::RtHl, reg_2: RegType::RtNone, cond: CondType::CtNone, param: 0x00 },
        0x36 => Instruction { type_in: InType::InLd, mode: AddrMode::AmMrd8, reg_1: RegType::RtHl, reg_2: RegType::RtNone, cond: CondType::CtNone, param: 0x00 },
        0x38 => Instruction { type_in: InType::InJr, mode: AddrMode::AmD8, reg_1: RegType::RtNone, reg_2: RegType::RtNone, cond: CondType::CtC, param: 0x00 },
        0x3A => Instruction { type_in: InType::InLd, mode: AddrMode::AmRhld, reg_1: RegType::RtA, reg_2: RegType::RtHl, cond: CondType::CtNone, param: 0x00 },
        0x3C => Instruction { type_in: InType::InInc, mode: AddrMode::AmR, reg_1: RegType::RtA, reg_2: RegType::RtNone, cond: CondType::CtNone, param: 0x00 },
        0x3E => Instruction { type_in: InType::InLd, mode: AddrMode::AmRD8, reg_1: RegType::RtA, reg_2: RegType::RtNone, cond: CondType::CtNone, param: 0x00 },
        0x40 => Instruction { type_in: InType::InLd, mode: AddrMode::AmRr, reg_1: RegType::RtB, reg_2: RegType::RtB, cond: CondType::CtNone, param: 0x00 },
        0x41 => Instruction { type_in: InType::InLd, mode: AddrMode::AmRr, reg_1: RegType::RtB, reg_2: RegType::RtC, cond: CondType::CtNone, param: 0x00 },
        0x42 => Instruction { type_in: InType::InLd, mode: AddrMode::AmRr, reg_1: RegType::RtB, reg_2: RegType::RtD, cond: CondType::CtNone, param: 0x00 },
        0x43 => Instruction { type_in: InType::InLd, mode: AddrMode::AmRr, reg_1: RegType::RtB, reg_2: RegType::RtE, cond: CondType::CtNone, param: 0x00 },
        0x44 => Instruction { type_in: InType::InLd, mode: AddrMode::AmRr, reg_1: RegType::RtB, reg_2: RegType::RtH, cond: CondType::CtNone, param: 0x00 },
        0x45 => Instruction { type_in: InType::InLd, mode: AddrMode::AmRr, reg_1: RegType::RtB, reg_2: RegType::RtL, cond: CondType::CtNone, param: 0x00 },
        0x46 => Instruction { type_in: InType::InLd, mode: AddrMode::AmRMr, reg_1: RegType::RtB, reg_2: RegType::RtHl, cond: CondType::CtNone, param: 0x00 },
        0x47 => Instruction { type_in: InType::InLd, mode: AddrMode::AmRr, reg_1: RegType::RtB, reg_2: RegType::RtA, cond: CondType::CtNone, param: 0x00 },
        0x48 => Instruction { type_in: InType::InLd, mode: AddrMode::AmRr, reg_1: RegType::RtC, reg_2: RegType::RtB, cond: CondType::CtNone, param: 0x00 },
        0x49 => Instruction { type_in: InType::InLd, mode: AddrMode::AmRr, reg_1: RegType::RtC, reg_2: RegType::RtC, cond: CondType::CtNone, param: 0x00 },
        0x4A => Instruction { type_in: InType::InLd, mode: AddrMode::AmRr, reg_1: RegType::RtC, reg_2: RegType::RtD, cond: CondType::CtNone, param: 0x00 },
        0x4B => Instruction { type_in: InType::InLd, mode: AddrMode::AmRr, reg_1: RegType::RtC, reg_2: RegType::RtE, cond: CondType::CtNone, param: 0x00 },
        0x4C => Instruction { type_in: InType::InLd, mode: AddrMode::AmRr, reg_1: RegType::RtC, reg_2: RegType::RtH, cond: CondType::CtNone, param: 0x00 },
        0x4D => Instruction { type_in: InType::InLd, mode: AddrMode::AmRr, reg_1: RegType::RtC, reg_2: RegType::RtL, cond: CondType::CtNone, param: 0x00 },
        0x4E => Instruction { type_in: InType::InLd, mode: AddrMode::AmRMr, reg_1: RegType::RtC, reg_2: RegType::RtHl, cond: CondType::CtNone, param: 0x00 },
        0x4F => Instruction { type_in: InType::InLd, mode: AddrMode::AmRr, reg_1: RegType::RtC, reg_2: RegType::RtA, cond: CondType::CtNone, param: 0x00 },
        0x50 => Instruction { type_in: InType::InLd, mode: AddrMode::AmRr, reg_1: RegType::RtD, reg_2: RegType::RtB, cond: CondType::CtNone, param: 0x00 },
        0x51 => Instruction { type_in: InType::InLd, mode: AddrMode::AmRr, reg_1: RegType::RtD, reg_2: RegType::RtC, cond: CondType::CtNone, param: 0x00 },
        0x52 => Instruction { type_in: InType::InLd, mode: AddrMode::AmRr, reg_1: RegType::RtD, reg_2: RegType::RtD, cond: CondType::CtNone, param: 0x00 },
        0x53 => Instruction { type_in: InType::InLd, mode: AddrMode::AmRr, reg_1: RegType::RtD, reg_2: RegType::RtE, cond: CondType::CtNone, param: 0x00 },
        0x54 => Instruction { type_in: InType::InLd, mode: AddrMode::AmRr, reg_1: RegType::RtD, reg_2: RegType::RtH, cond: CondType::CtNone, param: 0x00 },
        0x55 => Instruction { type_in: InType::InLd, mode: AddrMode::AmRr, reg_1: RegType::RtD, reg_2: RegType::RtL, cond: CondType::CtNone, param: 0x00 },
        0x56 => Instruction { type_in: InType::InLd, mode: AddrMode::AmRMr, reg_1: RegType::RtD, reg_2: RegType::RtHl, cond: CondType::CtNone, param: 0x00 },
        0x57 => Instruction { type_in: InType::InLd, mode: AddrMode::AmRr, reg_1: RegType::RtD, reg_2: RegType::RtA, cond: CondType::CtNone, param: 0x00 },
        0x58 => Instruction { type_in: InType::InLd, mode: AddrMode::AmRr, reg_1: RegType::RtE, reg_2: RegType::RtB, cond: CondType::CtNone, param: 0x00 },
        0x59 => Instruction { type_in: InType::InLd, mode: AddrMode::AmRr, reg_1: RegType::RtE, reg_2: RegType::RtC, cond: CondType::CtNone, param: 0x00 },
        0x5A => Instruction { type_in: InType::InLd, mode: AddrMode::AmRr, reg_1: RegType::RtE, reg_2: RegType::RtD, cond: CondType::CtNone, param: 0x00 },
        0x5B => Instruction { type_in: InType::InLd, mode: AddrMode::AmRr, reg_1: RegType::RtE, reg_2: RegType::RtE, cond: CondType::CtNone, param: 0x00 },
        0x5C => Instruction { type_in: InType::InLd, mode: AddrMode::AmRr, reg_1: RegType::RtE, reg_2: RegType::RtH, cond: CondType::CtNone, param: 0x00 },
        0x5D => Instruction { type_in: InType::InLd, mode: AddrMode::AmRr, reg_1: RegType::RtE, reg_2: RegType::RtL, cond: CondType::CtNone, param: 0x00 },
        0x5E => Instruction { type_in: InType::InLd, mode: AddrMode::AmRMr, reg_1: RegType::RtE, reg_2: RegType::RtHl, cond: CondType::CtNone, param: 0x00 },
        0x5F => Instruction { type_in: InType::InLd, mode: AddrMode::AmRr, reg_1: RegType::RtE, reg_2: RegType::RtA, cond: CondType::CtNone, param: 0x00 },
        0x60 => Instruction { type_in: InType::InLd, mode: AddrMode::AmRr, reg_1: RegType::RtH, reg_2: RegType::RtB, cond: CondType::CtNone, param: 0x00 },
        0x61 => Instruction { type_in: InType::InLd, mode: AddrMode::AmRr, reg_1: RegType::RtH, reg_2: RegType::RtC, cond: CondType::CtNone, param: 0x00 },
        0x62 => Instruction { type_in: InType::InLd, mode: AddrMode::AmRr, reg_1: RegType::RtH, reg_2: RegType::RtD, cond: CondType::CtNone, param: 0x00 },
        0x63 => Instruction { type_in: InType::InLd, mode: AddrMode::AmRr, reg_1: RegType::RtH, reg_2: RegType::RtE, cond: CondType::CtNone, param: 0x00 },
        0x64 => Instruction { type_in: InType::InLd, mode: AddrMode::AmRr, reg_1: RegType::RtH, reg_2: RegType::RtH, cond: CondType::CtNone, param: 0x00 },
        0x65 => Instruction { type_in: InType::InLd, mode: AddrMode::AmRr, reg_1: RegType::RtH, reg_2: RegType::RtL, cond: CondType::CtNone, param: 0x00 },
        0x66 => Instruction { type_in: InType::InLd, mode: AddrMode::AmRMr, reg_1: RegType::RtH, reg_2: RegType::RtHl, cond: CondType::CtNone, param: 0x00 },
        0x67 => Instruction { type_in: InType::InLd, mode: AddrMode::AmRr, reg_1: RegType::RtH, reg_2: RegType::RtA, cond: CondType::CtNone, param: 0x00 },
        0x68 => Instruction { type_in: InType::InLd, mode: AddrMode::AmRr, reg_1: RegType::RtL, reg_2: RegType::RtB, cond: CondType::CtNone, param: 0x00 },
        0x69 => Instruction { type_in: InType::InLd, mode: AddrMode::AmRr, reg_1: RegType::RtL, reg_2: RegType::RtC, cond: CondType::CtNone, param: 0x00 },
        0x6A => Instruction { type_in: InType::InLd, mode: AddrMode::AmRr, reg_1: RegType::RtL, reg_2: RegType::RtD, cond: CondType::CtNone, param: 0x00 },
        0x6B => Instruction { type_in: InType::InLd, mode: AddrMode::AmRr, reg_1: RegType::RtL, reg_2: RegType::RtE, cond: CondType::CtNone, param: 0x00 },
        0x6C => Instruction { type_in: InType::InLd, mode: AddrMode::AmRr, reg_1: RegType::RtL, reg_2: RegType::RtH, cond: CondType::CtNone, param: 0x00 },
        0x6D => Instruction { type_in: InType::InLd, mode: AddrMode::AmRr, reg_1: RegType::RtL, reg_2: RegType::RtL, cond: CondType::CtNone, param: 0x00 },
        0x6E => Instruction { type_in: InType::InLd, mode: AddrMode::AmRMr, reg_1: RegType::RtL, reg_2: RegType::RtHl, cond: CondType::CtNone, param: 0x00 },
        0x6F => Instruction { type_in: InType::InLd, mode: AddrMode::AmRr, reg_1: RegType::RtL, reg_2: RegType::RtA, cond: CondType::CtNone, param: 0x00 },
        0x70 => Instruction { type_in: InType::InLd, mode: AddrMode::AmMrr, reg_1: RegType::RtHl, reg_2: RegType::RtB, cond: CondType::CtNone, param: 0x00 },
        0x71 => Instruction { type_in: InType::InLd, mode: AddrMode::AmMrr, reg_1: RegType::RtHl, reg_2: RegType::RtC, cond: CondType::CtNone, param: 0x00 },
        0x72 => Instruction { type_in: InType::InLd, mode: AddrMode::AmMrr, reg_1: RegType::RtHl, reg_2: RegType::RtD, cond: CondType::CtNone, param: 0x00 },
        0x73 => Instruction { type_in: InType::InLd, mode: AddrMode::AmMrr, reg_1: RegType::RtHl, reg_2: RegType::RtE, cond: CondType::CtNone, param: 0x00 },
        0x74 => Instruction { type_in: InType::InLd, mode: AddrMode::AmMrr, reg_1: RegType::RtHl, reg_2: RegType::RtH, cond: CondType::CtNone, param: 0x00 },
        0x75 => Instruction { type_in: InType::InLd, mode: AddrMode::AmMrr, reg_1: RegType::RtHl, reg_2: RegType::RtL, cond: CondType::CtNone, param: 0x00 },
        0x77 => Instruction { type_in: InType::InLd, mode: AddrMode::AmMrr, reg_1: RegType::RtHl, reg_2: RegType::RtA, cond: CondType::CtNone, param: 0x00 },
        0x78 => Instruction { type_in: InType::InLd, mode: AddrMode::AmRr, reg_1: RegType::RtA, reg_2: RegType::RtB, cond: CondType::CtNone, param: 0x00 },
        0x79 => Instruction { type_in: InType::InLd, mode: AddrMode::AmRr, reg_1: RegType::RtA, reg_2: RegType::RtC, cond: CondType::CtNone, param: 0x00 },
        0x7A => Instruction { type_in: InType::InLd, mode: AddrMode::AmRr, reg_1: RegType::RtA, reg_2: RegType::RtD, cond: CondType::CtNone, param: 0x00 },
        0x7B => Instruction { type_in: InType::InLd, mode: AddrMode::AmRr, reg_1: RegType::RtA, reg_2: RegType::RtE, cond: CondType::CtNone, param: 0x00 },
        0x7C => Instruction { type_in: InType::InLd, mode: AddrMode::AmRr, reg_1: RegType::RtA, reg_2: RegType::RtH, cond: CondType::CtNone, param: 0x00 },
        0x7D => Instruction { type_in: InType::InLd, mode: AddrMode::AmRr, reg_1: RegType::RtA, reg_2: RegType::RtL, cond: CondType::CtNone, param: 0x00 },
        0x7E => Instruction { type_in: InType::InLd, mode: AddrMode::AmRMr, reg_1: RegType::RtA, reg_2: RegType::RtHl, cond: CondType::CtNone, param: 0x00 },
        0x7F => Instruction { type_in: InType::InLd, mode: AddrMode::AmRr, reg_1: RegType::RtA, reg_2: RegType::RtA, cond: CondType::CtNone, param: 0x00 },
        0xA8 => Instruction { type_in: InType::InXor, mode: AddrMode::AmRr, reg_1: RegType::RtA, reg_2: RegType::RtB, cond: CondType::CtNone, param: 0x00 },
        0xA9 => Instruction { type_in: InType::InXor, mode: AddrMode::AmRr, reg_1: RegType::RtA, reg_2: RegType::RtC, cond: CondType::CtNone, param: 0x00 },
        0xAA => Instruction { type_in: InType::InXor, mode: AddrMode::AmRr, reg_1: RegType::RtA, reg_2: RegType::RtD, cond: CondType::CtNone, param: 0x00 },
        0xAB => Instruction { type_in: InType::InXor, mode: AddrMode::AmRr, reg_1: RegType::RtA, reg_2: RegType::RtE, cond: CondType::CtNone, param: 0x00 },
        0xAC => Instruction { type_in: InType::InXor, mode: AddrMode::AmRr, reg_1: RegType::RtA, reg_2: RegType::RtH, cond: CondType::CtNone, param: 0x00 },
        0xAD => Instruction { type_in: InType::InXor, mode: AddrMode::AmRr, reg_1: RegType::RtA, reg_2: RegType::RtL, cond: CondType::CtNone, param: 0x00 },
        0xAE => Instruction { type_in: InType::InXor, mode: AddrMode::AmRMr, reg_1: RegType::RtA, reg_2: RegType::RtHl, cond: CondType::CtNone, param: 0x00 },
        0xAF => Instruction { type_in: InType::InXor, mode: AddrMode::AmRr, reg_1: RegType::RtA, reg_2: RegType::RtA, cond: CondType::CtNone, param: 0x00 },
        0xC0 => Instruction { type_in: InType::InRet, mode: AddrMode::AmImp, reg_1: RegType::RtNone, reg_2: RegType::RtNone, cond: CondType::CtNz, param: 0x00 },
        0xC1 => Instruction { type_in: InType::InPop, mode: AddrMode::AmR, reg_1: RegType::RtBc, reg_2: RegType::RtNone, cond: CondType::CtNone, param: 0x00 },
        0xC2 => Instruction { type_in: InType::InJp, mode: AddrMode::AmD16, reg_1: RegType::RtNone, reg_2: RegType::RtNone, cond: CondType::CtNz, param: 0x00 },
        0xC3 => Instruction { type_in: InType::InJp, mode: AddrMode::AmD16, reg_1: RegType::RtNone, reg_2: RegType::RtNone, cond: CondType::CtNone, param: 0x00 },
        0xC4 => Instruction { type_in: InType::InCall, mode: AddrMode::AmD16, reg_1: RegType::RtNone, reg_2: RegType::RtNone, cond: CondType::CtNz, param: 0x00 },
        0xC5 => Instruction { type_in: InType::InPush, mode: AddrMode::AmR, reg_1: RegType::RtBc, reg_2: RegType::RtNone, cond: CondType::CtNone, param: 0x00 },
        0xC7 => Instruction { type_in: InType::InRst, mode: AddrMode::AmImp, reg_1: RegType::RtNone, reg_2: RegType::RtNone, cond: CondType::CtNone, param: 0x00 },
        0xC8 => Instruction { type_in: InType::InRet, mode: AddrMode::AmImp, reg_1: RegType::RtNone, reg_2: RegType::RtNone, cond: CondType::CtZ, param: 0x00 },
        0xC9 => Instruction { type_in: InType::InRet, mode: AddrMode::AmImp, reg_1: RegType::RtNone, reg_2: RegType::RtNone, cond: CondType::CtNone, param: 0x00 },
        0xCA => Instruction { type_in: InType::InJp, mode: AddrMode::AmD16, reg_1: RegType::RtNone, reg_2: RegType::RtNone, cond: CondType::CtZ, param: 0x00 },
        0xCC => Instruction { type_in: InType::InCall, mode: AddrMode::AmD16, reg_1: RegType::RtNone, reg_2: RegType::RtNone, cond: CondType::CtZ, param: 0x00 },
        0xCD => Instruction { type_in: InType::InCall, mode: AddrMode::AmD16, reg_1: RegType::RtNone, reg_2: RegType::RtNone, cond: CondType::CtNone, param: 0x00 },
        0xCF => Instruction { type_in: InType::InRst, mode: AddrMode::AmImp, reg_1: RegType::RtNone, reg_2: RegType::RtNone, cond: CondType::CtNone, param: 0x08 },
        0xD0 => Instruction { type_in: InType::InRet, mode: AddrMode::AmImp, reg_1: RegType::RtNone, reg_2: RegType::RtNone, cond: CondType::CtNc, param: 0x00 },
        0xD1 => Instruction { type_in: InType::InPop, mode: AddrMode::AmR, reg_1: RegType::RtDe, reg_2: RegType::RtNone, cond: CondType::CtNone, param: 0x00 },
        0xD2 => Instruction { type_in: InType::InJp, mode: AddrMode::AmD16, reg_1: RegType::RtNone, reg_2: RegType::RtNone, cond: CondType::CtNc, param: 0x00 },
        0xD4 => Instruction { type_in: InType::InCall, mode: AddrMode::AmD16, reg_1: RegType::RtNone, reg_2: RegType::RtNone, cond: CondType::CtNc, param: 0x00 },
        0xD5 => Instruction { type_in: InType::InPush, mode: AddrMode::AmR, reg_1: RegType::RtDe, reg_2: RegType::RtNone, cond: CondType::CtNone, param: 0x00 },
        0xD7 => Instruction { type_in: InType::InRst, mode: AddrMode::AmImp, reg_1: RegType::RtNone, reg_2: RegType::RtNone, cond: CondType::CtNone, param: 0x10 },
        0xD8 => Instruction { type_in: InType::InRet, mode: AddrMode::AmImp, reg_1: RegType::RtNone, reg_2: RegType::RtNone, cond: CondType::CtC, param: 0x00 },
        0xD9 => Instruction { type_in: InType::InReti, mode: AddrMode::AmImp, reg_1: RegType::RtNone, reg_2: RegType::RtNone, cond: CondType::CtNone, param: 0x00 },
        0xDA => Instruction { type_in: InType::InJp, mode: AddrMode::AmD16, reg_1: RegType::RtNone, reg_2: RegType::RtNone, cond: CondType::CtC, param: 0x00 },
        0xDC => Instruction { type_in: InType::InCall, mode: AddrMode::AmD16, reg_1: RegType::RtNone, reg_2: RegType::RtNone, cond: CondType::CtC, param: 0x00 },
        0xDF => Instruction { type_in: InType::InRst, mode: AddrMode::AmImp, reg_1: RegType::RtNone, reg_2: RegType::RtNone, cond: CondType::CtNone, param: 0x18 },
        0xE0 => Instruction { type_in: InType::InLdh, mode: AddrMode::AmA8r, reg_1: RegType::RtNone, reg_2: RegType::RtA, cond: CondType::CtNone, param: 0x00 },
        0xE1 => Instruction { type_in: InType::InPop, mode: AddrMode::AmR, reg_1: RegType::RtHl, reg_2: RegType::RtNone, cond: CondType::CtNone, param: 0x00 },
        0xE2 => Instruction { type_in: InType::InLd, mode: AddrMode::AmMrr, reg_1: RegType::RtC, reg_2: RegType::RtA, cond: CondType::CtNone, param: 0x00 },
        0xE5 => Instruction { type_in: InType::InPush, mode: AddrMode::AmR, reg_1: RegType::RtHl, reg_2: RegType::RtNone, cond: CondType::CtNone, param: 0x00 },
        0xE7 => Instruction { type_in: InType::InRst, mode: AddrMode::AmImp, reg_1: RegType::RtNone, reg_2: RegType::RtNone, cond: CondType::CtNone, param: 0x20 },
        0xE9 => Instruction { type_in: InType::InJp, mode: AddrMode::AmR, reg_1: RegType::RtHl, reg_2: RegType::RtNone, cond: CondType::CtNone, param: 0x00 },
        0xEA => Instruction { type_in: InType::InLd, mode: AddrMode::AmD16r, reg_1: RegType::RtNone, reg_2: RegType::RtA, cond: CondType::CtNone, param: 0x00 },
        0xEE => Instruction { type_in: InType::InXor, mode: AddrMode::AmRD8, reg_1: RegType::RtA, reg_2: RegType::RtNone, cond: CondType::CtNone, param: 0x00 },
        0xEF => Instruction { type_in: InType::InRst, mode: AddrMode::AmImp, reg_1: RegType::RtNone, reg_2: RegType::RtNone, cond: CondType::CtNone, param: 0x28 },
        0xF0 => Instruction { type_in: InType::InLdh, mode: AddrMode::AmRa8, reg_1: RegType::RtA, reg_2: RegType::RtNone, cond: CondType::CtNone, param: 0x00 },
        0xF1 => Instruction { type_in: InType::InPop, mode: AddrMode::AmR, reg_1: RegType::RtAf, reg_2: RegType::RtNone, cond: CondType::CtNone, param: 0x00 },
        0xF2 => Instruction { type_in: InType::InLd, mode: AddrMode::AmRMr, reg_1: RegType::RtA, reg_2: RegType::RtC, cond: CondType::CtNone, param: 0x00 },
        0xF3 => Instruction { type_in: InType::InDi, mode: AddrMode::AmImp, reg_1: RegType::RtNone, reg_2: RegType::RtNone, cond: CondType::CtNone, param: 0x00 },
        0xF5 => Instruction { type_in: InType::InPush, mode: AddrMode::AmR, reg_1: RegType::RtAf, reg_2: RegType::RtNone, cond: CondType::CtNone, param: 0x00 },
        0xF7 => Instruction { type_in: InType::InRst, mode: AddrMode::AmImp, reg_1: RegType::RtNone, reg_2: RegType::RtNone, cond: CondType::CtNone, param: 0x30 },
        0xF8 => Instruction { type_in: InType::InLd, mode: AddrMode::AmHlspr, reg_1: RegType::RtHl, reg_2: RegType::RtSp, cond: CondType::CtNone, param: 0x00 },
        0xF9 => Instruction { type_in: InType::InLd, mode: AddrMode::AmRr, reg_1: RegType::RtSp, reg_2: RegType::RtHl, cond: CondType::CtNone, param: 0x00 },
        0xFA => Instruction { type_in: InType::InLd, mode: AddrMode::AmRa16, reg_1: RegType::RtA, reg_2: RegType::RtNone, cond: CondType::CtNone, param: 0x00 },
        0xFF => Instruction { type_in: InType::InRst, mode: AddrMode::AmImp, reg_1: RegType::RtNone, reg_2: RegType::RtNone, cond: CondType::CtNone, param: 0x38 },
        _ => Instruction { type_in: InType::InNone, mode: AddrMode::AmImp, reg_1: RegType::RtNone, reg_2: RegType::RtNone, cond: CondType::CtNone, param: 0x00 },
    }
}


/// The sentinel descriptor as a value.
pub fn no_instruction() -> (r: Instruction)
    ensures
        r == spec_no_instruction(),
{
    Instruction {
        type_in: InType::InNone,
        mode: AddrMode::AmImp,
        reg_1: RegType::RtNone,
        reg_2: RegType::RtNone,
        cond: CondType::CtNone,
        param: 0x00,
    }
}

} // verus!
