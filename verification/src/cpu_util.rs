//! The register accessors: 8-bit get/set per register and 16-bit get/set per
//! composite pair. Pairs are derived from their 8-bit halves by a fixed
//! byte composition that round-trips (`lemma_pair_round_trip`); AF keeps the
//! low nibble of F forced to zero.

use vstd::prelude::*;
use crate::cart::CartContext;
use crate::common::{hi8, lo8, pair16};
use crate::cpu::{CpuContext, CpuRegister, CpuView};
use crate::bus::{spec_bus_read, spec_bus_write};
use crate::instructions::RegType;
use crate::EmuError;

verus! {

/// The value of a register or composite pair: an 8-bit register widens, a
/// pair composes its high and low halves, `RtNone` reads zero.
pub open spec fn spec_read_reg(v: CpuView, rt: RegType) -> u16 {
    match rt {
        RegType::RtNone => 0,
        RegType::RtA => v.regs.a as u16,
        RegType::RtF => v.regs.f as u16,
        RegType::RtB => v.regs.b as u16,
        RegType::RtC => v.regs.c as u16,
        RegType::RtD => v.regs.d as u16,
        RegType::RtE => v.regs.e as u16,
        RegType::RtH => v.regs.h as u16,
        RegType::RtL => v.regs.l as u16,
        RegType::RtAf => pair16(v.regs.a, v.regs.f),
        RegType::RtBc => pair16(v.regs.b, v.regs.c),
        RegType::RtDe => pair16(v.regs.d, v.regs.e),
        RegType::RtHl => pair16(v.regs.h, v.regs.l),
        RegType::RtPc => v.regs.pc,
        RegType::RtSp => v.regs.sp,
    }
}

/// The state after writing a register or composite pair: an 8-bit register
/// takes the low byte, a pair splits into its halves, every write to F
/// masks its low nibble to zero, `RtNone` changes nothing.
pub open spec fn spec_set_reg(v: CpuView, rt: RegType, val: u16) -> CpuView {
    match rt {
        RegType::RtNone => v,
        RegType::RtA => CpuView { regs: CpuRegister { a: lo8(val), ..v.regs }, ..v },
        RegType::RtF => CpuView { regs: CpuRegister { f: lo8(val) & 0xF0, ..v.regs }, ..v },
        RegType::RtB => CpuView { regs: CpuRegister { b: lo8(val), ..v.regs }, ..v },
        RegType::RtC => CpuView { regs: CpuRegister { c: lo8(val), ..v.regs }, ..v },
        RegType::RtD => CpuView { regs: CpuRegister { d: lo8(val), ..v.regs }, ..v },
        RegType::RtE => CpuView { regs: CpuRegister { e: lo8(val), ..v.regs }, ..v },
        RegType::RtH => CpuView { regs: CpuRegister { h: lo8(val), ..v.regs }, ..v },
        RegType::RtL => CpuView { regs: CpuRegister { l: lo8(val), ..v.regs }, ..v },
        RegType::RtAf => CpuView {
            regs: CpuRegister { a: hi8(val), f: lo8(val) & 0xF0, ..v.regs },
            ..v
        },
        RegType::RtBc => CpuView { regs: CpuRegister { b: hi8(val), c: lo8(val), ..v.regs }, ..v },
        RegType::RtDe => CpuView { regs: CpuRegister { d: hi8(val), e: lo8(val), ..v.regs }, ..v },
        RegType::RtHl => CpuView { regs: CpuRegister { h: hi8(val), l: lo8(val), ..v.regs }, ..v },
        RegType::RtPc => CpuView { regs: CpuRegister { pc: val, ..v.regs }, ..v },
        RegType::RtSp => CpuView { regs: CpuRegister { sp: val, ..v.regs }, ..v },
    }
}

/// The registers an 8-bit access supports: the eight 8-bit registers, or
/// the byte behind HL.
pub open spec fn spec_reg8_supported(rt: RegType) -> bool {
    match rt {
        RegType::RtA | RegType::RtF | RegType::RtB | RegType::RtC | RegType::RtD | RegType::RtE
            | RegType::RtH | RegType::RtL | RegType::RtHl => true,
        _ => false,
    }
}

/// The value of an 8-bit register, or of the byte behind HL (through the
/// bus, which can refuse the region).
pub open spec fn spec_read_reg8(v: CpuView, rom: Seq<u8>, rt: RegType) -> Result<u8, EmuError> {
    match rt {
        RegType::RtHl => spec_bus_read(v, rom, pair16(v.regs.h, v.regs.l)),
        _ => Ok(lo8(spec_read_reg(v, rt))),
    }
}

/// The state after an 8-bit register write, or after storing the byte
/// behind HL (through the bus, which can refuse the region).
pub open spec fn spec_set_reg8(v: CpuView, rt: RegType, val: u8) -> (CpuView, Result<
    (),
    EmuError,
>) {
    match rt {
        RegType::RtHl => spec_bus_write(v, pair16(v.regs.h, v.regs.l), val),
        _ => (spec_set_reg(v, rt, val as u16), Ok(())),
    }
}

/// Law: writing a composite pair and then reading it back yields the value
/// written, except pair AF, where the low nibble of the low byte is forced
/// to zero.
pub proof fn lemma_pair_round_trip(v: CpuView, rt: RegType, x: u16)
    requires
        rt == RegType::RtAf || rt == RegType::RtBc || rt == RegType::RtDe || rt == RegType::RtHl,
    ensures
        rt != RegType::RtAf ==> spec_read_reg(spec_set_reg(v, rt, x), rt) == x,
        rt == RegType::RtAf ==> spec_read_reg(spec_set_reg(v, rt, x), rt) == x & 0xFFF0,
{
    assert(((x / 256) as u8) * 256 + ((x % 256) as u8) == x) by (bit_vector);
    assert(((x / 256) as u8) * 256 + (((x % 256) as u8) & 0xF0) == (x & 0xFFF0)) by (bit_vector);
}

/// Every write through `spec_set_reg` keeps the state well-formed; in
/// particular the low nibble of F stays zero.
pub proof fn lemma_set_reg_wf(v: CpuView, rt: RegType, x: u16)
    requires
        v.wf(),
    ensures
        spec_set_reg(v, rt, x).wf(),
{
    assert(forall|b: u8| (b & 0xF0) & 0x0F == 0) by (bit_vector);
}

impl CpuContext {
    /// Reads a register or composite pair.
    pub fn cpu_read_reg(&self, rt: &RegType) -> (r: u16)
        ensures
            r == spec_read_reg(self@, *rt),
    {
        match rt {
            RegType::RtNone => 0,
            RegType::RtA => self.regs.a as u16,
            RegType::RtF => self.regs.f as u16,
            RegType::RtB => self.regs.b as u16,
            RegType::RtC => self.regs.c as u16,
            RegType::RtD => self.regs.d as u16,
            RegType::RtE => self.regs.e as u16,
            RegType::RtH => self.regs.h as u16,
            RegType::RtL => self.regs.l as u16,
            RegType::RtAf => self.regs.a as u16 * 256 + self.regs.f as u16,
            RegType::RtBc => self.regs.b as u16 * 256 + self.regs.c as u16,
            RegType::RtDe => self.regs.d as u16 * 256 + self.regs.e as u16,
            RegType::RtHl => self.regs.h as u16 * 256 + self.regs.l as u16,
            RegType::RtPc => self.regs.pc,
            RegType::RtSp => self.regs.sp,
        }
    }

    /// Writes a register or composite pair; writes to F or AF force the low
    /// nibble of F to zero, so well-formedness is preserved.
    pub fn cpu_set_reg(&mut self, rt: &RegType, val: u16)
        ensures
            final(self)@ == spec_set_reg(old(self)@, *rt, val),
            old(self)@.wf() ==> final(self)@.wf(),
    {
        proof {
            if old(self)@.wf() {
                lemma_set_reg_wf(old(self)@, *rt, val);
            }
        }
        match rt {
            RegType::RtNone => {},
            RegType::RtA => self.regs.a = (val % 256) as u8,
            RegType::RtF => self.regs.f = ((val % 256) as u8) & 0xF0,
            RegType::RtB => self.regs.b = (val % 256) as u8,
            RegType::RtC => self.regs.c = (val % 256) as u8,
            RegType::RtD => self.regs.d = (val % 256) as u8,
            RegType::RtE => self.regs.e = (val % 256) as u8,
            RegType::RtH => self.regs.h = (val % 256) as u8,
            RegType::RtL => self.regs.l = (val % 256) as u8,
            RegType::RtAf => {
                self.regs.a = (val / 256) as u8;
                self.regs.f = ((val % 256) as u8) & 0xF0;
            },
            RegType::RtBc => {
                self.regs.b = (val / 256) as u8;
                self.regs.c = (val % 256) as u8;
            },
            RegType::RtDe => {
                self.regs.d = (val / 256) as u8;
                self.regs.e = (val % 256) as u8;
            },
            RegType::RtHl => {
                self.regs.h = (val / 256) as u8;
                self.regs.l = (val % 256) as u8;
            },
            RegType::RtPc => self.regs.pc = val,
            RegType::RtSp => self.regs.sp = val,
        }
        assert(self@ =~= spec_set_reg(old(self)@, *rt, val));
    }

    /// Reads an 8-bit register directly, or the byte behind HL through the
    /// bus.
    pub fn cpu_read_reg8(&mut self, cart: &CartContext, rt: &RegType) -> (r: Result<u8, EmuError>)
        requires
            old(self)@.wf(),
            spec_reg8_supported(*rt),
        ensures
            final(self)@ == old(self)@,
            r == spec_read_reg8(old(self)@, cart.rom_data@, *rt),
    {
        match rt {
            RegType::RtA => Ok(self.regs.a),
            RegType::RtF => Ok(self.regs.f),
            RegType::RtB => Ok(self.regs.b),
            RegType::RtC => Ok(self.regs.c),
            RegType::RtD => Ok(self.regs.d),
            RegType::RtE => Ok(self.regs.e),
            RegType::RtH => Ok(self.regs.h),
            RegType::RtL => Ok(self.regs.l),
            _ => {
                let addr = self.cpu_read_reg(&RegType::RtHl);
                self.bus_read(cart, addr)
            },
        }
    }

    /// Writes an 8-bit register directly, or the byte behind HL through the
    /// bus.
    pub fn cpu_set_reg8(&mut self, cart: &CartContext, rt: &RegType, val: u8) -> (r: Result<
        (),
        EmuError,
    >)
        requires
            old(self)@.wf(),
            spec_reg8_supported(*rt),
        ensures
            final(self)@.wf(),
            (final(self)@, r) == spec_set_reg8(old(self)@, *rt, val),
    {
        match rt {
            RegType::RtA | RegType::RtF | RegType::RtB | RegType::RtC | RegType::RtD
                | RegType::RtE | RegType::RtH | RegType::RtL => {
                self.cpu_set_reg(rt, val as u16);
                assert(lo8(val as u16) == val) by (bit_vector);
                assert(self@ =~= spec_set_reg8(old(self)@, *rt, val).0);
                Ok(())
            },
            _ => {
                let addr = self.cpu_read_reg(&RegType::RtHl);
                self.bus_write(cart, addr, val)
            },
        }
    }
}

} // verus!
