//! The addressing-mode resolver: given the decoded descriptor, produce the
//! step's operand value and/or destination address, advancing PC and
//! emitting one timing tick per instruction-stream byte read (plus the
//! documented per-mode memory-access ticks).

use vstd::prelude::*;
use crate::bus::spec_bus_read;
use crate::cart::CartContext;
use crate::common::{pair16, wadd16, wadd64, wsub16};
use crate::cpu::{CpuContext, CpuRegister, CpuView, spec_tick};
use crate::cpu_util::{spec_read_reg, spec_set_reg};
use crate::instructions::{AddrMode, RegType};
use crate::EmuError;

verus! {

/// The start of every resolve phase: the transient destination state and
/// the stack-relative flag scratch are cleared.
pub open spec fn spec_fetch_reset(v: CpuView) -> CpuView {
    CpuView { mem_dest: 0, dest_is_mem: false, sp_add_h: false, sp_add_c: false, ..v }
}

/// Reading one instruction-stream byte: the byte at PC, one tick, PC
/// advanced by one (wrapping).
pub open spec fn spec_imm8(v: CpuView, rom: Seq<u8>) -> (CpuView, Result<u8, EmuError>) {
    match spec_bus_read(v, rom, v.regs.pc) {
        Err(e) => (v, Err(e)),
        Ok(b) => (
            CpuView {
                regs: CpuRegister { pc: wadd16(v.regs.pc, 1), ..v.regs },
                ticks: wadd64(v.ticks, 1),
                ..v
            },
            Ok(b),
        ),
    }
}

/// The model of the resolve phase, mode by mode; see each arm's comment in
/// the executable `fetch_data` for the corresponding bus activity.
pub open spec fn spec_fetch_data(v: CpuView, rom: Seq<u8>) -> (CpuView, Result<(), EmuError>) {
    let r = v.cur_inst;
    let vr = spec_fetch_reset(v);
    match r.mode {
        AddrMode::AmImp => (vr, Ok(())),
        AddrMode::AmR => (CpuView { fetched_data: spec_read_reg(vr, r.reg_1), ..vr }, Ok(())),
        AddrMode::AmRr => (CpuView { fetched_data: spec_read_reg(vr, r.reg_2), ..vr }, Ok(())),
        AddrMode::AmRD8 | AddrMode::AmD8 => {
            let (v1, rb) = spec_imm8(vr, rom);
            match rb {
                Err(e) => (v1, Err(e)),
                Ok(b) => (CpuView { fetched_data: b as u16, ..v1 }, Ok(())),
            }
        },
        AddrMode::AmD16 => {
            match spec_bus_read(vr, rom, vr.regs.pc) {
                Err(e) => (vr, Err(e)),
                Ok(lo) => {
                    let va = spec_tick(vr, 1);
                    match spec_bus_read(va, rom, wadd16(va.regs.pc, 1)) {
                        Err(e) => (va, Err(e)),
                        Ok(hi) => (
                            CpuView {
                                fetched_data: pair16(hi, lo),
                                regs: CpuRegister { pc: wadd16(va.regs.pc, 2), ..va.regs },
                                ticks: wadd64(va.ticks, 1),
                                ..va
                            },
                            Ok(()),
                        ),
                    }
                },
            }
        },
        AddrMode::AmMrr => {
            let md = spec_read_reg(vr, r.reg_1);
            (
                CpuView {
                    fetched_data: spec_read_reg(vr, r.reg_2),
                    mem_dest: if r.reg_1 == RegType::RtC {
                        md | 0xFF00
                    } else {
                        md
                    },
                    dest_is_mem: true,
                    ..vr
                },
                Ok(()),
            )
        },
        AddrMode::AmRMr => {
            let a0 = spec_read_reg(vr, r.reg_2);
            let addr = if r.reg_2 == RegType::RtC {
                a0 | 0xFF00
            } else {
                a0
            };
            match spec_bus_read(vr, rom, addr) {
                Err(e) => (vr, Err(e)),
                Ok(b) => (CpuView { fetched_data: b as u16, ..vr }, Ok(())),
            }
        },
        AddrMode::AmRhli | AddrMode::AmRhld => {
            match spec_bus_read(vr, rom, spec_read_reg(vr, r.reg_2)) {
                Err(e) => (vr, Err(e)),
                Ok(b) => {
                    let v1 = spec_tick(CpuView { fetched_data: b as u16, ..vr }, 1);
                    let hl = pair16(v1.regs.h, v1.regs.l);
                    let hl2 = if r.mode == AddrMode::AmRhli {
                        wadd16(hl, 1)
                    } else {
                        wsub16(hl, 1)
                    };
                    (spec_set_reg(v1, RegType::RtHl, hl2), Ok(()))
                },
            }
        },
        AddrMode::AmHlir | AddrMode::AmHldr => {
            let v1 = CpuView {
                fetched_data: spec_read_reg(vr, r.reg_2),
                mem_dest: spec_read_reg(vr, r.reg_1),
                dest_is_mem: true,
                ..vr
            };
            let hl = pair16(v1.regs.h, v1.regs.l);
            let hl2 = if r.mode == AddrMode::AmHlir {
                wadd16(hl, 1)
            } else {
                wsub16(hl, 1)
            };
            (spec_set_reg(v1, RegType::RtHl, hl2), Ok(()))
        },
        AddrMode::AmRa8 => {
            let (v1, rb) = spec_imm8(vr, rom);
            match rb {
                Err(e) => (v1, Err(e)),
                Ok(b) => (CpuView { fetched_data: (b as u16) | 0xFF00, ..v1 }, Ok(())),
            }
        },
        AddrMode::AmA8r => {
            let (v1, rb) = spec_imm8(vr, rom);
            match rb {
                Err(e) => (v1, Err(e)),
                Ok(b) => (
                    CpuView { mem_dest: (b as u16) | 0xFF00, dest_is_mem: true, ..v1 },
                    Ok(()),
                ),
            }
        },
        AddrMode::AmHlspr => {
            let (v1, rb) = spec_imm8(vr, rom);
            match rb {
                Err(e) => (v1, Err(e)),
                Ok(b) => {
                    let base = spec_read_reg(v1, r.reg_2);
                    (
                        CpuView {
                            fetched_data: b as u16,
                            sp_add_h: (base & 0x0F) + (b as u16 & 0x0F) > 0x0F,
                            sp_add_c: (base & 0xFF) + b > 0xFF,
                            ..v1
                        },
                        Ok(()),
                    )
                },
            }
        },
        AddrMode::AmD16r => {
            match spec_bus_read(vr, rom, vr.regs.pc) {
                Err(e) => (vr, Err(e)),
                Ok(lo) => {
                    let va = spec_tick(vr, 1);
                    match spec_bus_read(va, rom, wadd16(va.regs.pc, 1)) {
                        Err(e) => (va, Err(e)),
                        Ok(hi) => {
                            let vb = CpuView {
                                mem_dest: pair16(hi, lo),
                                dest_is_mem: true,
                                regs: CpuRegister { pc: wadd16(va.regs.pc, 2), ..va.regs },
                                ticks: wadd64(va.ticks, 1),
                                ..va
                            };
                            (CpuView { fetched_data: spec_read_reg(vb, r.reg_2), ..vb }, Ok(()))
                        },
                    }
                },
            }
        },
        AddrMode::AmMrd8 => {
            let (v1, rb) = spec_imm8(vr, rom);
            match rb {
                Err(e) => (v1, Err(e)),
                Ok(b) => (
                    CpuView {
                        fetched_data: b as u16,
                        mem_dest: spec_read_reg(v1, r.reg_1),
                        dest_is_mem: true,
                        ..v1
                    },
                    Ok(()),
                ),
            }
        },
        AddrMode::AmMr => {
            let v1 = CpuView { mem_dest: spec_read_reg(vr, r.reg_1), dest_is_mem: true, ..vr };
            match spec_bus_read(v1, rom, spec_read_reg(v1, r.reg_1)) {
                Err(e) => (v1, Err(e)),
                Ok(b) => (spec_tick(CpuView { fetched_data: b as u16, ..v1 }, 1), Ok(())),
            }
        },
        AddrMode::AmRa16 => {
            match spec_bus_read(vr, rom, vr.regs.pc) {
                Err(e) => (vr, Err(e)),
                Ok(lo) => {
                    let va = spec_tick(vr, 1);
                    match spec_bus_read(va, rom, wadd16(va.regs.pc, 1)) {
                        Err(e) => (va, Err(e)),
                        Ok(hi) => {
                            let vb = CpuView {
                                regs: CpuRegister { pc: wadd16(va.regs.pc, 2), ..va.regs },
                                ticks: wadd64(va.ticks, 1),
                                ..va
                            };
                            match spec_bus_read(vb, rom, pair16(hi, lo)) {
                                Err(e) => (vb, Err(e)),
                                Ok(b) => (
                                    spec_tick(CpuView { fetched_data: b as u16, ..vb }, 1),
                                    Ok(()),
                                ),
                            }
                        },
                    }
                },
            }
        },
    }
}

impl CpuContext {
    /// The resolve phase: fills the fetched operand and/or the destination
    /// address from the current descriptor's addressing mode, advancing PC
    /// past the operand bytes and emitting one tick per instruction-stream
    /// byte read plus the per-mode memory-access ticks.
    pub fn fetch_data(&mut self, cart: &CartContext) -> (r: Result<(), EmuError>)
        requires
            old(self)@.wf(),
        ensures
            final(self)@.wf(),
            (final(self)@, r) == spec_fetch_data(old(self)@, cart.rom_data@),
    {
        match self.cur_inst.mode {
            AddrMode::AmImp => self.fetch_imp(cart),
            AddrMode::AmR => self.fetch_reg1(cart),
            AddrMode::AmRr => self.fetch_reg2(cart),
            AddrMode::AmRD8 | AddrMode::AmD8 => self.fetch_d8(cart),
            AddrMode::AmD16 => self.fetch_d16(cart),
            AddrMode::AmMrr => self.fetch_mrr(cart),
            AddrMode::AmRMr => self.fetch_rmr(cart),
            AddrMode::AmRhli | AddrMode::AmRhld => self.fetch_hl_indirect_source(cart),
            AddrMode::AmHlir | AddrMode::AmHldr => self.fetch_hl_indirect_dest(cart),
            AddrMode::AmRa8 => self.fetch_port_load(cart),
            AddrMode::AmA8r => self.fetch_port_store(cart),
            AddrMode::AmHlspr => self.fetch_stack_relative(cart),
            AddrMode::AmD16r => self.fetch_d16_dest(cart),
            AddrMode::AmMrd8 => self.fetch_mrd8(cart),
            AddrMode::AmMr => self.fetch_mr(cart),
            AddrMode::AmRa16 => self.fetch_a16_source(cart),
        }
    }

    /// No operand: only the transient state is cleared.
    fn fetch_imp(&mut self, cart: &CartContext) -> (r: Result<(), EmuError>)
        requires
            old(self)@.wf(),
            old(self)@.cur_inst.mode == AddrMode::AmImp,
        ensures
            final(self)@.wf(),
            (final(self)@, r) == spec_fetch_data(old(self)@, cart.rom_data@),
    {
        self.mem_dest = 0;
        self.dest_is_mem = false;
        self.sp_add_h = false;
        self.sp_add_c = false;
        let inst = self.cur_inst;
        assert(self@ =~= spec_fetch_data(old(self)@, cart.rom_data@).0);
        Ok(())
    }

    /// Operand straight from the first register, no bus activity.
    fn fetch_reg1(&mut self, cart: &CartContext) -> (r: Result<(), EmuError>)
        requires
            old(self)@.wf(),
            old(self)@.cur_inst.mode == AddrMode::AmR,
        ensures
            final(self)@.wf(),
            (final(self)@, r) == spec_fetch_data(old(self)@, cart.rom_data@),
    {
        self.mem_dest = 0;
        self.dest_is_mem = false;
        self.sp_add_h = false;
        self.sp_add_c = false;
        let inst = self.cur_inst;
        self.fetched_data = self.cpu_read_reg(&inst.reg_1);
        assert(self@ =~= spec_fetch_data(old(self)@, cart.rom_data@).0);
        Ok(())
    }

    /// Operand straight from the second register, no bus activity.
    fn fetch_reg2(&mut self, cart: &CartContext) -> (r: Result<(), EmuError>)
        requires
            old(self)@.wf(),
            old(self)@.cur_inst.mode == AddrMode::AmRr,
        ensures
            final(self)@.wf(),
            (final(self)@, r) == spec_fetch_data(old(self)@, cart.rom_data@),
    {
        self.mem_dest = 0;
        self.dest_is_mem = false;
        self.sp_add_h = false;
        self.sp_add_c = false;
        let inst = self.cur_inst;
        self.fetched_data = self.cpu_read_reg(&inst.reg_2);
        assert(self@ =~= spec_fetch_data(old(self)@, cart.rom_data@).0);
        Ok(())
    }

    /// One immediate byte: one tick, PC moves past it.
    fn fetch_d8(&mut self, cart: &CartContext) -> (r: Result<(), EmuError>)
        requires
            old(self)@.wf(),
            old(self)@.cur_inst.mode == AddrMode::AmRD8 || old(self)@.cur_inst.mode == AddrMode::AmD8,
        ensures
            final(self)@.wf(),
            (final(self)@, r) == spec_fetch_data(old(self)@, cart.rom_data@),
    {
        self.mem_dest = 0;
        self.dest_is_mem = false;
        self.sp_add_h = false;
        self.sp_add_c = false;
        let inst = self.cur_inst;
        let b = match self.bus_read(cart, self.regs.pc) {
            Ok(b) => b,
            Err(e) => {
                return Err(e);
            },
        };
        self.tick(1);
        self.regs.pc = self.regs.pc.wrapping_add(1);
        self.fetched_data = b as u16;
        assert(self@ =~= spec_fetch_data(old(self)@, cart.rom_data@).0);
        Ok(())
    }

    /// Two immediate bytes, little endian: one tick each.
    fn fetch_d16(&mut self, cart: &CartContext) -> (r: Result<(), EmuError>)
        requires
            old(self)@.wf(),
            old(self)@.cur_inst.mode == AddrMode::AmD16,
        ensures
            final(self)@.wf(),
            (final(self)@, r) == spec_fetch_data(old(self)@, cart.rom_data@),
    {
        self.mem_dest = 0;
        self.dest_is_mem = false;
        self.sp_add_h = false;
        self.sp_add_c = false;
        let inst = self.cur_inst;
        let lo = match self.bus_read(cart, self.regs.pc) {
            Ok(b) => b,
            Err(e) => {
                return Err(e);
            },
        };
        self.tick(1);
        let hi = match self.bus_read(cart, self.regs.pc.wrapping_add(1)) {
            Ok(b) => b,
            Err(e) => {
                return Err(e);
            },
        };
        self.tick(1);
        self.regs.pc = self.regs.pc.wrapping_add(2);
        self.fetched_data = hi as u16 * 256 + lo as u16;
        assert(self@ =~= spec_fetch_data(old(self)@, cart.rom_data@).0);
        Ok(())
    }

    /// Destination address from the first register; the I/O-port shorthand register is widened onto the 0xFF00 page.
    fn fetch_mrr(&mut self, cart: &CartContext) -> (r: Result<(), EmuError>)
        requires
            old(self)@.wf(),
            old(self)@.cur_inst.mode == AddrMode::AmMrr,
        ensures
            final(self)@.wf(),
            (final(self)@, r) == spec_fetch_data(old(self)@, cart.rom_data@),
    {
        self.mem_dest = 0;
        self.dest_is_mem = false;
        self.sp_add_h = false;
        self.sp_add_c = false;
        let inst = self.cur_inst;
        self.fetched_data = self.cpu_read_reg(&inst.reg_2);
        let md = self.cpu_read_reg(&inst.reg_1);
        self.mem_dest = if inst.reg_1 == RegType::RtC {
            md | 0xFF00
        } else {
            md
        };
        self.dest_is_mem = true;
        assert(self@ =~= spec_fetch_data(old(self)@, cart.rom_data@).0);
        Ok(())
    }

    /// Register-indirect source; the I/O-port shorthand register is widened onto the 0xFF00 page.
    fn fetch_rmr(&mut self, cart: &CartContext) -> (r: Result<(), EmuError>)
        requires
            old(self)@.wf(),
            old(self)@.cur_inst.mode == AddrMode::AmRMr,
        ensures
            final(self)@.wf(),
            (final(self)@, r) == spec_fetch_data(old(self)@, cart.rom_data@),
    {
        self.mem_dest = 0;
        self.dest_is_mem = false;
        self.sp_add_h = false;
        self.sp_add_c = false;
        let inst = self.cur_inst;
        let a0 = self.cpu_read_reg(&inst.reg_2);
        let addr = if inst.reg_2 == RegType::RtC {
            a0 | 0xFF00
        } else {
            a0
        };
        let b = match self.bus_read(cart, addr) {
            Ok(b) => b,
            Err(e) => {
                return Err(e);
            },
        };
        self.fetched_data = b as u16;
        assert(self@ =~= spec_fetch_data(old(self)@, cart.rom_data@).0);
        Ok(())
    }

    /// HL-indirect source; HL moves as a side effect of addressing, not of execution.
    fn fetch_hl_indirect_source(&mut self, cart: &CartContext) -> (r: Result<(), EmuError>)
        requires
            old(self)@.wf(),
            old(self)@.cur_inst.mode == AddrMode::AmRhli || old(self)@.cur_inst.mode == AddrMode::AmRhld,
        ensures
            final(self)@.wf(),
            (final(self)@, r) == spec_fetch_data(old(self)@, cart.rom_data@),
    {
        self.mem_dest = 0;
        self.dest_is_mem = false;
        self.sp_add_h = false;
        self.sp_add_c = false;
        let inst = self.cur_inst;
        let addr = self.cpu_read_reg(&inst.reg_2);
        let b = match self.bus_read(cart, addr) {
            Ok(b) => b,
            Err(e) => {
                return Err(e);
            },
        };
        self.fetched_data = b as u16;
        self.tick(1);
        let hl = self.cpu_read_reg(&RegType::RtHl);
        let hl2 = if inst.mode == AddrMode::AmRhli {
            hl.wrapping_add(1)
        } else {
            hl.wrapping_sub(1)
        };
        self.cpu_set_reg(&RegType::RtHl, hl2);
        assert(self@ =~= spec_fetch_data(old(self)@, cart.rom_data@).0);
        Ok(())
    }

    /// HL-indirect destination; HL moves as a side effect of addressing.
    fn fetch_hl_indirect_dest(&mut self, cart: &CartContext) -> (r: Result<(), EmuError>)
        requires
            old(self)@.wf(),
            old(self)@.cur_inst.mode == AddrMode::AmHlir || old(self)@.cur_inst.mode == AddrMode::AmHldr,
        ensures
            final(self)@.wf(),
            (final(self)@, r) == spec_fetch_data(old(self)@, cart.rom_data@),
    {
        self.mem_dest = 0;
        self.dest_is_mem = false;
        self.sp_add_h = false;
        self.sp_add_c = false;
        let inst = self.cur_inst;
        self.fetched_data = self.cpu_read_reg(&inst.reg_2);
        self.mem_dest = self.cpu_read_reg(&inst.reg_1);
        self.dest_is_mem = true;
        let hl = self.cpu_read_reg(&RegType::RtHl);
        let hl2 = if inst.mode == AddrMode::AmHlir {
            hl.wrapping_add(1)
        } else {
            hl.wrapping_sub(1)
        };
        self.cpu_set_reg(&RegType::RtHl, hl2);
        assert(self@ =~= spec_fetch_data(old(self)@, cart.rom_data@).0);
        Ok(())
    }

    /// I/O-port absolute load: the immediate names a port on the 0xFF00 page.
    fn fetch_port_load(&mut self, cart: &CartContext) -> (r: Result<(), EmuError>)
        requires
            old(self)@.wf(),
            old(self)@.cur_inst.mode == AddrMode::AmRa8,
        ensures
            final(self)@.wf(),
            (final(self)@, r) == spec_fetch_data(old(self)@, cart.rom_data@),
    {
        self.mem_dest = 0;
        self.dest_is_mem = false;
        self.sp_add_h = false;
        self.sp_add_c = false;
        let inst = self.cur_inst;
        let b = match self.bus_read(cart, self.regs.pc) {
            Ok(b) => b,
            Err(e) => {
                return Err(e);
            },
        };
        self.tick(1);
        self.regs.pc = self.regs.pc.wrapping_add(1);
        self.fetched_data = (b as u16) | 0xFF00;
        assert(self@ =~= spec_fetch_data(old(self)@, cart.rom_data@).0);
        Ok(())
    }

    /// I/O-port absolute store: destination on the 0xFF00 page.
    fn fetch_port_store(&mut self, cart: &CartContext) -> (r: Result<(), EmuError>)
        requires
            old(self)@.wf(),
            old(self)@.cur_inst.mode == AddrMode::AmA8r,
        ensures
            final(self)@.wf(),
            (final(self)@, r) == spec_fetch_data(old(self)@, cart.rom_data@),
    {
        self.mem_dest = 0;
        self.dest_is_mem = false;
        self.sp_add_h = false;
        self.sp_add_c = false;
        let inst = self.cur_inst;
        let b = match self.bus_read(cart, self.regs.pc) {
            Ok(b) => b,
            Err(e) => {
                return Err(e);
            },
        };
        self.tick(1);
        self.regs.pc = self.regs.pc.wrapping_add(1);
        self.mem_dest = (b as u16) | 0xFF00;
        self.dest_is_mem = true;
        assert(self@ =~= spec_fetch_data(old(self)@, cart.rom_data@).0);
        Ok(())
    }

    /// Stack-relative signed offset: the half-carry and carry of the coming addition are computed here, from the low nibble and low byte of the base plus the immediate; the addition itself belongs to the load handler.
    fn fetch_stack_relative(&mut self, cart: &CartContext) -> (r: Result<(), EmuError>)
        requires
            old(self)@.wf(),
            old(self)@.cur_inst.mode == AddrMode::AmHlspr,
        ensures
            final(self)@.wf(),
            (final(self)@, r) == spec_fetch_data(old(self)@, cart.rom_data@),
    {
        self.mem_dest = 0;
        self.dest_is_mem = false;
        self.sp_add_h = false;
        self.sp_add_c = false;
        let inst = self.cur_inst;
        let b = match self.bus_read(cart, self.regs.pc) {
            Ok(b) => b,
            Err(e) => {
                return Err(e);
            },
        };
        self.tick(1);
        self.regs.pc = self.regs.pc.wrapping_add(1);
        self.fetched_data = b as u16;
        let base = self.cpu_read_reg(&inst.reg_2);
        assert(base & 0x0F <= 0x0F && base & 0xFF <= 0xFF && (b as u16) & 0x0F <= 0x0F)
            by (bit_vector);
        self.sp_add_h = (base & 0x0F) + (b as u16 & 0x0F) > 0x0F;
        self.sp_add_c = (base & 0xFF) + b as u16 > 0xFF;
        assert(self@ =~= spec_fetch_data(old(self)@, cart.rom_data@).0);
        Ok(())
    }

    /// Immediate 16-bit destination address; operand from the second register.
    fn fetch_d16_dest(&mut self, cart: &CartContext) -> (r: Result<(), EmuError>)
        requires
            old(self)@.wf(),
            old(self)@.cur_inst.mode == AddrMode::AmD16r,
        ensures
            final(self)@.wf(),
            (final(self)@, r) == spec_fetch_data(old(self)@, cart.rom_data@),
    {
        self.mem_dest = 0;
        self.dest_is_mem = false;
        self.sp_add_h = false;
        self.sp_add_c = false;
        let inst = self.cur_inst;
        let lo = match self.bus_read(cart, self.regs.pc) {
            Ok(b) => b,
            Err(e) => {
                return Err(e);
            },
        };
        self.tick(1);
        let hi = match self.bus_read(cart, self.regs.pc.wrapping_add(1)) {
            Ok(b) => b,
            Err(e) => {
                return Err(e);
            },
        };
        self.tick(1);
        self.regs.pc = self.regs.pc.wrapping_add(2);
        self.mem_dest = hi as u16 * 256 + lo as u16;
        self.dest_is_mem = true;
        self.fetched_data = self.cpu_read_reg(&inst.reg_2);
        assert(self@ =~= spec_fetch_data(old(self)@, cart.rom_data@).0);
        Ok(())
    }

    /// Immediate byte operand with a register-indirect destination.
    fn fetch_mrd8(&mut self, cart: &CartContext) -> (r: Result<(), EmuError>)
        requires
            old(self)@.wf(),
            old(self)@.cur_inst.mode == AddrMode::AmMrd8,
        ensures
            final(self)@.wf(),
            (final(self)@, r) == spec_fetch_data(old(self)@, cart.rom_data@),
    {
        self.mem_dest = 0;
        self.dest_is_mem = false;
        self.sp_add_h = false;
        self.sp_add_c = false;
        let inst = self.cur_inst;
        let b = match self.bus_read(cart, self.regs.pc) {
            Ok(b) => b,
            Err(e) => {
                return Err(e);
            },
        };
        self.tick(1);
        self.regs.pc = self.regs.pc.wrapping_add(1);
        self.fetched_data = b as u16;
        self.mem_dest = self.cpu_read_reg(&inst.reg_1);
        self.dest_is_mem = true;
        assert(self@ =~= spec_fetch_data(old(self)@, cart.rom_data@).0);
        Ok(())
    }

    /// Register-indirect destination whose current byte is also the operand.
    fn fetch_mr(&mut self, cart: &CartContext) -> (r: Result<(), EmuError>)
        requires
            old(self)@.wf(),
            old(self)@.cur_inst.mode == AddrMode::AmMr,
        ensures
            final(self)@.wf(),
            (final(self)@, r) == spec_fetch_data(old(self)@, cart.rom_data@),
    {
        self.mem_dest = 0;
        self.dest_is_mem = false;
        self.sp_add_h = false;
        self.sp_add_c = false;
        let inst = self.cur_inst;
        self.mem_dest = self.cpu_read_reg(&inst.reg_1);
        self.dest_is_mem = true;
        let addr = self.cpu_read_reg(&inst.reg_1);
        let b = match self.bus_read(cart, addr) {
            Ok(b) => b,
            Err(e) => {
                return Err(e);
            },
        };
        self.fetched_data = b as u16;
        self.tick(1);
        assert(self@ =~= spec_fetch_data(old(self)@, cart.rom_data@).0);
        Ok(())
    }

    /// Immediate 16-bit source address, then the byte behind it: two stream ticks plus one memory tick.
    fn fetch_a16_source(&mut self, cart: &CartContext) -> (r: Result<(), EmuError>)
        requires
            old(self)@.wf(),
            old(self)@.cur_inst.mode == AddrMode::AmRa16,
        ensures
            final(self)@.wf(),
            (final(self)@, r) == spec_fetch_data(old(self)@, cart.rom_data@),
    {
        self.mem_dest = 0;
        self.dest_is_mem = false;
        self.sp_add_h = false;
        self.sp_add_c = false;
        let inst = self.cur_inst;
        let lo = match self.bus_read(cart, self.regs.pc) {
            Ok(b) => b,
            Err(e) => {
                return Err(e);
            },
        };
        self.tick(1);
        let hi = match self.bus_read(cart, self.regs.pc.wrapping_add(1)) {
            Ok(b) => b,
            Err(e) => {
                return Err(e);
            },
        };
        self.tick(1);
        self.regs.pc = self.regs.pc.wrapping_add(2);
        let addr: u16 = hi as u16 * 256 + lo as u16;
        let b = match self.bus_read(cart, addr) {
            Ok(b) => b,
            Err(e) => {
                return Err(e);
            },
        };
        self.fetched_data = b as u16;
        self.tick(1);
        assert(self@ =~= spec_fetch_data(old(self)@, cart.rom_data@).0);
        Ok(())
    }
}

} // verus!
