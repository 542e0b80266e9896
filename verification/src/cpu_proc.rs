//! The execution dispatcher: the flag-update directive, the branch
//! conditions, and one handler per operation kind. Each handler is a state
//! transition over the register file, the bus and the stack, specified
//! exactly by a spec function over `CpuView`.

use vstd::prelude::*;
use crate::bus::{spec_bus_read, spec_bus_write, spec_bus_write16};
use crate::cart::CartContext;
use crate::common::{lo8, hi8, pair16, sign_ext8, wadd16};
use crate::cpu::{CpuContext, CpuRegister, CpuView, spec_tick};
use crate::cpu_util::{spec_read_reg, spec_set_reg};
use crate::instructions::{AddrMode, CondType, RegType};
use crate::stack::{spec_stack_push, spec_stack_push16, spec_stack_pop};
use crate::EmuError;

verus! {

/// The Z (zero) flag: bit 7 of F.
pub open spec fn flag_z(f: u8) -> bool {
    f & 0x80 != 0
}

/// The N (negate) flag: bit 6 of F.
pub open spec fn flag_n(f: u8) -> bool {
    f & 0x40 != 0
}

/// The H (half-carry) flag: bit 5 of F.
pub open spec fn flag_h(f: u8) -> bool {
    f & 0x20 != 0
}

/// The C (carry) flag: bit 4 of F.
pub open spec fn flag_c(f: u8) -> bool {
    f & 0x10 != 0
}

/// The flag-update directive applied to F: per flag, 0xFF leaves the bit
/// unchanged, zero forces it to 0, any other value forces it to 1. The low
/// nibble of F is never touched.
pub open spec fn spec_set_flags(f: u8, z: u8, n: u8, h: u8, c: u8) -> u8 {
    let f1 = if z == 0xFF {
        f
    } else if z != 0 {
        f | 0x80
    } else {
        f & 0x7F
    };
    let f2 = if n == 0xFF {
        f1
    } else if n != 0 {
        f1 | 0x40
    } else {
        f1 & 0xBF
    };
    let f3 = if h == 0xFF {
        f2
    } else if h != 0 {
        f2 | 0x20
    } else {
        f2 & 0xDF
    };
    if c == 0xFF {
        f3
    } else if c != 0 {
        f3 | 0x10
    } else {
        f3 & 0xEF
    }
}

/// Law: the flag-update directive acts on each flag independently. A flag
/// whose directive is 0xFF keeps its value, any other directive forces the
/// flag to the directive's truth value, and F's low nibble is never altered.
/// Setting one flag therefore never changes the other three.
pub proof fn lemma_set_flags_bits(f: u8, z: u8, n: u8, h: u8, c: u8)
    by (bit_vector)
    ensures
        flag_z(spec_set_flags(f, z, n, h, c)) == (if z == 0xFF {
            flag_z(f)
        } else {
            z != 0
        }),
        flag_n(spec_set_flags(f, z, n, h, c)) == (if n == 0xFF {
            flag_n(f)
        } else {
            n != 0
        }),
        flag_h(spec_set_flags(f, z, n, h, c)) == (if h == 0xFF {
            flag_h(f)
        } else {
            h != 0
        }),
        flag_c(spec_set_flags(f, z, n, h, c)) == (if c == 0xFF {
            flag_c(f)
        } else {
            c != 0
        }),
        spec_set_flags(f, z, n, h, c) & 0x0F == f & 0x0F,
{
}

/// Whether the current instruction's branch condition holds against the
/// Z and C flags; the empty condition always does.
pub open spec fn spec_check_condition(v: CpuView) -> bool {
    match v.cur_inst.cond {
        CondType::CtNone => true,
        CondType::CtC => flag_c(v.regs.f),
        CondType::CtNc => !flag_c(v.regs.f),
        CondType::CtZ => flag_z(v.regs.f),
        CondType::CtNz => !flag_z(v.regs.f),
    }
}

/// Whether an operand designator names a 16-bit quantity.
pub open spec fn spec_is_16_bit(rt: RegType) -> bool {
    match rt {
        RegType::RtAf | RegType::RtBc | RegType::RtDe | RegType::RtHl | RegType::RtSp
            | RegType::RtPc => true,
        _ => false,
    }
}

/// The model of the disable-interrupts handler: clears the
/// interrupt-master-enable flag.
pub open spec fn spec_proc_di(v: CpuView) -> CpuView {
    CpuView { int_master_enable: false, ..v }
}

/// The model of the sentinel handler: executing an unmapped opcode is the
/// fatal `InvalidInstruction` signal; nothing changes.
pub open spec fn spec_proc_none(v: CpuView) -> Result<(), EmuError> {
    Err(EmuError::InvalidInstruction(v.cur_opcode))
}

/// The model of the exclusive-or handler: the accumulator takes itself xor
/// the low byte of the operand; Z follows the result, N, H and C are forced
/// to zero.
pub open spec fn spec_proc_xor(v: CpuView) -> CpuView {
    let a2 = v.regs.a ^ lo8(v.fetched_data);
    let f2 = spec_set_flags(
        v.regs.f,
        if a2 == 0 {
            1
        } else {
            0
        },
        0,
        0,
        0,
    );
    CpuView { regs: CpuRegister { a: a2, f: f2, ..v.regs }, ..v }
}

/// The model of the load handler.
///
/// With a memory destination, the operand goes to the destination address:
/// 16-bit operands through the 16-bit write with one extra tick before it,
/// and one tick after the store either way. The stack-relative form applies
/// the half-carry and carry the resolver computed, clears Z and N, and adds
/// the signed displacement to the base register. Every other form writes
/// the operand into the destination register.
pub open spec fn spec_proc_ld(v: CpuView) -> (CpuView, Result<(), EmuError>) {
    if v.dest_is_mem {
        if spec_is_16_bit(v.cur_inst.reg_2) {
            let v1 = spec_tick(v, 1);
            let (v2, r2) = spec_bus_write16(v1, v.mem_dest, v.fetched_data);
            if r2 is Err {
                (v2, r2)
            } else {
                (spec_tick(v2, 1), Ok(()))
            }
        } else {
            let (v1, r1) = spec_bus_write(v, v.mem_dest, lo8(v.fetched_data));
            if r1 is Err {
                (v1, r1)
            } else {
                (spec_tick(v1, 1), Ok(()))
            }
        }
    } else if v.cur_inst.mode == AddrMode::AmHlspr {
        let base = spec_read_reg(v, v.cur_inst.reg_2);
        let hf: u8 = if v.sp_add_h {
            1
        } else {
            0
        };
        let cf: u8 = if v.sp_add_c {
            1
        } else {
            0
        };
        let v1 = CpuView {
            regs: CpuRegister { f: spec_set_flags(v.regs.f, 0, 0, hf, cf), ..v.regs },
            ..v
        };
        (spec_set_reg(v1, v.cur_inst.reg_1, wadd16(base, sign_ext8(lo8(v.fetched_data)))), Ok(()))
    } else {
        (spec_set_reg(v, v.cur_inst.reg_1, v.fetched_data), Ok(()))
    }
}

/// The model of the I/O load/store handler: when the first operand
/// designator names the accumulator, the accumulator takes the byte at the
/// resolved port address (held in the fetched operand); otherwise the
/// accumulator is stored to the resolved port destination.
pub open spec fn spec_proc_ldh(v: CpuView, rom: Seq<u8>) -> (CpuView, Result<(), EmuError>) {
    if v.cur_inst.reg_1 == RegType::RtA {
        match spec_bus_read(v, rom, v.fetched_data) {
            Err(e) => (v, Err(e)),
            Ok(b) => (spec_set_reg(v, RegType::RtA, b as u16), Ok(())),
        }
    } else {
        spec_bus_write(v, v.mem_dest, v.regs.a)
    }
}

/// The model of the common jump tail: when the condition holds, optionally
/// push the current PC (two ticks before the push), set PC to the target
/// and emit one tick; otherwise nothing happens.
pub open spec fn spec_goto_addr(v: CpuView, addr: u16, pushpc: bool) -> (CpuView, Result<
    (),
    EmuError,
>) {
    if spec_check_condition(v) {
        if pushpc {
            let v1 = spec_tick(v, 2);
            let (v2, r2) = spec_stack_push16(v1, v1.regs.pc);
            if r2 is Err {
                (v2, r2)
            } else {
                (
                    spec_tick(
                        CpuView { regs: CpuRegister { pc: addr, ..v2.regs }, ..v2 },
                        1,
                    ),
                    Ok(()),
                )
            }
        } else {
            (spec_tick(CpuView { regs: CpuRegister { pc: addr, ..v.regs }, ..v }, 1), Ok(()))
        }
    } else {
        (v, Ok(()))
    }
}

/// The model of the absolute jump: to the fetched operand, no push.
pub open spec fn spec_proc_jp(v: CpuView) -> (CpuView, Result<(), EmuError>) {
    spec_goto_addr(v, v.fetched_data, false)
}

/// The model of the relative jump: the low operand byte is a signed
/// displacement added to PC, wrapping across the 16-bit address space.
pub open spec fn spec_proc_jr(v: CpuView) -> (CpuView, Result<(), EmuError>) {
    spec_goto_addr(v, wadd16(v.regs.pc, sign_ext8(lo8(v.fetched_data))), false)
}

/// The model of the call: as the jump, but the current PC (the return
/// address) is pushed first when the branch is taken.
pub open spec fn spec_proc_call(v: CpuView) -> (CpuView, Result<(), EmuError>) {
    spec_goto_addr(v, v.fetched_data, true)
}

/// The model of the restart: a call to the descriptor's fixed parameter
/// address.
pub open spec fn spec_proc_rst(v: CpuView) -> (CpuView, Result<(), EmuError>) {
    spec_goto_addr(v, v.cur_inst.param as u16, true)
}

/// The model of the pop handler: two stack pops (one tick after each)
/// compose the value, which goes to the destination register; popping into
/// AF masks the low nibble so the flags register never holds garbage.
pub open spec fn spec_proc_pop(v: CpuView, rom: Seq<u8>) -> (CpuView, Result<(), EmuError>) {
    let (v1, r1) = spec_stack_pop(v, rom);
    match r1 {
        Err(e) => (v1, Err(e)),
        Ok(lo) => {
            let v1t = spec_tick(v1, 1);
            let (v2, r2) = spec_stack_pop(v1t, rom);
            match r2 {
                Err(e) => (v2, Err(e)),
                Ok(hi) => {
                    let n = pair16(hi, lo);
                    let v2t = spec_tick(v2, 1);
                    if v.cur_inst.reg_1 == RegType::RtAf {
                        (spec_set_reg(v2t, RegType::RtAf, n & 0xFFF0), Ok(()))
                    } else {
                        (spec_set_reg(v2t, v.cur_inst.reg_1, n), Ok(()))
                    }
                },
            }
        },
    }
}

/// The model of the push handler: the source register's high byte is pushed
/// before its low byte, with one tick before each push and one after.
pub open spec fn spec_proc_push(v: CpuView) -> (CpuView, Result<(), EmuError>) {
    let val = spec_read_reg(v, v.cur_inst.reg_1);
    let v1 = spec_tick(v, 1);
    let (v2, r2) = spec_stack_push(v1, hi8(val));
    if r2 is Err {
        (v2, r2)
    } else {
        let v3 = spec_tick(v2, 1);
        let (v4, r4) = spec_stack_push(v3, lo8(val));
        if r4 is Err {
            (v4, r4)
        } else {
            (spec_tick(v4, 1), Ok(()))
        }
    }
}

/// An 8-bit increment, wrapping at 0x100.
pub open spec fn winc8(b: u8) -> u8 {
    if b == 0xFF {
        0
    } else {
        (b + 1) as u8
    }
}

/// The model of the increment handler.
///
/// A 16-bit designator costs one extra internal tick up front (the
/// HL-indirect form carries the HL designator and costs it too). The
/// HL-indirect form increments the byte behind HL; an 8-bit register form
/// increments the register. Both 8-bit forms wrap at 0x100 and update Z and
/// H, force N to zero and leave C alone; the 16-bit register form wraps at
/// 0x10000 and touches no flag.
pub open spec fn spec_proc_inc(v: CpuView, rom: Seq<u8>) -> (CpuView, Result<(), EmuError>) {
    let reg1 = v.cur_inst.reg_1;
    let v0 = if spec_is_16_bit(reg1) {
        spec_tick(v, 1)
    } else {
        v
    };
    if reg1 == RegType::RtHl && v.cur_inst.mode == AddrMode::AmMr {
        let addr = pair16(v0.regs.h, v0.regs.l);
        match spec_bus_read(v0, rom, addr) {
            Err(e) => (v0, Err(e)),
            Ok(b) => {
                let nb = winc8(b);
                let (v1, r1) = spec_bus_write(v0, addr, nb);
                if r1 is Err {
                    (v1, r1)
                } else {
                    let f2 = spec_set_flags(
                        v1.regs.f,
                        if nb == 0 {
                            1
                        } else {
                            0
                        },
                        0,
                        if b & 0x0F == 0x0F {
                            1
                        } else {
                            0
                        },
                        0xFF,
                    );
                    (CpuView { regs: CpuRegister { f: f2, ..v1.regs }, ..v1 }, Ok(()))
                }
            },
        }
    } else if spec_is_16_bit(reg1) {
        (spec_set_reg(v0, reg1, wadd16(spec_read_reg(v0, reg1), 1)), Ok(()))
    } else {
        let b = lo8(spec_read_reg(v0, reg1));
        let nb = winc8(b);
        let v1 = spec_set_reg(v0, reg1, nb as u16);
        let f2 = spec_set_flags(
            v1.regs.f,
            if nb == 0 {
                1
            } else {
                0
            },
            0,
            if b & 0x0F == 0x0F {
                1
            } else {
                0
            },
            0xFF,
        );
        (CpuView { regs: CpuRegister { f: f2, ..v1.regs }, ..v1 }, Ok(()))
    }
}

/// The model of the return handler: a conditional form costs one extra tick
/// to evaluate the condition, taken or not. When taken, two stack pops (one
/// tick after each) compose the new PC, and setting it costs one more tick.
pub open spec fn spec_proc_ret(v: CpuView, rom: Seq<u8>) -> (CpuView, Result<(), EmuError>) {
    let v0 = if v.cur_inst.cond != CondType::CtNone {
        spec_tick(v, 1)
    } else {
        v
    };
    if spec_check_condition(v0) {
        let (v1, r1) = spec_stack_pop(v0, rom);
        match r1 {
            Err(e) => (v1, Err(e)),
            Ok(lo) => {
                let v1t = spec_tick(v1, 1);
                let (v2, r2) = spec_stack_pop(v1t, rom);
                match r2 {
                    Err(e) => (v2, Err(e)),
                    Ok(hi) => {
                        let v2t = spec_tick(v2, 1);
                        (
                            spec_tick(
                                CpuView {
                                    regs: CpuRegister { pc: pair16(hi, lo), ..v2t.regs },
                                    ..v2t
                                },
                                1,
                            ),
                            Ok(()),
                        )
                    },
                }
            },
        }
    } else {
        (v0, Ok(()))
    }
}

/// The model of return-and-enable-interrupts: interrupt-master-enable is
/// set, then the return proceeds as usual.
pub open spec fn spec_proc_reti(v: CpuView, rom: Seq<u8>) -> (CpuView, Result<(), EmuError>) {
    spec_proc_ret(CpuView { int_master_enable: true, ..v }, rom)
}

/// Law: exclusive-or of the accumulator with itself always clears the
/// accumulator and forces the flags to Z=1, N=0, H=0, C=0.
pub proof fn lemma_xor_self_clears(v: CpuView)
    requires
        lo8(v.fetched_data) == v.regs.a,
    ensures
        spec_proc_xor(v).regs.a == 0,
        flag_z(spec_proc_xor(v).regs.f),
        !flag_n(spec_proc_xor(v).regs.f),
        !flag_h(spec_proc_xor(v).regs.f),
        !flag_c(spec_proc_xor(v).regs.f),
{
    assert(forall|a: u8| #[trigger] (a ^ a) == 0) by (bit_vector);
    lemma_set_flags_bits(v.regs.f, 1, 0, 0, 0);
}

/// Law: a conditional return costs its extra condition-evaluation tick even
/// when the branch is not taken: the state is then exactly the input state
/// with one more tick, and nothing else happens.
pub proof fn lemma_conditional_ret_tick(v: CpuView, rom: Seq<u8>)
    requires
        v.cur_inst.cond != CondType::CtNone,
        !spec_check_condition(v),
    ensures
        spec_proc_ret(v, rom) == (spec_tick(v, 1), Ok::<(), EmuError>(())),
{
}

impl CpuContext {
    /// Applies a flag-update directive to F: per flag, 0xFF leaves the bit
    /// unchanged, zero forces it to 0, anything else forces it to 1.
    pub fn cpu_set_flags(&mut self, z: u8, n: u8, h: u8, c: u8)
        ensures
            final(self)@ == (CpuView {
                regs: CpuRegister {
                    f: spec_set_flags(old(self)@.regs.f, z, n, h, c),
                    ..old(self)@.regs
                },
                ..old(self)@
            }),
            old(self)@.wf() ==> final(self)@.wf(),
    {
        proof {
            lemma_set_flags_bits(old(self)@.regs.f, z, n, h, c);
        }
        if z != 0xFF {
            if z != 0 {
                self.regs.f = self.regs.f | 0x80;
            } else {
                self.regs.f = self.regs.f & 0x7F;
            }
        }
        if n != 0xFF {
            if n != 0 {
                self.regs.f = self.regs.f | 0x40;
            } else {
                self.regs.f = self.regs.f & 0xBF;
            }
        }
        if h != 0xFF {
            if h != 0 {
                self.regs.f = self.regs.f | 0x20;
            } else {
                self.regs.f = self.regs.f & 0xDF;
            }
        }
        if c != 0xFF {
            if c != 0 {
                self.regs.f = self.regs.f | 0x10;
            } else {
                self.regs.f = self.regs.f & 0xEF;
            }
        }
        assert(self@ =~= (CpuView {
            regs: CpuRegister {
                f: spec_set_flags(old(self)@.regs.f, z, n, h, c),
                ..old(self)@.regs
            },
            ..old(self)@
        }));
        proof {
            if old(self)@.wf() {
                assert(self@.regs.f & 0x0F == 0);
            }
        }
    }

    /// The Z flag.
    pub fn get_flag_z(&self) -> (r: bool)
        ensures
            r == flag_z(self@.regs.f),
    {
        self.regs.f & 0x80 != 0
    }

    /// The C flag.
    pub fn get_flag_c(&self) -> (r: bool)
        ensures
            r == flag_c(self@.regs.f),
    {
        self.regs.f & 0x10 != 0
    }

    /// Evaluates the current instruction's branch condition against the
    /// Z and C flags.
    pub fn check_condition(&self) -> (r: bool)
        ensures
            r == spec_check_condition(self@),
    {
        let z = self.get_flag_z();
        let c = self.get_flag_c();
        match self.cur_inst.cond {
            CondType::CtNone => true,
            CondType::CtC => c,
            CondType::CtNc => !c,
            CondType::CtZ => z,
            CondType::CtNz => !z,
        }
    }

    /// Whether an operand designator names a 16-bit quantity.
    pub(crate) fn is_16_bit(&self, rt: &RegType) -> (r: bool)
        ensures
            r == spec_is_16_bit(*rt),
    {
        match rt {
            RegType::RtAf | RegType::RtBc | RegType::RtDe | RegType::RtHl | RegType::RtSp
                | RegType::RtPc => true,
            _ => false,
        }
    }

    /// Disable-interrupts: clears interrupt-master-enable.
    pub fn proc_di(&mut self)
        ensures
            final(self)@ == spec_proc_di(old(self)@),
            old(self)@.wf() ==> final(self)@.wf(),
    {
        self.int_master_enable = false;
        assert(self@ =~= spec_proc_di(old(self)@));
    }

    /// The sentinel handler: an unmapped opcode reached the execute phase,
    /// which is the fatal `InvalidInstruction` condition. Nothing changes.
    pub fn proc_none(&self) -> (r: Result<(), EmuError>)
        ensures
            r == spec_proc_none(self@),
    {
        Err(EmuError::InvalidInstruction(self.cur_opcode))
    }

    /// Exclusive-or of the accumulator with the operand's low byte; Z
    /// follows the result, N, H and C are forced to zero.
    pub fn proc_xor(&mut self)
        ensures
            final(self)@ == spec_proc_xor(old(self)@),
            old(self)@.wf() ==> final(self)@.wf(),
    {
        let operand = (self.fetched_data % 256) as u8;
        self.regs.a = self.regs.a ^ operand;
        let z: u8 = if self.regs.a == 0 {
            1
        } else {
            0
        };
        self.cpu_set_flags(z, 0, 0, 0);
        assert(self@ =~= spec_proc_xor(old(self)@));
    }

    /// The load handler; see `spec_proc_ld` for the exact transition.
    pub fn proc_ld(&mut self, cart: &CartContext) -> (r: Result<(), EmuError>)
        requires
            old(self)@.wf(),
        ensures
            final(self)@.wf(),
            (final(self)@, r) == spec_proc_ld(old(self)@),
    {
        if self.dest_is_mem {
            let reg2 = self.cur_inst.reg_2;
            let mem_dest = self.mem_dest;
            let fetched = self.fetched_data;
            if self.is_16_bit(&reg2) {
                self.tick(1);
                match self.bus_write16(cart, mem_dest, fetched) {
                    Ok(()) => {},
                    Err(e) => {
                        return Err(e);
                    },
                }
                self.tick(1);
                Ok(())
            } else {
                match self.bus_write(cart, mem_dest, (fetched % 256) as u8) {
                    Ok(()) => {},
                    Err(e) => {
                        return Err(e);
                    },
                }
                self.tick(1);
                Ok(())
            }
        } else {
            let reg1 = self.cur_inst.reg_1;
            let reg2 = self.cur_inst.reg_2;
            let fetched = self.fetched_data;
            if self.cur_inst.mode != AddrMode::AmHlspr {
                self.cpu_set_reg(&reg1, fetched);
                Ok(())
            } else {
                let reg2_val = self.cpu_read_reg(&reg2);
                let hflag: u8 = if self.sp_add_h {
                    1
                } else {
                    0
                };
                let cflag: u8 = if self.sp_add_c {
                    1
                } else {
                    0
                };
                self.cpu_set_flags(0, 0, hflag, cflag);
                let off = (fetched % 256) as u8;
                let ext: u16 = if off < 0x80 {
                    off as u16
                } else {
                    0xFF00 + off as u16
                };
                self.cpu_set_reg(&reg1, reg2_val.wrapping_add(ext));
                Ok(())
            }
        }
    }

    /// The I/O load/store handler; the direction follows which operand
    /// designator names the accumulator.
    pub fn proc_ldh(&mut self, cart: &CartContext) -> (r: Result<(), EmuError>)
        requires
            old(self)@.wf(),
        ensures
            final(self)@.wf(),
            (final(self)@, r) == spec_proc_ldh(old(self)@, cart.rom_data@),
    {
        let reg1 = self.cur_inst.reg_1;
        if reg1 == RegType::RtA {
            let b = match self.bus_read(cart, self.fetched_data) {
                Ok(b) => b,
                Err(e) => {
                    return Err(e);
                },
            };
            self.cpu_set_reg(&RegType::RtA, b as u16);
            assert(self@ =~= spec_proc_ldh(old(self)@, cart.rom_data@).0);
            Ok(())
        } else {
            self.bus_write(cart, self.mem_dest, self.regs.a)
        }
    }

    /// The common jump tail: branch only when the condition holds; a call
    /// first pushes the current PC.
    pub(crate) fn goto_addr(&mut self, cart: &CartContext, addr: u16, pushpc: bool) -> (r: Result<
        (),
        EmuError,
    >)
        requires
            old(self)@.wf(),
        ensures
            final(self)@.wf(),
            (final(self)@, r) == spec_goto_addr(old(self)@, addr, pushpc),
    {
        if self.check_condition() {
            if pushpc {
                self.tick(2);
                let pc = self.regs.pc;
                match self.stack_push16(cart, pc) {
                    Ok(()) => {},
                    Err(e) => {
                        return Err(e);
                    },
                }
            }
            self.regs.pc = addr;
            assert(self@.wf());
            self.tick(1);
            assert(self@ =~= spec_goto_addr(old(self)@, addr, pushpc).0);
            Ok(())
        } else {
            Ok(())
        }
    }

    /// Absolute jump to the fetched operand.
    pub fn proc_jp(&mut self, cart: &CartContext) -> (r: Result<(), EmuError>)
        requires
            old(self)@.wf(),
        ensures
            final(self)@.wf(),
            (final(self)@, r) == spec_proc_jp(old(self)@),
    {
        let addr = self.fetched_data;
        self.goto_addr(cart, addr, false)
    }

    /// Relative jump: the operand's low byte is a signed displacement added
    /// to PC, wrapping across the 16-bit address space.
    pub fn proc_jr(&mut self, cart: &CartContext) -> (r: Result<(), EmuError>)
        requires
            old(self)@.wf(),
        ensures
            final(self)@.wf(),
            (final(self)@, r) == spec_proc_jr(old(self)@),
    {
        let off = (self.fetched_data % 256) as u8;
        let ext: u16 = if off < 0x80 {
            off as u16
        } else {
            0xFF00 + off as u16
        };
        let addr = self.regs.pc.wrapping_add(ext);
        self.goto_addr(cart, addr, false)
    }

    /// Call: jump to the fetched operand, pushing the return address first
    /// when taken.
    pub fn proc_call(&mut self, cart: &CartContext) -> (r: Result<(), EmuError>)
        requires
            old(self)@.wf(),
        ensures
            final(self)@.wf(),
            (final(self)@, r) == spec_proc_call(old(self)@),
    {
        let addr = self.fetched_data;
        self.goto_addr(cart, addr, true)
    }

    /// Restart: a call to the descriptor's fixed parameter address.
    pub fn proc_rst(&mut self, cart: &CartContext) -> (r: Result<(), EmuError>)
        requires
            old(self)@.wf(),
        ensures
            final(self)@.wf(),
            (final(self)@, r) == spec_proc_rst(old(self)@),
    {
        let addr = self.cur_inst.param as u16;
        self.goto_addr(cart, addr, true)
    }

    /// Pop: two stack pops compose the destination value; popping into AF
    /// masks the low nibble of F to zero.
    pub fn proc_pop(&mut self, cart: &CartContext) -> (r: Result<(), EmuError>)
        requires
            old(self)@.wf(),
        ensures
            final(self)@.wf(),
            (final(self)@, r) == spec_proc_pop(old(self)@, cart.rom_data@),
    {
        let reg1 = self.cur_inst.reg_1;
        let lo = match self.stack_pop(cart) {
            Ok(b) => b,
            Err(e) => {
                return Err(e);
            },
        };
        self.tick(1);
        let hi = match self.stack_pop(cart) {
            Ok(b) => b,
            Err(e) => {
                return Err(e);
            },
        };
        self.tick(1);
        let n: u16 = hi as u16 * 256 + lo as u16;
        if reg1 == RegType::RtAf {
            self.cpu_set_reg(&reg1, n & 0xFFF0);
        } else {
            self.cpu_set_reg(&reg1, n);
        }
        Ok(())
    }

    /// Push: the source register's high byte before its low byte, one tick
    /// before each push and one after.
    pub fn proc_push(&mut self, cart: &CartContext) -> (r: Result<(), EmuError>)
        requires
            old(self)@.wf(),
        ensures
            final(self)@.wf(),
            (final(self)@, r) == spec_proc_push(old(self)@),
    {
        let reg1 = self.cur_inst.reg_1;
        let reg_value = self.cpu_read_reg(&reg1);
        self.tick(1);
        match self.stack_push(cart, (reg_value / 256) as u8) {
            Ok(()) => {},
            Err(e) => {
                return Err(e);
            },
        }
        self.tick(1);
        match self.stack_push(cart, (reg_value % 256) as u8) {
            Ok(()) => {},
            Err(e) => {
                return Err(e);
            },
        }
        self.tick(1);
        Ok(())
    }

    /// Increment; see `spec_proc_inc` for the exact transition and flag
    /// effects.
    pub fn proc_inc(&mut self, cart: &CartContext) -> (r: Result<(), EmuError>)
        requires
            old(self)@.wf(),
        ensures
            final(self)@.wf(),
            (final(self)@, r) == spec_proc_inc(old(self)@, cart.rom_data@),
    {
        let reg1 = self.cur_inst.reg_1;
        let mode = self.cur_inst.mode;
        if self.is_16_bit(&reg1) {
            self.tick(1);
        }
        if reg1 == RegType::RtHl && mode == AddrMode::AmMr {
            let addr = self.cpu_read_reg(&RegType::RtHl);
            let b = match self.bus_read(cart, addr) {
                Ok(b) => b,
                Err(e) => {
                    return Err(e);
                },
            };
            let nb = b.wrapping_add(1);
            match self.bus_write(cart, addr, nb) {
                Ok(()) => {},
                Err(e) => {
                    return Err(e);
                },
            }
            let z: u8 = if nb == 0 {
                1
            } else {
                0
            };
            let hf: u8 = if b & 0x0F == 0x0F {
                1
            } else {
                0
            };
            self.cpu_set_flags(z, 0, hf, 0xFF);
            assert(self@ =~= spec_proc_inc(old(self)@, cart.rom_data@).0);
            Ok(())
        } else if self.is_16_bit(&reg1) {
            let val = self.cpu_read_reg(&reg1);
            self.cpu_set_reg(&reg1, val.wrapping_add(1));
            Ok(())
        } else {
            let b = (self.cpu_read_reg(&reg1) % 256) as u8;
            let nb = b.wrapping_add(1);
            self.cpu_set_reg(&reg1, nb as u16);
            let z: u8 = if nb == 0 {
                1
            } else {
                0
            };
            let hf: u8 = if b & 0x0F == 0x0F {
                1
            } else {
                0
            };
            self.cpu_set_flags(z, 0, hf, 0xFF);
            assert(self@ =~= spec_proc_inc(old(self)@, cart.rom_data@).0);
            Ok(())
        }
    }

    /// Return: a conditional form costs one extra tick, taken or not; a
    /// taken return pops the new PC.
    pub fn proc_ret(&mut self, cart: &CartContext) -> (r: Result<(), EmuError>)
        requires
            old(self)@.wf(),
        ensures
            final(self)@.wf(),
            (final(self)@, r) == spec_proc_ret(old(self)@, cart.rom_data@),
    {
        let is_conditional = match self.cur_inst.cond {
            CondType::CtNone => false,
            _ => true,
        };
        if is_conditional {
            self.tick(1);
        }
        if self.check_condition() {
            let lo = match self.stack_pop(cart) {
                Ok(b) => b,
                Err(e) => {
                    return Err(e);
                },
            };
            self.tick(1);
            let hi = match self.stack_pop(cart) {
                Ok(b) => b,
                Err(e) => {
                    return Err(e);
                },
            };
            self.tick(1);
            self.regs.pc = hi as u16 * 256 + lo as u16;
            assert(self@.wf());
            self.tick(1);
            assert(self@ =~= spec_proc_ret(old(self)@, cart.rom_data@).0);
            Ok(())
        } else {
            Ok(())
        }
    }

    /// Return-and-enable-interrupts: sets interrupt-master-enable, then
    /// returns.
    pub fn proc_reti(&mut self, cart: &CartContext) -> (r: Result<(), EmuError>)
        requires
            old(self)@.wf(),
        ensures
            final(self)@.wf(),
            (final(self)@, r) == spec_proc_reti(old(self)@, cart.rom_data@),
    {
        self.int_master_enable = true;
        assert(self@ =~= (CpuView { int_master_enable: true, ..old(self)@ }));
        self.proc_ret(cart)
    }
}

} // verus!
