//! The processor state: the register file, the per-step transient state, the
//! interrupt-enable register and the timing-tick counter, together with the
//! ghost model (`CpuView`) that every state change in the core is specified
//! against, and the fetch/decode/execute step machine.

use vstd::prelude::*;
use crate::common::{sign_ext8, wadd16, wadd64};
use crate::cpu_proc::{
    spec_proc_di, spec_proc_ld, spec_proc_ldh, spec_proc_jp, spec_proc_jr, spec_proc_call,
    spec_proc_ret, spec_proc_reti, spec_proc_rst, spec_proc_pop, spec_proc_push, spec_proc_inc,
    spec_proc_none, spec_proc_xor,
};
use crate::cpu_fetch::spec_fetch_data;
use crate::cpu_util::spec_read_reg;
use crate::instructions::{AddrMode, CondType, RegType};
use crate::instructions::{Instruction, InType, spec_instruction, spec_no_instruction, instruction_by_opcode, no_instruction};
use crate::ram::RamContext;
use crate::cart::CartContext;
use crate::bus::spec_bus_read;
use crate::EmuError;

verus! {

/// The register file: eight 8-bit registers plus the 16-bit program counter
/// and stack pointer. The composite pairs AF, BC, DE and HL are derived from
/// the 8-bit halves, never stored separately.
#[derive(Clone, Copy, PartialEq, Eq, Structural, Debug)]
pub struct CpuRegister {
    pub a: u8,
    pub f: u8,
    pub b: u8,
    pub c: u8,
    pub d: u8,
    pub e: u8,
    pub h: u8,
    pub l: u8,
    pub pc: u16,
    pub sp: u16,
}

/// The register file at power-on: everything zero.
pub open spec fn spec_initial_regs() -> CpuRegister {
    CpuRegister { a: 0, f: 0, b: 0, c: 0, d: 0, e: 0, h: 0, l: 0, pc: 0, sp: 0 }
}

impl CpuRegister {
    /// A zeroed register file.
    pub fn new() -> (r: Self)
        ensures
            r == spec_initial_regs(),
    {
        CpuRegister { a: 0, f: 0, b: 0, c: 0, d: 0, e: 0, h: 0, l: 0, pc: 0, sp: 0 }
    }
}

/// The ghost model of the whole processor-owned state: registers, per-step
/// transient state, interrupt state, tick counter, and the two internal RAM
/// windows as byte sequences. Every mutating operation of the core has a
/// spec function from `CpuView` to `CpuView` that its contract follows.
#[verifier::ext_equal]
pub struct CpuView {
    pub regs: CpuRegister,
    pub fetched_data: u16,
    pub mem_dest: u16,
    pub cur_opcode: u8,
    pub cur_inst: Instruction,
    pub dest_is_mem: bool,
    pub halted: bool,
    pub int_master_enable: bool,
    pub ie_register: u8,
    pub stepping: bool,
    pub sp_add_h: bool,
    pub sp_add_c: bool,
    pub ticks: u64,
    pub wram: Seq<u8>,
    pub hram: Seq<u8>,
}

impl CpuView {
    /// Well-formedness: the RAM windows keep their fixed sizes and the low
    /// nibble of the flags register is always zero.
    pub open spec fn wf(self) -> bool {
        &&& self.wram.len() == 0x2000
        &&& self.hram.len() == 0x80
        &&& self.regs.f & 0x0F == 0
    }
}

/// The processor: register file, transient step state, internal RAM, the
/// interrupt-enable byte and the interrupt-master-enable flag.
///
/// The cartridge is not owned: every operation that touches the bus borrows
/// it for the duration of that call only.
pub struct CpuContext {
    pub regs: CpuRegister,
    pub fetched_data: u16,
    pub mem_dest: u16,
    pub cur_opcode: u8,
    pub cur_inst: Instruction,
    pub ram: RamContext,
    pub dest_is_mem: bool,
    pub halted: bool,
    pub int_master_enable: bool,
    pub ie_register: u8,
    pub stepping: bool,
    /// Half-carry the resolver computed for the stack-relative load form.
    pub sp_add_h: bool,
    /// Carry the resolver computed for the stack-relative load form.
    pub sp_add_c: bool,
    /// Timing ticks emitted so far; one per instruction-stream byte read and
    /// one per documented internal delay.
    pub ticks: u64,
}

impl View for CpuContext {
    type V = CpuView;

    open spec fn view(&self) -> CpuView {
        CpuView {
            regs: self.regs,
            fetched_data: self.fetched_data,
            mem_dest: self.mem_dest,
            cur_opcode: self.cur_opcode,
            cur_inst: self.cur_inst,
            dest_is_mem: self.dest_is_mem,
            halted: self.halted,
            int_master_enable: self.int_master_enable,
            ie_register: self.ie_register,
            stepping: self.stepping,
            sp_add_h: self.sp_add_h,
            sp_add_c: self.sp_add_c,
            ticks: self.ticks,
            wram: self.ram.wram@,
            hram: self.ram.hram@,
        }
    }
}

/// The processor at power-on: zeroed registers and RAM, no instruction
/// decoded yet, interrupts enabled.
pub open spec fn spec_initial_cpu() -> CpuView {
    CpuView {
        regs: spec_initial_regs(),
        fetched_data: 0,
        mem_dest: 0,
        cur_opcode: 0,
        cur_inst: spec_no_instruction(),
        dest_is_mem: false,
        halted: false,
        int_master_enable: true,
        ie_register: 0,
        stepping: false,
        sp_add_h: false,
        sp_add_c: false,
        ticks: 0,
        wram: Seq::new(0x2000, |i: int| 0u8),
        hram: Seq::new(0x80, |i: int| 0u8),
    }
}

/// The model of emitting `n` timing ticks: the counter advances, nothing
/// else changes.
pub open spec fn spec_tick(v: CpuView, n: u8) -> CpuView {
    CpuView { ticks: wadd64(v.ticks, n as u64), ..v }
}

/// The model of the fetch phase: read the opcode at PC through the bus,
/// advance PC by one, and look the descriptor up in the instruction table.
pub open spec fn spec_fetch_instruction(v: CpuView, rom: Seq<u8>) -> (CpuView, Result<(), EmuError>) {
    match spec_bus_read(v, rom, v.regs.pc) {
        Err(e) => (v, Err(e)),
        Ok(op) => (
            CpuView {
                cur_opcode: op,
                cur_inst: spec_instruction(op),
                regs: CpuRegister { pc: wadd16(v.regs.pc, 1), ..v.regs },
                ..v
            },
            Ok(()),
        ),
    }
}

/// Timing hook for an external pacing driver, called once per emitted tick
/// group; pacing is external, so this has no effect inside the core.
pub fn emu_cycle(cpu_cycles: u8) {
}

impl CpuContext {
    /// A processor at power-on.
    pub fn new() -> (r: CpuContext)
        ensures
            r@ == spec_initial_cpu(),
            r@.wf(),
    {
        let r = CpuContext {
            regs: CpuRegister::new(),
            fetched_data: 0,
            mem_dest: 0,
            cur_opcode: 0,
            cur_inst: no_instruction(),
            ram: RamContext::new(),
            dest_is_mem: false,
            halted: false,
            int_master_enable: true,
            ie_register: 0,
            stepping: false,
            sp_add_h: false,
            sp_add_c: false,
            ticks: 0,
        };
        assert(r@ =~= spec_initial_cpu());
        assert(0u8 & 0x0F == 0) by (bit_vector);
        r
    }

    /// Emits `n` timing ticks: advances the counter and calls the external
    /// pacing hook.
    pub(crate) fn tick(&mut self, n: u8)
        ensures
            final(self)@ == spec_tick(old(self)@, n),
    {
        emu_cycle(n);
        self.ticks = self.ticks.wrapping_add(n as u64);
        assert(self@ =~= spec_tick(old(self)@, n));
    }

    /// The interrupt-enable register byte, memory-mapped at the top of the
    /// address space.
    pub fn cpu_get_ie_register(&self) -> (r: u8)
        ensures
            r == self@.ie_register,
    {
        self.ie_register
    }

    /// Sets the interrupt-enable register byte.
    pub fn cpu_set_ie_register(&mut self, n: u8)
        ensures
            final(self)@ == (CpuView { ie_register: n, ..old(self)@ }),
    {
        self.ie_register = n;
        assert(self@ =~= (CpuView { ie_register: n, ..old(self)@ }));
    }

    /// The fetch phase: reads the opcode at PC, advances PC by one, and
    /// decodes through the instruction table (total: unmapped opcodes decode
    /// to the sentinel).
    pub(crate) fn fetch_instruction(&mut self, cart: &CartContext) -> (r: Result<(), EmuError>)
        requires
            old(self)@.wf(),
        ensures
            final(self)@.wf(),
            (final(self)@, r) == spec_fetch_instruction(old(self)@, cart.rom_data@),
    {
        let op = match self.bus_read(cart, self.regs.pc) {
            Ok(b) => b,
            Err(e) => {
                return Err(e);
            },
        };
        self.cur_opcode = op;
        self.regs.pc = self.regs.pc.wrapping_add(1);
        self.cur_inst = instruction_by_opcode(op);
        assert(self@ =~= spec_fetch_instruction(old(self)@, cart.rom_data@).0);
        Ok(())
    }
}


/// The model of the execute phase: one handler per operation kind, selected
/// by the current descriptor; the sentinel kind is the fatal
/// `InvalidInstruction` signal.
pub open spec fn spec_execute(v: CpuView, rom: Seq<u8>) -> (CpuView, Result<(), EmuError>) {
    match v.cur_inst.type_in {
        InType::InNone => (v, spec_proc_none(v)),
        InType::InNop => (v, Ok(())),
        InType::InLd => spec_proc_ld(v),
        InType::InLdh => spec_proc_ldh(v, rom),
        InType::InJp => spec_proc_jp(v),
        InType::InJr => spec_proc_jr(v),
        InType::InCall => spec_proc_call(v),
        InType::InRet => spec_proc_ret(v, rom),
        InType::InReti => spec_proc_reti(v, rom),
        InType::InRst => spec_proc_rst(v),
        InType::InPop => spec_proc_pop(v, rom),
        InType::InPush => spec_proc_push(v),
        InType::InInc => spec_proc_inc(v, rom),
        InType::InDi => (spec_proc_di(v), Ok(())),
        InType::InXor => (spec_proc_xor(v), Ok(())),
    }
}

/// The model of one whole step: nothing at all happens while halted (no bus
/// activity and, by explicit decision, no timing tick either); otherwise
/// fetch, resolve and execute run in order, stopping at the first failure.
pub open spec fn spec_step(v: CpuView, rom: Seq<u8>) -> (CpuView, Result<(), EmuError>) {
    if v.halted {
        (v, Ok(()))
    } else {
        let (v1, r1) = spec_fetch_instruction(v, rom);
        if r1 is Err {
            (v1, r1)
        } else {
            let (v2, r2) = spec_fetch_data(v1, rom);
            if r2 is Err {
                (v2, r2)
            } else {
                spec_execute(v2, rom)
            }
        }
    }
}

impl CpuContext {
    /// The execute phase: dispatches to the handler of the current
    /// descriptor's operation kind.
    pub(crate) fn execute(&mut self, cart: &CartContext) -> (r: Result<(), EmuError>)
        requires
            old(self)@.wf(),
        ensures
            final(self)@.wf(),
            (final(self)@, r) == spec_execute(old(self)@, cart.rom_data@),
    {
        match self.cur_inst.type_in {
            InType::InNone => self.proc_none(),
            InType::InNop => Ok(()),
            InType::InLd => self.proc_ld(cart),
            InType::InLdh => self.proc_ldh(cart),
            InType::InJp => self.proc_jp(cart),
            InType::InJr => self.proc_jr(cart),
            InType::InCall => self.proc_call(cart),
            InType::InRet => self.proc_ret(cart),
            InType::InReti => self.proc_reti(cart),
            InType::InRst => self.proc_rst(cart),
            InType::InPop => self.proc_pop(cart),
            InType::InPush => self.proc_push(cart),
            InType::InInc => self.proc_inc(cart),
            InType::InDi => {
                self.proc_di();
                Ok(())
            },
            InType::InXor => {
                self.proc_xor();
                Ok(())
            },
        }
    }

    /// One atomic step: fetch the opcode, resolve the addressing mode,
    /// execute the handler. A halted processor does nothing at all. No
    /// external actor ever observes a half-applied instruction: the borrow
    /// of the cartridge spans exactly this call.
    pub fn cpu_step(&mut self, cart: &CartContext) -> (r: Result<(), EmuError>)
        requires
            old(self)@.wf(),
        ensures
            final(self)@.wf(),
            (final(self)@, r) == spec_step(old(self)@, cart.rom_data@),
    {
        if self.halted {
            return Ok(());
        }
        match self.fetch_instruction(cart) {
            Ok(()) => {},
            Err(e) => {
                return Err(e);
            },
        }
        match self.fetch_data(cart) {
            Ok(()) => {},
            Err(e) => {
                return Err(e);
            },
        }
        self.execute(cart)
    }
}


/// The 8-bit registers an immediate load can target.
pub open spec fn spec_is_reg8(rt: RegType) -> bool {
    match rt {
        RegType::RtA | RegType::RtB | RegType::RtC | RegType::RtD | RegType::RtE | RegType::RtH
            | RegType::RtL => true,
        _ => false,
    }
}

/// Law: a step that decodes to an 8-bit load from an 8-bit immediate
/// succeeds, leaves the immediate byte in the destination register, and
/// advances PC by exactly the instruction's total length of two bytes.
pub proof fn lemma_ld_reg_imm8_step(v: CpuView, rom: Seq<u8>)
    requires
        v.wf(),
        !v.halted,
        spec_bus_read(v, rom, v.regs.pc) is Ok,
        ({
            let i = spec_instruction(spec_bus_read(v, rom, v.regs.pc)->Ok_0);
            &&& i.type_in == InType::InLd
            &&& i.mode == AddrMode::AmRD8
            &&& spec_is_reg8(i.reg_1)
        }),
        spec_bus_read(v, rom, wadd16(v.regs.pc, 1)) is Ok,
    ensures
        spec_step(v, rom).1 is Ok,
        spec_step(v, rom).0.regs.pc == wadd16(v.regs.pc, 2),
        ({
            let i = spec_instruction(spec_bus_read(v, rom, v.regs.pc)->Ok_0);
            let b = spec_bus_read(v, rom, wadd16(v.regs.pc, 1))->Ok_0;
            spec_read_reg(spec_step(v, rom).0, i.reg_1) == b as u16
        }),
{
    let i = spec_instruction(spec_bus_read(v, rom, v.regs.pc)->Ok_0);
    let b = spec_bus_read(v, rom, wadd16(v.regs.pc, 1))->Ok_0;
    let (v1, r1) = spec_fetch_instruction(v, rom);
    assert(r1 is Ok && v1.cur_inst == i && v1.regs.pc == wadd16(v.regs.pc, 1));
    // The resolver's bus read sees the same memory as the input state.
    assert(spec_bus_read(crate::cpu_fetch::spec_fetch_reset(v1), rom, v1.regs.pc)
        == spec_bus_read(v, rom, wadd16(v.regs.pc, 1)));
    let (v2, r2) = spec_fetch_data(v1, rom);
    assert(r2 is Ok && v2.fetched_data == b as u16 && !v2.dest_is_mem);
    assert(v2.regs.pc == wadd16(wadd16(v.regs.pc, 1), 1));
    assert(wadd16(wadd16(v.regs.pc, 1), 1) == wadd16(v.regs.pc, 2));
    let (v3, r3) = spec_execute(v2, rom);
    assert(r3 is Ok);
}


/// Law: a step that decodes to an unconditional relative jump adds the
/// signed 8-bit displacement to the PC that follows the operand byte,
/// wrapping across the 16-bit address space.
pub proof fn lemma_jr_step(v: CpuView, rom: Seq<u8>)
    requires
        v.wf(),
        !v.halted,
        spec_bus_read(v, rom, v.regs.pc) is Ok,
        ({
            let i = spec_instruction(spec_bus_read(v, rom, v.regs.pc)->Ok_0);
            &&& i.type_in == InType::InJr
            &&& i.mode == AddrMode::AmD8
            &&& i.cond == CondType::CtNone
        }),
        spec_bus_read(v, rom, wadd16(v.regs.pc, 1)) is Ok,
    ensures
        spec_step(v, rom).1 is Ok,
        ({
            let d = spec_bus_read(v, rom, wadd16(v.regs.pc, 1))->Ok_0;
            spec_step(v, rom).0.regs.pc == wadd16(wadd16(v.regs.pc, 2), sign_ext8(d))
        }),
{
    let d = spec_bus_read(v, rom, wadd16(v.regs.pc, 1))->Ok_0;
    let (v1, r1) = spec_fetch_instruction(v, rom);
    assert(r1 is Ok && v1.regs.pc == wadd16(v.regs.pc, 1));
    assert(spec_bus_read(crate::cpu_fetch::spec_fetch_reset(v1), rom, v1.regs.pc)
        == spec_bus_read(v, rom, wadd16(v.regs.pc, 1)));
    let (v2, r2) = spec_fetch_data(v1, rom);
    assert(r2 is Ok && v2.fetched_data == d as u16);
    assert(v2.regs.pc == wadd16(wadd16(v.regs.pc, 1), 1));
    assert(wadd16(wadd16(v.regs.pc, 1), 1) == wadd16(v.regs.pc, 2));
    assert(crate::common::lo8(d as u16) == d);
    let (v3, r3) = spec_execute(v2, rom);
    assert(r3 is Ok);
}

} // verus!
