//! The call/return stack, built on the bus: push decrements the stack
//! pointer and stores, pop loads and increments. 16-bit pushes go high byte
//! first, so that the low byte ends up at the lower address.

use vstd::prelude::*;
use crate::bus::{
    lemma_bus_read_after_write, lemma_bus_write_frame, spec_bus_read, spec_bus_write,
};
use crate::cart::CartContext;
use crate::common::{hi8, lo8, pair16, wadd16, wsub16, lemma_pair16_split};
use crate::cpu::{CpuContext, CpuRegister, CpuView};
use crate::EmuError;

verus! {

/// The model of an 8-bit push: the stack pointer moves down one, then the
/// byte is stored there through the bus.
pub open spec fn spec_stack_push(v: CpuView, data: u8) -> (CpuView, Result<(), EmuError>) {
    let v1 = CpuView { regs: CpuRegister { sp: wsub16(v.regs.sp, 1), ..v.regs }, ..v };
    spec_bus_write(v1, v1.regs.sp, data)
}

/// The model of a 16-bit push: high byte first, then the low byte below it;
/// a refused first store leaves the second unattempted.
pub open spec fn spec_stack_push16(v: CpuView, data: u16) -> (CpuView, Result<(), EmuError>) {
    let (v1, r1) = spec_stack_push(v, hi8(data));
    if r1 is Err {
        (v1, r1)
    } else {
        spec_stack_push(v1, lo8(data))
    }
}

/// The model of an 8-bit pop: the byte at the stack pointer, which then
/// moves up one; a refused read changes nothing.
pub open spec fn spec_stack_pop(v: CpuView, rom: Seq<u8>) -> (CpuView, Result<u8, EmuError>) {
    match spec_bus_read(v, rom, v.regs.sp) {
        Err(e) => (v, Err(e)),
        Ok(b) => (
            (CpuView { regs: CpuRegister { sp: wadd16(v.regs.sp, 1), ..v.regs }, ..v }),
            Ok(b),
        ),
    }
}

/// The model of a 16-bit pop: low byte first, then the high byte above it.
pub open spec fn spec_stack_pop16(v: CpuView, rom: Seq<u8>) -> (CpuView, Result<u16, EmuError>) {
    let (v1, r1) = spec_stack_pop(v, rom);
    match r1 {
        Err(e) => (v1, Err(e)),
        Ok(lo) => {
            let (v2, r2) = spec_stack_pop(v1, rom);
            match r2 {
                Err(e) => (v2, Err(e)),
                Ok(hi) => (v2, Ok(pair16(hi, lo))),
            }
        },
    }
}

impl CpuContext {
    /// Pushes one byte: the stack pointer moves down one and the byte is
    /// stored there.
    pub fn stack_push(&mut self, cart: &CartContext, data: u8) -> (r: Result<(), EmuError>)
        requires
            old(self)@.wf(),
        ensures
            final(self)@.wf(),
            (final(self)@, r) == spec_stack_push(old(self)@, data),
    {
        self.regs.sp = self.regs.sp.wrapping_sub(1);
        assert(self@ =~= (CpuView {
            regs: CpuRegister { sp: wsub16(old(self)@.regs.sp, 1), ..old(self)@.regs },
            ..old(self)@
        }));
        self.bus_write(cart, self.regs.sp, data)
    }

    /// Pushes a 16-bit value, high byte first.
    pub fn stack_push16(&mut self, cart: &CartContext, data: u16) -> (r: Result<(), EmuError>)
        requires
            old(self)@.wf(),
        ensures
            final(self)@.wf(),
            (final(self)@, r) == spec_stack_push16(old(self)@, data),
    {
        match self.stack_push(cart, (data / 256) as u8) {
            Ok(()) => {},
            Err(e) => {
                return Err(e);
            },
        }
        self.stack_push(cart, (data % 256) as u8)
    }

    /// Pops one byte: the byte at the stack pointer, which then moves up
    /// one.
    pub fn stack_pop(&mut self, cart: &CartContext) -> (r: Result<u8, EmuError>)
        requires
            old(self)@.wf(),
        ensures
            final(self)@.wf(),
            (final(self)@, r) == spec_stack_pop(old(self)@, cart.rom_data@),
    {
        let b = match self.bus_read(cart, self.regs.sp) {
            Ok(b) => b,
            Err(e) => {
                return Err(e);
            },
        };
        self.regs.sp = self.regs.sp.wrapping_add(1);
        assert(self@ =~= spec_stack_pop(old(self)@, cart.rom_data@).0);
        Ok(b)
    }

    /// Pops a 16-bit value, low byte first.
    pub fn stack_pop16(&mut self, cart: &CartContext) -> (r: Result<u16, EmuError>)
        requires
            old(self)@.wf(),
        ensures
            final(self)@.wf(),
            (final(self)@, r) == spec_stack_pop16(old(self)@, cart.rom_data@),
    {
        let lo = match self.stack_pop(cart) {
            Ok(b) => b,
            Err(e) => {
                return Err(e);
            },
        };
        let hi = match self.stack_pop(cart) {
            Ok(b) => b,
            Err(e) => {
                return Err(e);
            },
        };
        Ok(hi as u16 * 256 + lo as u16)
    }
}

/// Law: a 16-bit push that succeeds, followed by a 16-bit pop, returns
/// exactly the value pushed, and the stack pointer ends where it began.
pub proof fn lemma_stack_round_trip(v: CpuView, rom: Seq<u8>, x: u16)
    requires
        v.wf(),
        spec_stack_push16(v, x).1 is Ok,
    ensures
        spec_stack_pop16(spec_stack_push16(v, x).0, rom).1 == Ok::<u16, EmuError>(x),
        spec_stack_pop16(spec_stack_push16(v, x).0, rom).0.regs.sp == v.regs.sp,
{
    let s = v.regs.sp;
    let a_hi = wsub16(s, 1);
    let a_lo = wsub16(s, 2);
    let v_hi = CpuView { regs: CpuRegister { sp: a_hi, ..v.regs }, ..v };
    let (w1, r1) = spec_bus_write(v_hi, a_hi, hi8(x));
    let v_lo = CpuView { regs: CpuRegister { sp: a_lo, ..w1.regs }, ..w1 };
    let (w2, r2) = spec_bus_write(v_lo, a_lo, lo8(x));
    assert(r1 is Ok && r2 is Ok);
    lemma_bus_read_after_write(v_hi, rom, a_hi, hi8(x));
    lemma_bus_read_after_write(v_lo, rom, a_lo, lo8(x));
    assert(a_hi != a_lo);
    lemma_bus_write_frame(v_lo, rom, a_lo, lo8(x), a_hi);
    assert(spec_bus_read(v_lo, rom, a_hi) == spec_bus_read(w1, rom, a_hi));
    assert(spec_bus_read(w2, rom, a_lo) == Ok::<u8, EmuError>(lo8(x)));
    assert(spec_bus_read(w2, rom, a_hi) == Ok::<u8, EmuError>(hi8(x)));
    let (p1, q1) = spec_stack_pop(w2, rom);
    assert(q1 == Ok::<u8, EmuError>(lo8(x)));
    assert(p1.regs.sp == a_hi);
    assert(spec_bus_read(p1, rom, a_hi) == spec_bus_read(w2, rom, a_hi));
    let (p2, q2) = spec_stack_pop(p1, rom);
    assert(q2 == Ok::<u8, EmuError>(hi8(x)));
    assert(p2.regs.sp == s);
    lemma_pair16_split(x);
}

} // verus!
