//! Small arithmetic helpers shared by the register file, the resolver and
//! the dispatcher: 16-bit wraparound arithmetic, byte composition and
//! decomposition, and sign extension of 8-bit displacements.

use vstd::prelude::*;

verus! {

/// Addition on the 16-bit address space, wrapping at 0x10000.
pub open spec fn wadd16(x: u16, y: u16) -> u16 {
    if x + y > 0xFFFF {
        (x + y - 0x10000) as u16
    } else {
        (x + y) as u16
    }
}

/// Subtraction on the 16-bit address space, wrapping below zero.
pub open spec fn wsub16(x: u16, y: u16) -> u16 {
    if x - y < 0 {
        (x - y + 0x10000) as u16
    } else {
        (x - y) as u16
    }
}

/// Wrapping addition of a small count to the 64-bit tick counter.
pub open spec fn wadd64(x: u64, y: u64) -> u64 {
    if x + y > u64::MAX {
        (x + y - 0x1_0000_0000_0000_0000) as u64
    } else {
        (x + y) as u64
    }
}

/// Subtraction on bytes, wrapping below zero.
pub open spec fn wsub8(x: u8, y: u8) -> u8 {
    if x - y < 0 {
        (x - y + 0x100) as u8
    } else {
        (x - y) as u8
    }
}

/// Composition of a 16-bit value from a high and a low byte.
pub open spec fn pair16(hi: u8, lo: u8) -> u16 {
    (hi * 256 + lo) as u16
}

/// The high byte of a 16-bit value.
pub open spec fn hi8(v: u16) -> u8 {
    (v / 256) as u8
}

/// The low byte of a 16-bit value.
pub open spec fn lo8(v: u16) -> u8 {
    (v % 256) as u8
}

/// Sign extension of an 8-bit displacement onto the 16-bit address space:
/// bytes 0x80..=0xFF stand for the negative values -128..=-1.
pub open spec fn sign_ext8(b: u8) -> u16 {
    if b < 0x80 {
        b as u16
    } else {
        (0xFF00 + b) as u16
    }
}

/// Composing a 16-bit value from its own halves gives the value back.
pub proof fn lemma_pair16_split(v: u16)
    ensures
        pair16(hi8(v), lo8(v)) == v,
{
    assert((v / 256) * 256 + v % 256 == v) by (bit_vector);
}

/// Timing hook for an external pacing driver; one call per emulated delay
/// unit. The core counts ticks itself, so this currently has no effect.
pub fn delay(ms: u32) {
}

} // verus!
