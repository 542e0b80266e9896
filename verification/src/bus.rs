//! The memory bus: the address-range decoder that dispatches every access to
//! the cartridge, the internal RAM windows or the interrupt-enable register,
//! plus the 16-bit little-endian composites.
//!
//! The dispatch table, byte-exact by address range:
//!
//! | Range           | Target            | Read              | Write           |
//! |-----------------|-------------------|-------------------|-----------------|
//! | 0x0000..=0x7FFF | Cartridge ROM     | delegate          | delegate        |
//! | 0x8000..=0x9FFF | Video RAM         | unsupported       | unsupported     |
//! | 0xA000..=0xBFFF | Cartridge RAM     | delegate          | delegate        |
//! | 0xC000..=0xDFFF | Working RAM       | delegate          | delegate        |
//! | 0xE000..=0xFDFF | Echo RAM          | 0, no side effect | unsupported     |
//! | 0xFE00..=0xFE9F | Object memory     | unsupported       | unsupported     |
//! | 0xFEA0..=0xFEFF | Unusable          | 0, no side effect | unsupported     |
//! | 0xFF00..=0xFF7F | I/O registers     | unsupported       | unsupported     |
//! | 0xFF80..=0xFFFE | High RAM          | delegate          | delegate        |
//! | 0xFFFF          | IE register       | IE byte           | sets IE byte    |
//!
//! "Unsupported" is the recoverable `EmuError::UnsupportedRegion` signal,
//! never a silent no-op. The contracts of `bus_read` and `bus_write` state
//! this table exactly, for every address.

use vstd::prelude::*;
use crate::common::{pair16, wadd16};
use crate::cart::{CartContext, CartRead, spec_cart_read};
use crate::cpu::{CpuContext, CpuView};
use crate::ram::RamReadWrite;
use crate::EmuError;

verus! {

/// What a bus read returns, for every address: the §table above as a
/// mathematical function of the processor state and the cartridge image.
pub open spec fn spec_bus_read(v: CpuView, rom: Seq<u8>, address: u16) -> Result<u8, EmuError> {
    if address <= 0x7FFF {
        Ok(spec_cart_read(rom, address))
    } else if address <= 0x9FFF {
        Err(EmuError::UnsupportedRegion(address))
    } else if address <= 0xBFFF {
        Ok(spec_cart_read(rom, address))
    } else if address <= 0xDFFF {
        Ok(v.wram[address - 0xC000])
    } else if address <= 0xFDFF {
        Ok(0)
    } else if address <= 0xFE9F {
        Err(EmuError::UnsupportedRegion(address))
    } else if address <= 0xFEFF {
        Ok(0)
    } else if address <= 0xFF7F {
        Err(EmuError::UnsupportedRegion(address))
    } else if address <= 0xFFFE {
        Ok(v.hram[address - 0xFF80])
    } else {
        Ok(v.ie_register)
    }
}

/// What a bus write does, for every address: the resulting state and the
/// outcome. A refused write leaves the state untouched.
pub open spec fn spec_bus_write(v: CpuView, address: u16, value: u8) -> (CpuView, Result<
    (),
    EmuError,
>) {
    if address <= 0xBFFF {
        // Cartridge ROM and RAM delegate to the cartridge, whose write side
        // is not implemented; video RAM is not implemented either.
        (v, Err(EmuError::UnsupportedRegion(address)))
    } else if address <= 0xDFFF {
        (CpuView { wram: v.wram.update(address - 0xC000, value), ..v }, Ok(()))
    } else if address <= 0xFF7F {
        // Echo RAM, object memory, the unusable window and the I/O registers
        // all refuse writes explicitly.
        (v, Err(EmuError::UnsupportedRegion(address)))
    } else if address <= 0xFFFE {
        (CpuView { hram: v.hram.update(address - 0xFF80, value), ..v }, Ok(()))
    } else {
        (CpuView { ie_register: value, ..v }, Ok(()))
    }
}

/// A 16-bit bus read: low byte at `address` first, then the high byte at
/// `address + 1` (wrapping at the top of the address space) shifted into the
/// upper bits; the first failure wins.
pub open spec fn spec_bus_read16(v: CpuView, rom: Seq<u8>, address: u16) -> Result<
    u16,
    EmuError,
> {
    match spec_bus_read(v, rom, address) {
        Err(e) => Err(e),
        Ok(lo) => match spec_bus_read(v, rom, wadd16(address, 1)) {
            Err(e) => Err(e),
            Ok(hi) => Ok(pair16(hi, lo)),
        },
    }
}

/// A 16-bit bus write: the high byte goes to `address + 1` strictly before
/// the low byte goes to `address`; a failure of the first write leaves the
/// second unattempted.
pub open spec fn spec_bus_write16(v: CpuView, address: u16, value: u16) -> (CpuView, Result<
    (),
    EmuError,
>) {
    let (v1, r1) = spec_bus_write(v, wadd16(address, 1), (value / 256) as u8);
    if r1 is Err {
        (v1, r1)
    } else {
        spec_bus_write(v1, address, (value % 256) as u8)
    }
}

impl CpuContext {
    /// Reads one byte through the bus, dispatching by the address table.
    pub fn bus_read(&self, cart: &CartContext, address: u16) -> (r: Result<u8, EmuError>)
        requires
            self@.wf(),
        ensures
            r == spec_bus_read(self@, cart.rom_data@, address),
    {
        match address {
            0x0000..=0x7FFF => Ok(cart.cart_read(address)),
            0x8000..=0x9FFF => Err(EmuError::UnsupportedRegion(address)),
            0xA000..=0xBFFF => Ok(cart.cart_read(address)),
            0xC000..=0xDFFF => Ok(self.ram.wram_read(address)),
            0xE000..=0xFDFF => Ok(0),
            0xFE00..=0xFE9F => Err(EmuError::UnsupportedRegion(address)),
            0xFEA0..=0xFEFF => Ok(0),
            0xFF00..=0xFF7F => Err(EmuError::UnsupportedRegion(address)),
            0xFFFF => Ok(self.cpu_get_ie_register()),
            _ => Ok(self.ram.hram_read(address)),
        }
    }

    /// Writes one byte through the bus, dispatching by the address table; a
    /// refused write changes nothing.
    pub fn bus_write(&mut self, cart: &CartContext, address: u16, value: u8) -> (r: Result<
        (),
        EmuError,
    >)
        requires
            old(self)@.wf(),
        ensures
            final(self)@.wf(),
            (final(self)@, r) == spec_bus_write(old(self)@, address, value),
    {
        let r = match address {
            0x0000..=0x7FFF => cart.cart_write(address, value),
            0x8000..=0x9FFF => Err(EmuError::UnsupportedRegion(address)),
            0xA000..=0xBFFF => cart.cart_write(address, value),
            0xC000..=0xDFFF => {
                self.ram.wram_write(address, value);
                Ok(())
            },
            0xE000..=0xFDFF => Err(EmuError::UnsupportedRegion(address)),
            0xFE00..=0xFE9F => Err(EmuError::UnsupportedRegion(address)),
            0xFEA0..=0xFEFF => Err(EmuError::UnsupportedRegion(address)),
            0xFF00..=0xFF7F => Err(EmuError::UnsupportedRegion(address)),
            0xFFFF => {
                self.cpu_set_ie_register(value);
                Ok(())
            },
            _ => {
                self.ram.hram_write(address, value);
                Ok(())
            },
        };
        assert(self@ =~= spec_bus_write(old(self)@, address, value).0);
        r
    }

    /// Reads a 16-bit little-endian value: low byte first, then the high
    /// byte from `address + 1`.
    pub fn bus_read16(&self, cart: &CartContext, address: u16) -> (r: Result<u16, EmuError>)
        requires
            self@.wf(),
        ensures
            r == spec_bus_read16(self@, cart.rom_data@, address),
    {
        let lo = match self.bus_read(cart, address) {
            Ok(b) => b,
            Err(e) => {
                return Err(e);
            },
        };
        let hi = match self.bus_read(cart, address.wrapping_add(1)) {
            Ok(b) => b,
            Err(e) => {
                return Err(e);
            },
        };
        Ok(hi as u16 * 256 + lo as u16)
    }

    /// Writes a 16-bit value: the high byte at `address + 1` strictly before
    /// the low byte at `address`, an order future side-effecting regions
    /// rely on.
    pub fn bus_write16(&mut self, cart: &CartContext, address: u16, value: u16) -> (r: Result<
        (),
        EmuError,
    >)
        requires
            old(self)@.wf(),
        ensures
            final(self)@.wf(),
            (final(self)@, r) == spec_bus_write16(old(self)@, address, value),
    {
        match self.bus_write(cart, address.wrapping_add(1), (value / 256) as u8) {
            Ok(()) => {},
            Err(e) => {
                return Err(e);
            },
        }
        self.bus_write(cart, address, (value % 256) as u8)
    }
}

/// Reading back an address that a bus write accepted yields the byte just
/// written, whatever the cartridge image holds.
pub proof fn lemma_bus_read_after_write(v: CpuView, rom: Seq<u8>, address: u16, value: u8)
    requires
        v.wf(),
        spec_bus_write(v, address, value).1 is Ok,
    ensures
        spec_bus_write(v, address, value).0.wf(),
        spec_bus_read(spec_bus_write(v, address, value).0, rom, address) == Ok::<u8, EmuError>(
            value,
        ),
{
}

/// A bus write leaves every other address reading what it read before.
pub proof fn lemma_bus_write_frame(
    v: CpuView,
    rom: Seq<u8>,
    address: u16,
    value: u8,
    other: u16,
)
    requires
        v.wf(),
        other != address,
    ensures
        spec_bus_read(spec_bus_write(v, address, value).0, rom, other) == spec_bus_read(
            v,
            rom,
            other,
        ),
{
}

} // verus!
