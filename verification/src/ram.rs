//! The internal RAM provider: 8 KiB of working RAM (0xC000..=0xDFFF) and
//! 127 bytes of high RAM (0xFF80..=0xFFFE), both byte-addressable.

use vstd::prelude::*;

verus! {

/// Working RAM and high RAM, stored as flat byte arrays.
pub struct RamContext {
    pub wram: Vec<u8>,
    pub hram: Vec<u8>,
}

impl RamContext {
    /// The sizes of the two windows never change after construction.
    pub open spec fn wf(&self) -> bool {
        &&& self.wram@.len() == 0x2000
        &&& self.hram@.len() == 0x80
    }

    /// Fresh RAM, zero-filled.
    pub fn new() -> (r: RamContext)
        ensures
            r.wf(),
            r.wram@ == Seq::new(0x2000, |i: int| 0u8),
            r.hram@ == Seq::new(0x80, |i: int| 0u8),
    {
        let mut wram: Vec<u8> = Vec::new();
        let mut hram: Vec<u8> = Vec::new();
        while wram.len() < 0x2000
            invariant
                wram@ =~= Seq::new(wram@.len(), |i: int| 0u8),
                wram@.len() <= 0x2000,
            decreases 0x2000 - wram@.len(),
        {
            wram.push(0);
        }
        while hram.len() < 0x80
            invariant
                hram@ =~= Seq::new(hram@.len(), |i: int| 0u8),
                hram@.len() <= 0x80,
            decreases 0x80 - hram@.len(),
        {
            hram.push(0);
        }
        assert(wram@ =~= Seq::new(0x2000, |i: int| 0u8));
        assert(hram@ =~= Seq::new(0x80, |i: int| 0u8));
        RamContext { wram, hram }
    }
}

/// Byte read/write capability over the two internal RAM windows, addressed
/// with full bus addresses.
pub trait RamReadWrite {
    spec fn ram_wf(&self) -> bool;

    /// Byte of working RAM at bus address `address`.
    fn wram_read(&self, address: u16) -> (r: u8)
        requires
            self.ram_wf(),
            0xC000 <= address <= 0xDFFF,
        ensures
            r == self.ram_wram()[address - 0xC000],
    ;

    /// Stores `value` in working RAM at bus address `address`.
    fn wram_write(&mut self, address: u16, value: u8)
        requires
            old(self).ram_wf(),
            0xC000 <= address <= 0xDFFF,
        ensures
            final(self).ram_wf(),
            final(self).ram_wram() == old(self).ram_wram().update(address - 0xC000, value),
            final(self).ram_hram() == old(self).ram_hram(),
    ;

    /// Byte of high RAM at bus address `address`.
    fn hram_read(&self, address: u16) -> (r: u8)
        requires
            self.ram_wf(),
            0xFF80 <= address <= 0xFFFE,
        ensures
            r == self.ram_hram()[address - 0xFF80],
    ;

    /// Stores `value` in high RAM at bus address `address`.
    fn hram_write(&mut self, address: u16, value: u8)
        requires
            old(self).ram_wf(),
            0xFF80 <= address <= 0xFFFE,
        ensures
            final(self).ram_wf(),
            final(self).ram_hram() == old(self).ram_hram().update(address - 0xFF80, value),
            final(self).ram_wram() == old(self).ram_wram(),
    ;

    spec fn ram_wram(&self) -> Seq<u8>;

    spec fn ram_hram(&self) -> Seq<u8>;
}

impl RamReadWrite for RamContext {
    open spec fn ram_wf(&self) -> bool {
        self.wf()
    }

    open spec fn ram_wram(&self) -> Seq<u8> {
        self.wram@
    }

    open spec fn ram_hram(&self) -> Seq<u8> {
        self.hram@
    }

    fn wram_read(&self, address: u16) -> (r: u8) {
        self.wram[(address - 0xC000) as usize]
    }

    fn wram_write(&mut self, address: u16, value: u8) {
        self.wram.set((address - 0xC000) as usize, value);
    }

    fn hram_read(&self, address: u16) -> (r: u8) {
        self.hram[(address - 0xFF80) as usize]
    }

    fn hram_write(&mut self, address: u16, value: u8) {
        self.hram.set((address - 0xFF80) as usize, value);
    }
}

} // verus!
