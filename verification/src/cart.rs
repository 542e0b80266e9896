//! The cartridge provider: a flat ROM image, the fixed-layout header parsed
//! from file offset 0x100, and the header checksum rule.
//!
//! Loading the image from disk is I/O and stays outside the core; the core
//! takes the bytes and does everything after that.

use vstd::prelude::*;
use crate::common::{pair16, wsub8};
use crate::EmuError;

verus! {

/// The fixed-layout cartridge header found at file offset 0x100.
pub struct RomHeader {
    pub entry: Vec<u8>,
    pub logo: Vec<u8>,
    pub title: Vec<u8>,
    pub new_lic_code: u16,
    pub sgb_flag: u8,
    pub card_type: u8,
    pub rom_size: u8,
    pub ram_size: u8,
    pub dest_code: u8,
    pub lic_code: u8,
    pub version: u8,
    pub checksum: u8,
    pub global_checksum: u16,
}

/// A parsed header holds exactly the bytes of the image at the documented
/// offsets: entry[4], logo[0x30], title[16], then the scalar fields, with
/// the two 16-bit fields little endian.
pub open spec fn header_matches(h: RomHeader, rom: Seq<u8>) -> bool {
    &&& h.entry@ == rom.subrange(0x100, 0x104)
    &&& h.logo@ == rom.subrange(0x104, 0x134)
    &&& h.title@ == rom.subrange(0x134, 0x144)
    &&& h.new_lic_code == pair16(rom[0x145], rom[0x144])
    &&& h.sgb_flag == rom[0x146]
    &&& h.card_type == rom[0x147]
    &&& h.rom_size == rom[0x148]
    &&& h.ram_size == rom[0x149]
    &&& h.dest_code == rom[0x14A]
    &&& h.lic_code == rom[0x14B]
    &&& h.version == rom[0x14C]
    &&& h.checksum == rom[0x14D]
    &&& h.global_checksum == pair16(rom[0x14F], rom[0x14E])
}

/// The cartridge: its file name, the ROM image, and the parsed header.
pub struct CartContext {
    pub filename: String,
    pub rom_size: u32,
    pub rom_data: Vec<u8>,
    pub header: Option<RomHeader>,
}

/// The header checksum accumulator after folding `n` of the 25 bytes at
/// offsets 0x134..=0x14C: each step subtracts the byte and one more,
/// wrapping at zero.
pub open spec fn spec_checksum_upto(rom: Seq<u8>, n: int) -> u8
    decreases n,
{
    if n <= 0 {
        0
    } else {
        let prev = spec_checksum_upto(rom, n - 1);
        let b = rom[0x134 + (n - 1)];
        wsub8(wsub8(prev, b), 1)
    }
}

/// The documented header checksum of an image: the fold over all 25 bytes.
pub open spec fn spec_header_checksum(rom: Seq<u8>) -> u8 {
    spec_checksum_upto(rom, 25)
}

/// An image is checksum-valid when it is long enough to hold the header and
/// the computed checksum equals the header's checksum field.
pub open spec fn spec_checksum_valid(rom: Seq<u8>) -> bool {
    rom.len() >= 0x14E && spec_header_checksum(rom) == rom[0x14D]
}

/// The header checksum of `rom`, by the documented algorithm: fold
/// `checksum = checksum - byte - 1` (wrapping) over the bytes at
/// 0x134..=0x14C.
pub fn header_checksum(rom: &Vec<u8>) -> (r: u8)
    requires
        rom@.len() >= 0x14E,
    ensures
        r == spec_header_checksum(rom@),
{
    let mut acc: u8 = 0;
    let mut i: usize = 0;
    while i < 25
        invariant
            i <= 25,
            rom@.len() >= 0x14E,
            acc == spec_checksum_upto(rom@, i as int),
        decreases 25 - i,
    {
        let b = rom[0x134 + i];
        acc = acc.wrapping_sub(b).wrapping_sub(1);
        assert(acc == spec_checksum_upto(rom@, i + 1));
        i = i + 1;
    }
    acc
}

impl CartContext {
    /// An empty cartridge: no image, no header.
    pub fn new() -> (r: CartContext)
        ensures
            r.rom_data@.len() == 0,
            r.header is None,
            r.rom_size == 0,
    {
        CartContext { filename: String::new(), rom_size: 0, rom_data: Vec::new(), header: None }
    }

    /// Takes a ROM image already read from disk and parses the header.
    ///
    /// The header is parsed only when the image extends past the whole
    /// header block (more than 0x150 bytes); the returned flag says whether
    /// it was. The image is kept either way.
    pub fn cart_load_data(&mut self, filename: String, data: Vec<u8>) -> (r: bool)
        requires
            data@.len() <= u32::MAX,
        ensures
            final(self).rom_data@ == data@,
            final(self).rom_size == data@.len(),
            final(self).filename@ == filename@,
            r == (data@.len() > 0x150),
            r ==> (final(self).header matches Some(h) && header_matches(h, data@)),
            !r ==> final(self).header is None,
    {
        self.filename = filename;
        self.rom_size = data.len() as u32;
        if data.len() > 0x150 {
            let mut entry: Vec<u8> = Vec::new();
            let mut logo: Vec<u8> = Vec::new();
            let mut title: Vec<u8> = Vec::new();
            let mut i: usize = 0x100;
            while i < 0x104
                invariant
                    0x100 <= i <= 0x104,
                    data@.len() > 0x150,
                    entry@ =~= data@.subrange(0x100, i as int),
                decreases 0x104 - i,
            {
                entry.push(data[i]);
                i = i + 1;
            }
            let mut i: usize = 0x104;
            while i < 0x134
                invariant
                    0x104 <= i <= 0x134,
                    data@.len() > 0x150,
                    logo@ =~= data@.subrange(0x104, i as int),
                decreases 0x134 - i,
            {
                logo.push(data[i]);
                i = i + 1;
            }
            let mut i: usize = 0x134;
            while i < 0x144
                invariant
                    0x134 <= i <= 0x144,
                    data@.len() > 0x150,
                    title@ =~= data@.subrange(0x134, i as int),
                decreases 0x144 - i,
            {
                title.push(data[i]);
                i = i + 1;
            }
            let header = RomHeader {
                entry,
                logo,
                title,
                new_lic_code: data[0x145] as u16 * 256 + data[0x144] as u16,
                sgb_flag: data[0x146],
                card_type: data[0x147],
                rom_size: data[0x148],
                ram_size: data[0x149],
                dest_code: data[0x14A],
                lic_code: data[0x14B],
                version: data[0x14C],
                checksum: data[0x14D],
                global_checksum: data[0x14F] as u16 * 256 + data[0x14E] as u16,
            };
            self.header = Some(header);
            self.rom_data = data;
            true
        } else {
            self.header = None;
            self.rom_data = data;
            false
        }
    }

    /// Whether the loaded image passes the documented header checksum rule:
    /// the fold over bytes 0x134..=0x14C equals the checksum field.
    pub fn cart_checksum_valid(&self) -> (r: bool)
        ensures
            r == spec_checksum_valid(self.rom_data@),
    {
        if self.rom_data.len() >= 0x14E {
            let computed = header_checksum(&self.rom_data);
            computed == self.rom_data[0x14D]
        } else {
            false
        }
    }

    /// The licensee name the loaded cartridge reports.
    pub fn cart_lic_name(&self) -> (r: String)
        ensures
            r@ == spec_cart_lic_name(*self),
    {
        if let Some(header) = &self.header {
            if header.new_lic_code <= 0xA4 {
                return lic_code(header.lic_code);
            }
        }
        "Unknown".to_owned()
    }

    /// The cartridge-type name the loaded cartridge reports.
    pub fn cart_type_name(&self) -> (r: String)
        ensures
            r@ == spec_cart_type_name(*self),
    {
        if let Some(header) = &self.header {
            if header.card_type <= 0x22 {
                return rom_type_name(header.card_type);
            }
        }
        "Unknown".to_owned()
    }
}

/// Byte read/write capability the bus consumes over the cartridge windows.
pub trait CartRead {
    spec fn cart_rom(&self) -> Seq<u8>;

    /// The byte of the image at `address`; reads past the end of the image
    /// see 0xFF, as an unconnected bus line would.
    fn cart_read(&self, address: u16) -> (r: u8)
        ensures
            r == spec_cart_read(self.cart_rom(), address),
    ;

    /// Writing through the cartridge is not implemented; every write is
    /// refused with the explicit unsupported-region signal.
    fn cart_write(&self, address: u16, value: u8) -> (r: Result<(), EmuError>)
        ensures
            r == Err::<(), EmuError>(EmuError::UnsupportedRegion(address)),
    ;
}

/// What a cartridge read returns: the image byte when the address is inside
/// the image, 0xFF (open bus) past its end.
pub open spec fn spec_cart_read(rom: Seq<u8>, address: u16) -> u8 {
    if address < rom.len() {
        rom[address as int]
    } else {
        0xFF
    }
}

impl CartRead for CartContext {
    open spec fn cart_rom(&self) -> Seq<u8> {
        self.rom_data@
    }

    fn cart_read(&self, address: u16) -> (r: u8) {
        if (address as usize) < self.rom_data.len() {
            self.rom_data[address as usize]
        } else {
            0xFF
        }
    }

    fn cart_write(&self, address: u16, value: u8) -> (r: Result<(), EmuError>) {
        Err(EmuError::UnsupportedRegion(address))
    }
}


/// The publisher name of an old-licensee code, as printed on a cartridge
/// report; unknown codes read "Unknown".
pub open spec fn spec_lic_name(code: u8) -> Seq<char> {
    match code {
        0x00 => "None"@,
        0x01 => "Nintendo R&D1"@,
        0x08 => "Capcom"@,
        0x13 => "Electronic Arts"@,
        0x18 => "Hudson Soft"@,
        0x19 => "b-ai"@,
        0x20 => "kss"@,
        0x22 => "pow"@,
        0x24 => "PCM Complete"@,
        0x25 => "san-x"@,
        0x28 => "Kemco Japan"@,
        0x29 => "seta"@,
        0x30 => "Viacom"@,
        0x31 => "Nintendo"@,
        0x32 => "Bandai"@,
        0x33 => "Ocean/Acclaim"@,
        0x34 => "Konami"@,
        0x35 => "Hector"@,
        0x37 => "Taito"@,
        0x38 => "Hudson"@,
        0x39 => "Banpresto"@,
        0x41 => "Ubi Soft"@,
        0x42 => "Atlus"@,
        0x44 => "Malibu"@,
        0x46 => "angel"@,
        0x47 => "Bullet-Proof"@,
        0x49 => "irem"@,
        0x50 => "Absolute"@,
        0x51 => "Acclaim"@,
        0x52 => "Activision"@,
        0x53 => "American sammy"@,
        0x54 => "Konami"@,
        0x55 => "Hi tech entertainment"@,
        0x56 => "LJN"@,
        0x57 => "Matchbox"@,
        0x58 => "Mattel"@,
        0x59 => "Milton Bradley"@,
        0x60 => "Titus"@,
        0x61 => "Virgin"@,
        0x64 => "LucasArts"@,
        0x67 => "Ocean"@,
        0x69 => "Electronic Arts"@,
        0x70 => "Infogrames"@,
        0x71 => "Interplay"@,
        0x72 => "Broderbund"@,
        0x73 => "sculptured"@,
        0x75 => "sci"@,
        0x78 => "THQ"@,
        0x79 => "Accolade"@,
        0x80 => "misawa"@,
        0x83 => "lozc"@,
        0x86 => "Tokuma Shoten Intermedia"@,
        0x87 => "Tsukuda Original"@,
        0x91 => "Chunsoft"@,
        0x92 => "Video system"@,
        0x93 => "Ocean/Acclaim"@,
        0x95 => "Varie"@,
        0x96 => "Yonezawa/s'pal"@,
        0x97 => "Kaneko"@,
        0x99 => "Pack in soft"@,
        0xA4 => "Konami (Yu-Gi-Oh!)"@,
        _ => "Unknown"@,
    }
}

/// The cartridge-type name of a type code; codes past the table read
/// "Unknown".
pub open spec fn spec_rom_type_name(code: u8) -> Seq<char> {
    match code {
        0x00 => "ROM ONLY"@,
        0x01 => "MBC1"@,
        0x02 => "MBC1+RAM"@,
        0x03 => "MBC1+RAM+BATTERY"@,
        0x04 => "0x04 ???"@,
        0x05 => "MBC2"@,
        0x06 => "MBC2+BATTERY"@,
        0x07 => "0x07 ???"@,
        0x08 => "ROM+RAM 1"@,
        0x09 => "ROM+RAM+BATTERY 1"@,
        0x0A => "0x0A ???"@,
        0x0B => "MMM01"@,
        0x0C => "MMM01+RAM"@,
        0x0D => "MMM01+RAM+BATTERY"@,
        0x0E => "0x0E ???"@,
        0x0F => "MBC3+TIMER+BATTERY"@,
        0x10 => "MBC3+TIMER+RAM+BATTERY 2"@,
        0x11 => "MBC3"@,
        0x12 => "MBC3+RAM 2"@,
        0x13 => "MBC3+RAM+BATTERY 2"@,
        0x14 => "0x14 ???"@,
        0x15 => "0x15 ???"@,
        0x16 => "0x16 ???"@,
        0x17 => "0x17 ???"@,
        0x18 => "0x18 ???"@,
        0x19 => "MBC5"@,
        0x1A => "MBC5+RAM"@,
        0x1B => "MBC5+RAM+BATTERY"@,
        0x1C => "MBC5+RUMBLE"@,
        0x1D => "MBC5+RUMBLE+RAM"@,
        0x1E => "MBC5+RUMBLE+RAM+BATTERY"@,
        0x1F => "0x1F ???"@,
        0x20 => "MBC6"@,
        0x21 => "0x21 ???"@,
        0x22 => "MBC7+SENSOR+RUMBLE+RAM+BATTERY"@,
        _ => "Unknown"@,
    }
}

/// The licensee name the cartridge reports: the old-licensee table entry
/// when the new-licensee code is in range, "Unknown" otherwise.
pub open spec fn spec_cart_lic_name(c: CartContext) -> Seq<char> {
    match c.header {
        Some(h) => if h.new_lic_code <= 0xA4 {
            spec_lic_name(h.lic_code)
        } else {
            "Unknown"@
        },
        None => "Unknown"@,
    }
}

/// The cartridge-type name the cartridge reports: the type table entry when
/// the type code is in range, "Unknown" otherwise.
pub open spec fn spec_cart_type_name(c: CartContext) -> Seq<char> {
    match c.header {
        Some(h) => if h.card_type <= 0x22 {
            spec_rom_type_name(h.card_type)
        } else {
            "Unknown"@
        },
        None => "Unknown"@,
    }
}

/// Looks an old-licensee code up in the publisher table.
pub fn lic_code(code: u8) -> (r: String)
    ensures
        r@ == spec_lic_name(code),
{
    match code {
        0x00 => "None".to_owned(),
        0x01 => "Nintendo R&D1".to_owned(),
        0x08 => "Capcom".to_owned(),
        0x13 => "Electronic Arts".to_owned(),
        0x18 => "Hudson Soft".to_owned(),
        0x19 => "b-ai".to_owned(),
        0x20 => "kss".to_owned(),
        0x22 => "pow".to_owned(),
        0x24 => "PCM Complete".to_owned(),
        0x25 => "san-x".to_owned(),
        0x28 => "Kemco Japan".to_owned(),
        0x29 => "seta".to_owned(),
        0x30 => "Viacom".to_owned(),
        0x31 => "Nintendo".to_owned(),
        0x32 => "Bandai".to_owned(),
        0x33 => "Ocean/Acclaim".to_owned(),
        0x34 => "Konami".to_owned(),
        0x35 => "Hector".to_owned(),
        0x37 => "Taito".to_owned(),
        0x38 => "Hudson".to_owned(),
        0x39 => "Banpresto".to_owned(),
        0x41 => "Ubi Soft".to_owned(),
        0x42 => "Atlus".to_owned(),
        0x44 => "Malibu".to_owned(),
        0x46 => "angel".to_owned(),
        0x47 => "Bullet-Proof".to_owned(),
        0x49 => "irem".to_owned(),
        0x50 => "Absolute".to_owned(),
        0x51 => "Acclaim".to_owned(),
        0x52 => "Activision".to_owned(),
        0x53 => "American sammy".to_owned(),
        0x54 => "Konami".to_owned(),
        0x55 => "Hi tech entertainment".to_owned(),
        0x56 => "LJN".to_owned(),
        0x57 => "Matchbox".to_owned(),
        0x58 => "Mattel".to_owned(),
        0x59 => "Milton Bradley".to_owned(),
        0x60 => "Titus".to_owned(),
        0x61 => "Virgin".to_owned(),
        0x64 => "LucasArts".to_owned(),
        0x67 => "Ocean".to_owned(),
        0x69 => "Electronic Arts".to_owned(),
        0x70 => "Infogrames".to_owned(),
        0x71 => "Interplay".to_owned(),
        0x72 => "Broderbund".to_owned(),
        0x73 => "sculptured".to_owned(),
        0x75 => "sci".to_owned(),
        0x78 => "THQ".to_owned(),
        0x79 => "Accolade".to_owned(),
        0x80 => "misawa".to_owned(),
        0x83 => "lozc".to_owned(),
        0x86 => "Tokuma Shoten Intermedia".to_owned(),
        0x87 => "Tsukuda Original".to_owned(),
        0x91 => "Chunsoft".to_owned(),
        0x92 => "Video system".to_owned(),
        0x93 => "Ocean/Acclaim".to_owned(),
        0x95 => "Varie".to_owned(),
        0x96 => "Yonezawa/s'pal".to_owned(),
        0x97 => "Kaneko".to_owned(),
        0x99 => "Pack in soft".to_owned(),
        0xA4 => "Konami (Yu-Gi-Oh!)".to_owned(),
        _ => "Unknown".to_owned(),
    }
}

/// Looks a cartridge-type code up in the type table.
fn rom_type_name(code: u8) -> (r: String)
    ensures
        r@ == spec_rom_type_name(code),
{
    match code {
        0x00 => "ROM ONLY".to_owned(),
        0x01 => "MBC1".to_owned(),
        0x02 => "MBC1+RAM".to_owned(),
        0x03 => "MBC1+RAM+BATTERY".to_owned(),
        0x04 => "0x04 ???".to_owned(),
        0x05 => "MBC2".to_owned(),
        0x06 => "MBC2+BATTERY".to_owned(),
        0x07 => "0x07 ???".to_owned(),
        0x08 => "ROM+RAM 1".to_owned(),
        0x09 => "ROM+RAM+BATTERY 1".to_owned(),
        0x0A => "0x0A ???".to_owned(),
        0x0B => "MMM01".to_owned(),
        0x0C => "MMM01+RAM".to_owned(),
        0x0D => "MMM01+RAM+BATTERY".to_owned(),
        0x0E => "0x0E ???".to_owned(),
        0x0F => "MBC3+TIMER+BATTERY".to_owned(),
        0x10 => "MBC3+TIMER+RAM+BATTERY 2".to_owned(),
        0x11 => "MBC3".to_owned(),
        0x12 => "MBC3+RAM 2".to_owned(),
        0x13 => "MBC3+RAM+BATTERY 2".to_owned(),
        0x14 => "0x14 ???".to_owned(),
        0x15 => "0x15 ???".to_owned(),
        0x16 => "0x16 ???".to_owned(),
        0x17 => "0x17 ???".to_owned(),
        0x18 => "0x18 ???".to_owned(),
        0x19 => "MBC5".to_owned(),
        0x1A => "MBC5+RAM".to_owned(),
        0x1B => "MBC5+RAM+BATTERY".to_owned(),
        0x1C => "MBC5+RUMBLE".to_owned(),
        0x1D => "MBC5+RUMBLE+RAM".to_owned(),
        0x1E => "MBC5+RUMBLE+RAM+BATTERY".to_owned(),
        0x1F => "0x1F ???".to_owned(),
        0x20 => "MBC6".to_owned(),
        0x21 => "0x21 ???".to_owned(),
        0x22 => "MBC7+SENSOR+RUMBLE+RAM+BATTERY".to_owned(),
        _ => "Unknown".to_owned(),
    }
}

} // verus!
