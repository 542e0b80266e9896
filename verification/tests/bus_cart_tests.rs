use gameboy::cart::{CartContext, CartRead};
use gameboy::cpu::CpuContext;
use gameboy::EmuError;

fn make_cart(rom: Vec<u8>) -> CartContext {
    let mut cart = CartContext::new();
    cart.cart_load_data(String::from("test.gb"), rom);
    cart
}

fn patterned_rom(len: usize) -> Vec<u8> {
    (0..len).map(|i| (i % 251) as u8).collect()
}

#[test]
fn bus_read_routes_every_region_boundary() {
    let rom = patterned_rom(0xC000);
    let cart = make_cart(rom.clone());
    let mut cpu = CpuContext::new();

    // Cartridge ROM window.
    assert_eq!(cpu.bus_read(&cart, 0x0000), Ok(rom[0x0000]));
    assert_eq!(cpu.bus_read(&cart, 0x7FFF), Ok(rom[0x7FFF]));
    // Video RAM: unsupported.
    assert_eq!(cpu.bus_read(&cart, 0x8000), Err(EmuError::UnsupportedRegion(0x8000)));
    assert_eq!(cpu.bus_read(&cart, 0x9FFF), Err(EmuError::UnsupportedRegion(0x9FFF)));
    // Cartridge RAM window delegates to the cartridge.
    assert_eq!(cpu.bus_read(&cart, 0xA000), Ok(rom[0xA000]));
    assert_eq!(cpu.bus_read(&cart, 0xBFFF), Ok(rom[0xBFFF]));
    // Working RAM.
    cpu.bus_write(&cart, 0xC000, 0x11).unwrap();
    cpu.bus_write(&cart, 0xDFFF, 0x22).unwrap();
    assert_eq!(cpu.bus_read(&cart, 0xC000), Ok(0x11));
    assert_eq!(cpu.bus_read(&cart, 0xDFFF), Ok(0x22));
    // Echo RAM reads zero with no side effect.
    assert_eq!(cpu.bus_read(&cart, 0xE000), Ok(0));
    assert_eq!(cpu.bus_read(&cart, 0xFDFF), Ok(0));
    // Object memory: unsupported.
    assert_eq!(cpu.bus_read(&cart, 0xFE00), Err(EmuError::UnsupportedRegion(0xFE00)));
    assert_eq!(cpu.bus_read(&cart, 0xFE9F), Err(EmuError::UnsupportedRegion(0xFE9F)));
    // Unusable window reads zero.
    assert_eq!(cpu.bus_read(&cart, 0xFEA0), Ok(0));
    assert_eq!(cpu.bus_read(&cart, 0xFEFF), Ok(0));
    // I/O registers: unsupported.
    assert_eq!(cpu.bus_read(&cart, 0xFF00), Err(EmuError::UnsupportedRegion(0xFF00)));
    assert_eq!(cpu.bus_read(&cart, 0xFF7F), Err(EmuError::UnsupportedRegion(0xFF7F)));
    // High RAM.
    cpu.bus_write(&cart, 0xFF80, 0x33).unwrap();
    cpu.bus_write(&cart, 0xFFFE, 0x44).unwrap();
    assert_eq!(cpu.bus_read(&cart, 0xFF80), Ok(0x33));
    assert_eq!(cpu.bus_read(&cart, 0xFFFE), Ok(0x44));
    // Interrupt-enable register.
    cpu.cpu_set_ie_register(0x1F);
    assert_eq!(cpu.bus_read(&cart, 0xFFFF), Ok(0x1F));
}

#[test]
fn bus_write_routes_every_region_boundary() {
    let cart = make_cart(patterned_rom(0xC000));
    let mut cpu = CpuContext::new();

    // Writes through the cartridge are refused.
    assert_eq!(cpu.bus_write(&cart, 0x0000, 1), Err(EmuError::UnsupportedRegion(0x0000)));
    assert_eq!(cpu.bus_write(&cart, 0x7FFF, 1), Err(EmuError::UnsupportedRegion(0x7FFF)));
    assert_eq!(cpu.bus_write(&cart, 0x8000, 1), Err(EmuError::UnsupportedRegion(0x8000)));
    assert_eq!(cpu.bus_write(&cart, 0x9FFF, 1), Err(EmuError::UnsupportedRegion(0x9FFF)));
    assert_eq!(cpu.bus_write(&cart, 0xA000, 1), Err(EmuError::UnsupportedRegion(0xA000)));
    assert_eq!(cpu.bus_write(&cart, 0xBFFF, 1), Err(EmuError::UnsupportedRegion(0xBFFF)));
    // Working RAM accepts writes.
    assert_eq!(cpu.bus_write(&cart, 0xC000, 0xAB), Ok(()));
    assert_eq!(cpu.bus_write(&cart, 0xDFFF, 0xCD), Ok(()));
    // Echo RAM writes are never silently accepted.
    assert_eq!(cpu.bus_write(&cart, 0xE000, 1), Err(EmuError::UnsupportedRegion(0xE000)));
    assert_eq!(cpu.bus_write(&cart, 0xFDFF, 1), Err(EmuError::UnsupportedRegion(0xFDFF)));
    assert_eq!(cpu.bus_write(&cart, 0xFE00, 1), Err(EmuError::UnsupportedRegion(0xFE00)));
    assert_eq!(cpu.bus_write(&cart, 0xFE9F, 1), Err(EmuError::UnsupportedRegion(0xFE9F)));
    assert_eq!(cpu.bus_write(&cart, 0xFEA0, 1), Err(EmuError::UnsupportedRegion(0xFEA0)));
    assert_eq!(cpu.bus_write(&cart, 0xFEFF, 1), Err(EmuError::UnsupportedRegion(0xFEFF)));
    assert_eq!(cpu.bus_write(&cart, 0xFF00, 1), Err(EmuError::UnsupportedRegion(0xFF00)));
    assert_eq!(cpu.bus_write(&cart, 0xFF7F, 1), Err(EmuError::UnsupportedRegion(0xFF7F)));
    // High RAM accepts writes.
    assert_eq!(cpu.bus_write(&cart, 0xFF80, 0x55), Ok(()));
    assert_eq!(cpu.bus_write(&cart, 0xFFFE, 0x66), Ok(()));
    // The IE register is written through the bus.
    assert_eq!(cpu.bus_write(&cart, 0xFFFF, 0x0F), Ok(()));
    assert_eq!(cpu.cpu_get_ie_register(), 0x0F);
    // The refused writes left memory untouched.
    assert_eq!(cpu.bus_read(&cart, 0xC000), Ok(0xAB));
    assert_eq!(cpu.bus_read(&cart, 0xFF80), Ok(0x55));
}

#[test]
fn bus_read16_composes_little_endian() {
    let cart = make_cart(patterned_rom(0x200));
    let mut cpu = CpuContext::new();
    cpu.bus_write(&cart, 0xC100, 0x34).unwrap();
    cpu.bus_write(&cart, 0xC101, 0x12).unwrap();
    assert_eq!(cpu.bus_read16(&cart, 0xC100), Ok(0x1234));
}

#[test]
fn bus_write16_writes_high_byte_first() {
    let cart = make_cart(patterned_rom(0x200));
    let mut cpu = CpuContext::new();
    assert_eq!(cpu.bus_write16(&cart, 0xC000, 0xBEEF), Ok(()));
    assert_eq!(cpu.bus_read(&cart, 0xC000), Ok(0xEF));
    assert_eq!(cpu.bus_read(&cart, 0xC001), Ok(0xBE));
    // At the top of working RAM the high byte would land in echo RAM: the
    // write is refused before the low byte is attempted.
    assert_eq!(cpu.bus_write16(&cart, 0xDFFF, 0x7788), Err(EmuError::UnsupportedRegion(0xE000)));
    assert_eq!(cpu.bus_read(&cart, 0xDFFF), Ok(0));
}

#[test]
fn cart_reads_past_image_end_see_open_bus() {
    let cart = make_cart(patterned_rom(0x151));
    assert_eq!(cart.cart_read(0x0000), 0);
    assert_eq!(cart.cart_read(0x7FFF), 0xFF);
    let cpu = CpuContext::new();
    assert_eq!(cpu.bus_read(&cart, 0x7FFF), Ok(0xFF));
}

#[test]
fn cart_write_is_refused() {
    let cart = make_cart(patterned_rom(0x200));
    assert_eq!(cart.cart_write(0x0000, 7), Err(EmuError::UnsupportedRegion(0x0000)));
}

fn documented_checksum(rom: &[u8]) -> u8 {
    let mut checksum: u16 = 0;
    for i in 0x134..=0x14C {
        checksum = checksum.wrapping_sub(rom[i] as u16).wrapping_sub(1);
    }
    (checksum & 0xFF) as u8
}

#[test]
fn header_checksum_accepts_consistent_rom() {
    let mut rom = patterned_rom(0x8000);
    for i in 0x134..=0x14C {
        rom[i] = (i * 7) as u8;
    }
    let expected = documented_checksum(&rom);
    rom[0x14D] = expected;
    let cart = make_cart(rom);
    assert!(cart.cart_checksum_valid());
}

#[test]
fn header_checksum_rejects_single_corrupted_byte() {
    let mut rom = patterned_rom(0x8000);
    for i in 0x134..=0x14C {
        rom[i] = (i * 7) as u8;
    }
    rom[0x14D] = documented_checksum(&rom);
    rom[0x140] = rom[0x140].wrapping_add(1);
    let cart = make_cart(rom);
    assert!(!cart.cart_checksum_valid());
}

#[test]
fn header_checksum_rejects_short_image() {
    let cart = make_cart(patterned_rom(0x100));
    assert!(!cart.cart_checksum_valid());
}

#[test]
fn cart_load_parses_header_fields() {
    let mut rom = vec![0u8; 0x8000];
    let title = b"TESTCART";
    for (k, &b) in title.iter().enumerate() {
        rom[0x134 + k] = b;
    }
    rom[0x144] = 0x34; // new licensee, low byte
    rom[0x145] = 0x00; // new licensee, high byte
    rom[0x146] = 0x03; // SGB flag
    rom[0x147] = 0x01; // cartridge type: MBC1
    rom[0x148] = 0x02; // ROM size code
    rom[0x149] = 0x03; // RAM size code
    rom[0x14A] = 0x01; // destination code
    rom[0x14B] = 0x33; // old licensee code
    rom[0x14C] = 0x0B; // mask ROM version
    rom[0x14D] = 0x5A; // header checksum field
    rom[0x14E] = 0xCD; // global checksum, low byte
    rom[0x14F] = 0xAB; // global checksum, high byte
    let mut cart = CartContext::new();
    let parsed = cart.cart_load_data(String::from("fields.gb"), rom);
    assert!(parsed);
    let header = cart.header.as_ref().unwrap();
    assert_eq!(&header.title[..8], title);
    assert_eq!(header.new_lic_code, 0x0034);
    assert_eq!(header.sgb_flag, 0x03);
    assert_eq!(header.card_type, 0x01);
    assert_eq!(header.rom_size, 0x02);
    assert_eq!(header.ram_size, 0x03);
    assert_eq!(header.dest_code, 0x01);
    assert_eq!(header.lic_code, 0x33);
    assert_eq!(header.version, 0x0B);
    assert_eq!(header.checksum, 0x5A);
    assert_eq!(header.global_checksum, 0xABCD);
    assert_eq!(cart.rom_size, 0x8000);
}

#[test]
fn cart_load_skips_header_of_short_image() {
    let mut cart = CartContext::new();
    let parsed = cart.cart_load_data(String::from("short.gb"), vec![0u8; 0x150]);
    assert!(!parsed);
    assert!(cart.header.is_none());
    assert_eq!(cart.rom_data.len(), 0x150);
}

#[test]
fn cart_names_follow_header_tables() {
    let mut rom = vec![0u8; 0x8000];
    rom[0x147] = 0x01; // MBC1
    rom[0x14B] = 0x33;
    let cart = make_cart(rom);
    assert_eq!(cart.cart_type_name(), "MBC1");
    assert_eq!(cart.cart_lic_name(), "Ocean/Acclaim");

    let empty = CartContext::new();
    assert_eq!(empty.cart_type_name(), "Unknown");
    assert_eq!(empty.cart_lic_name(), "Unknown");

    let mut rom2 = vec![0u8; 0x8000];
    rom2[0x145] = 0xFF; // new licensee code out of range
    rom2[0x147] = 0x7F; // type code out of range
    let cart2 = make_cart(rom2);
    assert_eq!(cart2.cart_type_name(), "Unknown");
    assert_eq!(cart2.cart_lic_name(), "Unknown");
}

#[test]
fn lic_code_table_lookup() {
    assert_eq!(gameboy::cart::lic_code(0x00), "None");
    assert_eq!(gameboy::cart::lic_code(0x31), "Nintendo");
    assert_eq!(gameboy::cart::lic_code(0xA4), "Konami (Yu-Gi-Oh!)");
    assert_eq!(gameboy::cart::lic_code(0x02), "Unknown");
}
