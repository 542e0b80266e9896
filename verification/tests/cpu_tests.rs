use gameboy::cart::CartContext;
use gameboy::common::delay;
use gameboy::cpu::{emu_cycle, CpuContext, CpuRegister};
use gameboy::emu::emu_context;
use gameboy::instructions::{
    instruction_by_opcode, AddrMode, CondType, InType, Instruction, RegType,
};
use gameboy::EmuError;

fn make_cart(rom: Vec<u8>) -> CartContext {
    let mut cart = CartContext::new();
    cart.cart_load_data(String::from("test.gb"), rom);
    cart
}

fn rom_with(bytes: &[u8]) -> Vec<u8> {
    let mut rom = vec![0u8; 0x8000];
    rom[..bytes.len()].copy_from_slice(bytes);
    rom
}

#[test]
fn cpu_new_has_documented_power_on_state() {
    let cpu = CpuContext::new();
    assert_eq!(cpu.regs.pc, 0);
    assert_eq!(cpu.regs.sp, 0);
    assert_eq!(cpu.regs.a, 0);
    assert_eq!(cpu.regs.f, 0);
    assert!(cpu.int_master_enable);
    assert!(!cpu.halted);
    assert_eq!(cpu.ticks, 0);
    assert_eq!(cpu.cpu_get_ie_register(), 0);
    let regs = CpuRegister::new();
    assert_eq!(regs.b, 0);
    // The external pacing hooks are inert.
    emu_cycle(4);
    delay(1);
    let driver = emu_context::new();
    assert!(!driver.running && !driver.paused && driver.ticks == 0);
}

#[test]
fn pair_write_then_read_round_trips() {
    let mut cpu = CpuContext::new();
    for &v in &[0x0000u16, 0x00FF, 0xFF00, 0xFFFF, 0x1234] {
        for rt in [RegType::RtBc, RegType::RtDe, RegType::RtHl] {
            cpu.cpu_set_reg(&rt, v);
            assert_eq!(cpu.cpu_read_reg(&rt), v);
        }
        cpu.cpu_set_reg(&RegType::RtAf, v);
        assert_eq!(cpu.cpu_read_reg(&RegType::RtAf), v & 0xFFF0);
    }
    cpu.cpu_set_reg(&RegType::RtBc, 0xBEEF);
    assert_eq!(cpu.regs.b, 0xBE);
    assert_eq!(cpu.regs.c, 0xEF);
}

#[test]
fn flag_directive_touches_only_its_flag() {
    let mut cpu = CpuContext::new();
    // All four flags set; force Z to zero, leave the rest alone.
    cpu.regs.f = 0xF0;
    cpu.cpu_set_flags(0, 0xFF, 0xFF, 0xFF);
    assert_eq!(cpu.regs.f, 0x70);
    // All clear; force H to one, leave the rest alone.
    cpu.regs.f = 0x00;
    cpu.cpu_set_flags(0xFF, 0xFF, 1, 0xFF);
    assert_eq!(cpu.regs.f, 0x20);
    // Force C only.
    cpu.cpu_set_flags(0xFF, 0xFF, 0xFF, 1);
    assert_eq!(cpu.regs.f, 0x30);
    // Force N only, clearing directive for N is distinguishable from leave.
    cpu.cpu_set_flags(0xFF, 1, 0xFF, 0xFF);
    assert_eq!(cpu.regs.f, 0x70);
    cpu.cpu_set_flags(0xFF, 0, 0xFF, 0xFF);
    assert_eq!(cpu.regs.f, 0x30);
    // The low nibble is never altered (it stays zero).
    assert_eq!(cpu.regs.f & 0x0F, 0);
}

#[test]
fn reg8_access_reads_and_writes_hl_indirect() {
    let cart = make_cart(rom_with(&[]));
    let mut cpu = CpuContext::new();
    cpu.cpu_set_reg8(&cart, &RegType::RtB, 0x42).unwrap();
    assert_eq!(cpu.cpu_read_reg8(&cart, &RegType::RtB), Ok(0x42));
    cpu.cpu_set_reg(&RegType::RtHl, 0xC123);
    cpu.cpu_set_reg8(&cart, &RegType::RtHl, 0x99).unwrap();
    assert_eq!(cpu.cpu_read_reg8(&cart, &RegType::RtHl), Ok(0x99));
    assert_eq!(cpu.bus_read(&cart, 0xC123), Ok(0x99));
}

#[test]
fn push16_pushes_high_byte_first_and_pop16_round_trips() {
    let cart = make_cart(rom_with(&[]));
    let mut cpu = CpuContext::new();
    cpu.regs.sp = 0xE000;
    cpu.stack_push16(&cart, 0x1234).unwrap();
    assert_eq!(cpu.regs.sp, 0xDFFE);
    assert_eq!(cpu.bus_read(&cart, 0xDFFF), Ok(0x12));
    assert_eq!(cpu.bus_read(&cart, 0xDFFE), Ok(0x34));
    assert_eq!(cpu.stack_pop16(&cart), Ok(0x1234));
    assert_eq!(cpu.regs.sp, 0xE000);
    for &x in &[0x0000u16, 0x00FF, 0xFF00, 0xFFFF, 0x1234] {
        cpu.stack_push16(&cart, x).unwrap();
        assert_eq!(cpu.stack_pop16(&cart), Ok(x));
        assert_eq!(cpu.regs.sp, 0xE000);
    }
}

#[test]
fn push_into_rom_region_is_refused() {
    let cart = make_cart(rom_with(&[]));
    let mut cpu = CpuContext::new();
    cpu.regs.sp = 0x0100;
    assert_eq!(cpu.stack_push(&cart, 0x55), Err(EmuError::UnsupportedRegion(0x00FF)));
}

#[test]
fn relative_jump_with_negative_displacement_wraps() {
    // JR -10 placed so that PC is 0x0005 after the operand fetch:
    // 0x0005 - 10 wraps to 0xFFFB.
    let mut bytes = vec![0u8; 8];
    bytes[3] = 0x18; // JR r8
    bytes[4] = 0xF6; // -10
    let cart = make_cart(rom_with(&bytes));
    let mut cpu = CpuContext::new();
    cpu.regs.pc = 0x0003;
    cpu.cpu_step(&cart).unwrap();
    assert_eq!(cpu.regs.pc, 0xFFFB);
    assert_eq!(cpu.ticks, 2);
}

#[test]
fn xor_accumulator_with_itself_clears_and_sets_z() {
    let cart = make_cart(rom_with(&[0xAF])); // XOR A
    let mut cpu = CpuContext::new();
    cpu.regs.a = 0x37;
    cpu.cpu_step(&cart).unwrap();
    assert_eq!(cpu.regs.a, 0x00);
    assert_eq!(cpu.regs.f, 0x80); // Z=1, N=0, H=0, C=0
}

#[test]
fn xor_immediate_operand() {
    let cart = make_cart(rom_with(&[0xEE, 0x0F])); // XOR d8
    let mut cpu = CpuContext::new();
    cpu.regs.a = 0xF0;
    cpu.cpu_step(&cart).unwrap();
    assert_eq!(cpu.regs.a, 0xFF);
    assert_eq!(cpu.regs.f, 0x00);
    assert_eq!(cpu.regs.pc, 2);
}

fn branch_instruction(kind: InType, mode: AddrMode, cond: CondType) -> Instruction {
    Instruction { type_in: kind, mode, reg_1: RegType::RtNone, reg_2: RegType::RtNone, cond, param: 0 }
}

fn condition_taken(cond: CondType, z: bool, c: bool) -> bool {
    match cond {
        CondType::CtNone => true,
        CondType::CtZ => z,
        CondType::CtNz => !z,
        CondType::CtC => c,
        CondType::CtNc => !c,
    }
}

fn flags_byte(z: bool, c: bool) -> u8 {
    (if z { 0x80 } else { 0 }) | (if c { 0x10 } else { 0 })
}

#[test]
fn jump_honors_all_conditions_against_all_flag_combinations() {
    let cart = make_cart(rom_with(&[]));
    for cond in [CondType::CtZ, CondType::CtNz, CondType::CtC, CondType::CtNc] {
        for (z, c) in [(false, false), (false, true), (true, false), (true, true)] {
            let mut cpu = CpuContext::new();
            cpu.cur_inst = branch_instruction(InType::InJp, AddrMode::AmD16, cond);
            cpu.regs.f = flags_byte(z, c);
            cpu.regs.pc = 0x0100;
            cpu.fetched_data = 0x4000;
            cpu.proc_jp(&cart).unwrap();
            if condition_taken(cond, z, c) {
                assert_eq!(cpu.regs.pc, 0x4000);
                assert_eq!(cpu.ticks, 1);
            } else {
                assert_eq!(cpu.regs.pc, 0x0100);
                assert_eq!(cpu.ticks, 0);
            }
        }
    }
}

#[test]
fn call_honors_all_conditions_and_pushes_return_address() {
    let cart = make_cart(rom_with(&[]));
    for cond in [CondType::CtZ, CondType::CtNz, CondType::CtC, CondType::CtNc] {
        for (z, c) in [(false, false), (false, true), (true, false), (true, true)] {
            let mut cpu = CpuContext::new();
            cpu.cur_inst = branch_instruction(InType::InCall, AddrMode::AmD16, cond);
            cpu.regs.f = flags_byte(z, c);
            cpu.regs.pc = 0x0103;
            cpu.regs.sp = 0xE000;
            cpu.fetched_data = 0x4000;
            cpu.proc_call(&cart).unwrap();
            if condition_taken(cond, z, c) {
                assert_eq!(cpu.regs.pc, 0x4000);
                assert_eq!(cpu.regs.sp, 0xDFFE);
                assert_eq!(cpu.bus_read(&cart, 0xDFFF), Ok(0x01));
                assert_eq!(cpu.bus_read(&cart, 0xDFFE), Ok(0x03));
                assert_eq!(cpu.ticks, 3);
            } else {
                assert_eq!(cpu.regs.pc, 0x0103);
                assert_eq!(cpu.regs.sp, 0xE000);
                assert_eq!(cpu.ticks, 0);
            }
        }
    }
}

#[test]
fn conditional_return_costs_one_tick_even_when_not_taken() {
    let cart = make_cart(rom_with(&[]));
    for cond in [CondType::CtZ, CondType::CtNz, CondType::CtC, CondType::CtNc] {
        for (z, c) in [(false, false), (false, true), (true, false), (true, true)] {
            let mut cpu = CpuContext::new();
            cpu.cur_inst = branch_instruction(InType::InRet, AddrMode::AmImp, cond);
            cpu.regs.f = flags_byte(z, c);
            cpu.regs.pc = 0x0100;
            cpu.regs.sp = 0xDFFE;
            cpu.bus_write(&cart, 0xDFFE, 0x34).unwrap();
            cpu.bus_write(&cart, 0xDFFF, 0x12).unwrap();
            cpu.proc_ret(&cart).unwrap();
            if condition_taken(cond, z, c) {
                assert_eq!(cpu.regs.pc, 0x1234);
                assert_eq!(cpu.regs.sp, 0xE000);
                assert_eq!(cpu.ticks, 4);
            } else {
                assert_eq!(cpu.regs.pc, 0x0100);
                assert_eq!(cpu.regs.sp, 0xDFFE);
                assert_eq!(cpu.ticks, 1); // the condition tick is always paid
            }
        }
    }
}

#[test]
fn unconditional_return_skips_the_condition_tick() {
    let cart = make_cart(rom_with(&[]));
    let mut cpu = CpuContext::new();
    cpu.cur_inst = branch_instruction(InType::InRet, AddrMode::AmImp, CondType::CtNone);
    cpu.regs.sp = 0xDFFE;
    cpu.bus_write(&cart, 0xDFFE, 0x34).unwrap();
    cpu.bus_write(&cart, 0xDFFF, 0x12).unwrap();
    cpu.proc_ret(&cart).unwrap();
    assert_eq!(cpu.regs.pc, 0x1234);
    assert_eq!(cpu.ticks, 3);
}

#[test]
fn reti_enables_interrupts_and_returns() {
    let cart = make_cart(rom_with(&[]));
    let mut cpu = CpuContext::new();
    cpu.int_master_enable = false;
    cpu.cur_inst = branch_instruction(InType::InReti, AddrMode::AmImp, CondType::CtNone);
    cpu.regs.sp = 0xDFFE;
    cpu.bus_write(&cart, 0xDFFE, 0x00).unwrap();
    cpu.bus_write(&cart, 0xDFFF, 0x80).unwrap();
    cpu.proc_reti(&cart).unwrap();
    assert!(cpu.int_master_enable);
    assert_eq!(cpu.regs.pc, 0x8000);
}

#[test]
fn load_8bit_register_from_immediate_advances_pc_by_length() {
    let cart = make_cart(rom_with(&[0x06, 0x42])); // LD B, 0x42
    let mut cpu = CpuContext::new();
    cpu.cpu_step(&cart).unwrap();
    assert_eq!(cpu.regs.b, 0x42);
    assert_eq!(cpu.regs.pc, 2); // opcode + one operand byte
    assert_eq!(cpu.ticks, 1);
}

#[test]
fn load_register_to_register() {
    let cart = make_cart(rom_with(&[0x42])); // LD B, D
    let mut cpu = CpuContext::new();
    cpu.regs.d = 0x99;
    cpu.cpu_step(&cart).unwrap();
    assert_eq!(cpu.regs.b, 0x99);
    assert_eq!(cpu.regs.pc, 1);
}

#[test]
fn load_pair_from_immediate16() {
    let cart = make_cart(rom_with(&[0x01, 0xEF, 0xBE])); // LD BC, 0xBEEF
    let mut cpu = CpuContext::new();
    cpu.cpu_step(&cart).unwrap();
    assert_eq!(cpu.cpu_read_reg(&RegType::RtBc), 0xBEEF);
    assert_eq!(cpu.regs.pc, 3);
    assert_eq!(cpu.ticks, 2);
}

#[test]
fn load_hl_autoincrement_store() {
    let cart = make_cart(rom_with(&[0x22])); // LD (HL+), A
    let mut cpu = CpuContext::new();
    cpu.cpu_set_reg(&RegType::RtHl, 0xC000);
    cpu.regs.a = 0x5A;
    cpu.cpu_step(&cart).unwrap();
    assert_eq!(cpu.bus_read(&cart, 0xC000), Ok(0x5A));
    assert_eq!(cpu.cpu_read_reg(&RegType::RtHl), 0xC001);
}

#[test]
fn load_hl_autodecrement_fetch() {
    let mut bytes = vec![0u8; 1];
    bytes[0] = 0x3A; // LD A, (HL-)
    let cart = make_cart(rom_with(&bytes));
    let mut cpu = CpuContext::new();
    cpu.cpu_set_reg(&RegType::RtHl, 0xC010);
    cpu.bus_write(&cart, 0xC010, 0x77).unwrap();
    cpu.cpu_step(&cart).unwrap();
    assert_eq!(cpu.regs.a, 0x77);
    assert_eq!(cpu.cpu_read_reg(&RegType::RtHl), 0xC00F);
}

#[test]
fn load_stack_relative_computes_half_carry_and_carry() {
    let cart = make_cart(rom_with(&[0xF8, 0x01])); // LD HL, SP + 1
    let mut cpu = CpuContext::new();
    cpu.regs.sp = 0xC0FF;
    cpu.cpu_step(&cart).unwrap();
    assert_eq!(cpu.cpu_read_reg(&RegType::RtHl), 0xC100);
    assert_eq!(cpu.regs.f, 0x30); // Z=0, N=0, H=1, C=1
}

#[test]
fn load_stack_relative_negative_offset() {
    let cart = make_cart(rom_with(&[0xF8, 0xFE])); // LD HL, SP - 2
    let mut cpu = CpuContext::new();
    cpu.regs.sp = 0xC000;
    cpu.cpu_step(&cart).unwrap();
    assert_eq!(cpu.cpu_read_reg(&RegType::RtHl), 0xBFFE);
    assert_eq!(cpu.regs.f, 0x00); // low nibble 0 + 0xE carries nothing
}

#[test]
fn load_sp_to_immediate_address_uses_write16() {
    let cart = make_cart(rom_with(&[0x08, 0x00, 0xC1])); // LD (0xC100), SP
    let mut cpu = CpuContext::new();
    cpu.regs.sp = 0xBEEF;
    cpu.cpu_step(&cart).unwrap();
    assert_eq!(cpu.bus_read(&cart, 0xC100), Ok(0xEF));
    assert_eq!(cpu.bus_read(&cart, 0xC101), Ok(0xBE));
    assert_eq!(cpu.ticks, 4);
}

#[test]
fn load_accumulator_from_immediate_address() {
    let cart = make_cart(rom_with(&[0xFA, 0x34, 0xC0])); // LD A, (0xC034)
    let mut cpu = CpuContext::new();
    cpu.bus_write(&cart, 0xC034, 0xA5).unwrap();
    cpu.cpu_step(&cart).unwrap();
    assert_eq!(cpu.regs.a, 0xA5);
    assert_eq!(cpu.regs.pc, 3);
    assert_eq!(cpu.ticks, 3);
}

#[test]
fn io_port_store_and_load() {
    // LDH (0x80), A then LDH A, (0x81)
    let cart = make_cart(rom_with(&[0xE0, 0x80, 0xF0, 0x81]));
    let mut cpu = CpuContext::new();
    cpu.regs.a = 0x77;
    cpu.bus_write(&cart, 0xFF81, 0x66).unwrap();
    cpu.cpu_step(&cart).unwrap();
    assert_eq!(cpu.bus_read(&cart, 0xFF80), Ok(0x77));
    cpu.cpu_step(&cart).unwrap();
    assert_eq!(cpu.regs.a, 0x66);
    assert_eq!(cpu.regs.pc, 4);
}

#[test]
fn io_port_register_shorthand_widens_to_port_page() {
    let cart = make_cart(rom_with(&[0xE2, 0xF2])); // LD (C), A then LD A, (C)
    let mut cpu = CpuContext::new();
    cpu.regs.c = 0x90;
    cpu.regs.a = 0x3C;
    cpu.cpu_step(&cart).unwrap();
    assert_eq!(cpu.bus_read(&cart, 0xFF90), Ok(0x3C));
    cpu.regs.a = 0x00;
    cpu.cpu_step(&cart).unwrap();
    assert_eq!(cpu.regs.a, 0x3C);
}

#[test]
fn increment_8bit_wraps_and_updates_z_h_only() {
    let cart = make_cart(rom_with(&[0x04])); // INC B
    let mut cpu = CpuContext::new();
    cpu.regs.b = 0xFF;
    cpu.regs.f = 0x10; // C set: increments must not touch it
    cpu.cpu_step(&cart).unwrap();
    assert_eq!(cpu.regs.b, 0x00);
    assert_eq!(cpu.regs.f, 0xB0); // Z=1, N=0, H=1, C kept
    assert_eq!(cpu.ticks, 0);
}

#[test]
fn increment_8bit_half_carry_boundary() {
    let cart = make_cart(rom_with(&[0x0C])); // INC C
    let mut cpu = CpuContext::new();
    cpu.regs.c = 0x0F;
    cpu.cpu_step(&cart).unwrap();
    assert_eq!(cpu.regs.c, 0x10);
    assert_eq!(cpu.regs.f, 0x20); // H only
}

#[test]
fn increment_16bit_has_no_flag_effect_and_costs_a_tick() {
    let cart = make_cart(rom_with(&[0x03])); // INC BC
    let mut cpu = CpuContext::new();
    cpu.cpu_set_reg(&RegType::RtBc, 0xFFFF);
    cpu.regs.f = 0x90;
    cpu.cpu_step(&cart).unwrap();
    assert_eq!(cpu.cpu_read_reg(&RegType::RtBc), 0x0000);
    assert_eq!(cpu.regs.f, 0x90);
    assert_eq!(cpu.ticks, 1);
}

#[test]
fn increment_hl_indirect_byte() {
    let cart = make_cart(rom_with(&[0x34])); // INC (HL)
    let mut cpu = CpuContext::new();
    cpu.cpu_set_reg(&RegType::RtHl, 0xC010);
    cpu.bus_write(&cart, 0xC010, 0x0F).unwrap();
    cpu.cpu_step(&cart).unwrap();
    assert_eq!(cpu.bus_read(&cart, 0xC010), Ok(0x10));
    assert_eq!(cpu.regs.f, 0x20); // H set
    assert_eq!(cpu.ticks, 2);
}

#[test]
fn pop_into_af_masks_the_low_nibble() {
    let cart = make_cart(rom_with(&[0xF1])); // POP AF
    let mut cpu = CpuContext::new();
    cpu.regs.sp = 0xDFFE;
    cpu.bus_write(&cart, 0xDFFE, 0xFF).unwrap();
    cpu.bus_write(&cart, 0xDFFF, 0x12).unwrap();
    cpu.cpu_step(&cart).unwrap();
    assert_eq!(cpu.cpu_read_reg(&RegType::RtAf), 0x12F0);
    assert_eq!(cpu.regs.f & 0x0F, 0);
    assert_eq!(cpu.regs.sp, 0xE000);
}

#[test]
fn push_and_pop_through_step() {
    let cart = make_cart(rom_with(&[0xC5, 0xD1])); // PUSH BC then POP DE
    let mut cpu = CpuContext::new();
    cpu.regs.sp = 0xE000;
    cpu.cpu_set_reg(&RegType::RtBc, 0xCAFE);
    cpu.cpu_step(&cart).unwrap();
    assert_eq!(cpu.regs.sp, 0xDFFE);
    cpu.cpu_step(&cart).unwrap();
    assert_eq!(cpu.cpu_read_reg(&RegType::RtDe), 0xCAFE);
    assert_eq!(cpu.regs.sp, 0xE000);
}

#[test]
fn restart_calls_the_fixed_parameter_address() {
    let cart = make_cart(rom_with(&[0xEF])); // RST 0x28
    let mut cpu = CpuContext::new();
    cpu.regs.sp = 0xE000;
    cpu.cpu_step(&cart).unwrap();
    assert_eq!(cpu.regs.pc, 0x0028);
    assert_eq!(cpu.bus_read(&cart, 0xDFFF), Ok(0x00));
    assert_eq!(cpu.bus_read(&cart, 0xDFFE), Ok(0x01));
}

#[test]
fn call_then_return_round_trip() {
    let mut bytes = vec![0u8; 0x300];
    bytes[0] = 0xCD; // CALL 0x0200
    bytes[1] = 0x00;
    bytes[2] = 0x02;
    bytes[0x200] = 0xC9; // RET
    let cart = make_cart(rom_with(&bytes));
    let mut cpu = CpuContext::new();
    cpu.regs.sp = 0xE000;
    cpu.cpu_step(&cart).unwrap();
    assert_eq!(cpu.regs.pc, 0x0200);
    cpu.cpu_step(&cart).unwrap();
    assert_eq!(cpu.regs.pc, 0x0003);
    assert_eq!(cpu.regs.sp, 0xE000);
}

#[test]
fn jump_to_hl_value() {
    let cart = make_cart(rom_with(&[0xE9])); // JP HL
    let mut cpu = CpuContext::new();
    cpu.cpu_set_reg(&RegType::RtHl, 0x4000);
    cpu.cpu_step(&cart).unwrap();
    assert_eq!(cpu.regs.pc, 0x4000);
}

#[test]
fn disable_interrupts() {
    let cart = make_cart(rom_with(&[0xF3])); // DI
    let mut cpu = CpuContext::new();
    assert!(cpu.int_master_enable);
    cpu.cpu_step(&cart).unwrap();
    assert!(!cpu.int_master_enable);
}

#[test]
fn executing_an_unmapped_opcode_is_invalid_instruction() {
    let cart = make_cart(rom_with(&[0xD3]));
    let mut cpu = CpuContext::new();
    let outcome = cpu.cpu_step(&cart);
    assert_eq!(outcome, Err(EmuError::InvalidInstruction(0xD3)));
    // Distinguishable from the bus signal.
    assert_ne!(outcome, Err(EmuError::UnsupportedRegion(0xD3)));
}

#[test]
fn fetching_from_an_unsupported_region_is_unsupported_region() {
    let cart = make_cart(rom_with(&[]));
    let mut cpu = CpuContext::new();
    cpu.regs.pc = 0x8000;
    assert_eq!(cpu.cpu_step(&cart), Err(EmuError::UnsupportedRegion(0x8000)));
}

#[test]
fn halted_step_does_nothing_at_all() {
    let cart = make_cart(rom_with(&[0xAF]));
    let mut cpu = CpuContext::new();
    cpu.regs.a = 0x37;
    cpu.halted = true;
    cpu.cpu_step(&cart).unwrap();
    assert_eq!(cpu.regs.a, 0x37);
    assert_eq!(cpu.regs.pc, 0);
    assert_eq!(cpu.ticks, 0);
}

#[test]
fn instruction_table_is_dense_with_sentinel() {
    let nop = instruction_by_opcode(0x00);
    assert_eq!(nop.type_in, InType::InNop);
    let ld = instruction_by_opcode(0x06);
    assert_eq!(ld.type_in, InType::InLd);
    assert_eq!(ld.mode, AddrMode::AmRD8);
    assert_eq!(ld.reg_1, RegType::RtB);
    let rst = instruction_by_opcode(0xFF);
    assert_eq!(rst.type_in, InType::InRst);
    assert_eq!(rst.param, 0x38);
    // Unmapped opcodes decode to the sentinel, never to a failure.
    for op in [0xD3u8, 0xDB, 0xDD, 0xE3, 0xE4, 0xEB, 0xEC, 0xED, 0xF4, 0xFC, 0xFD, 0x76] {
        assert_eq!(instruction_by_opcode(op).type_in, InType::InNone);
    }
}

#[test]
fn nop_advances_only_pc() {
    let cart = make_cart(rom_with(&[0x00]));
    let mut cpu = CpuContext::new();
    cpu.cpu_step(&cart).unwrap();
    assert_eq!(cpu.regs.pc, 1);
    assert_eq!(cpu.ticks, 0);
    assert_eq!(cpu.regs.f, 0);
}

#[test]
fn reg8_access_through_unsupported_region_reports_the_signal() {
    let cart = make_cart(rom_with(&[]));
    let mut cpu = CpuContext::new();
    cpu.cpu_set_reg(&RegType::RtHl, 0x8000);
    assert_eq!(
        cpu.cpu_read_reg8(&cart, &RegType::RtHl),
        Err(EmuError::UnsupportedRegion(0x8000))
    );
    assert_eq!(
        cpu.cpu_set_reg8(&cart, &RegType::RtHl, 1),
        Err(EmuError::UnsupportedRegion(0x8000))
    );
}

#[test]
fn relative_jump_with_positive_displacement() {
    let cart = make_cart(rom_with(&[0x18, 0x05])); // JR +5
    let mut cpu = CpuContext::new();
    cpu.cpu_step(&cart).unwrap();
    assert_eq!(cpu.regs.pc, 0x0007); // 2 instruction bytes, then +5
}

#[test]
fn conditional_jump_not_taken_through_a_full_step() {
    let cart = make_cart(rom_with(&[0xC2, 0x00, 0x40])); // JP NZ, 0x4000
    let mut cpu = CpuContext::new();
    cpu.regs.f = 0x80; // Z set: NZ fails
    cpu.cpu_step(&cart).unwrap();
    assert_eq!(cpu.regs.pc, 0x0003); // falls through past the operand
    assert_eq!(cpu.ticks, 2); // only the two operand-byte reads
}
