use gbemu::bus::{Bus, FlatMemory};
use gbemu::cartridge::{Cartridge, CartridgeError};
use gbemu::cpu::Cpu;
use gbemu::debug::DebugInfo;
use gbemu::disas::disassemble;
use gbemu::events::Events;
use gbemu::gameboy::Gameboy;
use gbemu::gpu::{Color, Gpu, GpuMode, Palette};
use gbemu::hardware::Hardware;
use gbemu::instructions::{from_ext_opcode, from_opcode, Condition, Immediate, Instr, Op};
use gbemu::int_controller::{IntController, Interrupt};
use gbemu::joypad::Key;
use gbemu::mem_map::{map_address, Addr as Region};
use gbemu::registers::{Flags, Reg16, Reg8, CARRY, HCARRY, SUB, ZERO};
use gbemu::shell_cmd::{parse_address, parse_command, Command};

fn flat(memory: Vec<u8>) -> Cpu<FlatMemory> {
    Cpu::new(FlatMemory::new(memory))
}

fn exec(cpu: &mut Cpu<FlatMemory>, op: Op, imm: Immediate) {
    cpu.execute_instr(Instr { op, imm });
}

fn rom(kind: u8, banks: usize) -> Vec<u8> {
    let mut r = vec![0u8; banks * 16384];
    r[0x147] = kind;
    r
}

fn system() -> Cpu<Hardware> {
    let h = match Hardware::new(vec![0u8; 256], rom(0x00, 2)) {
        Ok(h) => h,
        Err(_) => panic!("cartridge refused"),
    };
    Cpu::new(h)
}

#[test]
fn inc_ff_wraps_with_zero_and_half_carry() {
    for carry in [false, true] {
        let mut cpu = flat(vec![0]);
        cpu.regs.a = 0xFF;
        cpu.regs.f = Flags { zero: false, sub: true, hcarry: false, carry };
        exec(&mut cpu, Op::inc8_reg { src: Reg8::A }, Immediate::Empty);
        assert_eq!(cpu.regs.a, 0x00);
        assert_eq!(cpu.regs.f, Flags { zero: true, sub: false, hcarry: true, carry });
    }
}

#[test]
fn dec_00_wraps_with_sub_and_half_carry() {
    for carry in [false, true] {
        let mut cpu = flat(vec![0]);
        cpu.regs.b = 0x00;
        cpu.regs.f = Flags { zero: true, sub: false, hcarry: false, carry };
        exec(&mut cpu, Op::dec8_reg { src: Reg8::B }, Immediate::Empty);
        assert_eq!(cpu.regs.b, 0xFF);
        assert_eq!(cpu.regs.f, Flags { zero: false, sub: true, hcarry: true, carry });
    }
}

#[test]
fn add_ff_01_sets_zero_half_and_carry() {
    let mut cpu = flat(vec![0]);
    cpu.regs.a = 0xFF;
    cpu.regs.b = 0x01;
    exec(&mut cpu, Op::add8_reg { src: Reg8::B }, Immediate::Empty);
    assert_eq!(cpu.regs.a, 0x00);
    assert_eq!(cpu.regs.f, Flags::from_bits(ZERO | HCARRY | CARRY));
}

#[test]
fn add_hl_half_carry_from_bit_11() {
    let mut cpu = flat(vec![0]);
    cpu.regs.write16(Reg16::HL, 0x0FFF);
    cpu.regs.write16(Reg16::BC, 0x0001);
    exec(&mut cpu, Op::add16_reg { src: Reg16::BC }, Immediate::Empty);
    assert_eq!(cpu.regs.read16(Reg16::HL), 0x1000);
    assert!(cpu.regs.f.hcarry);
    assert!(!cpu.regs.f.carry);
    assert_eq!(cpu.last_cycles, 2);
}

#[test]
fn sbc_subtracts_the_carry() {
    let mut cpu = flat(vec![0]);
    cpu.regs.a = 0x10;
    cpu.regs.f = Flags::from_bits(CARRY);
    exec(&mut cpu, Op::sbc8_imm, Immediate::Imm8(0x01));
    assert_eq!(cpu.regs.a, 0x0E);
    assert_eq!(cpu.regs.f, Flags::from_bits(SUB | HCARRY));
    exec(&mut cpu, Op::cp8_imm, Immediate::Imm8(0x0F));
    assert_eq!(cpu.regs.a, 0x0E);
    assert_eq!(cpu.regs.f, Flags::from_bits(SUB | HCARRY | CARRY));
}

#[test]
fn daa_after_bcd_addition() {
    let mut cpu = flat(vec![0]);
    cpu.regs.a = 0x09;
    exec(&mut cpu, Op::add8_imm, Immediate::Imm8(0x01));
    assert_eq!(cpu.regs.a, 0x0A);
    exec(&mut cpu, Op::daa, Immediate::Empty);
    assert_eq!(cpu.regs.a, 0x10);
    cpu.regs.a = 0x99;
    exec(&mut cpu, Op::add8_imm, Immediate::Imm8(0x01));
    exec(&mut cpu, Op::daa, Immediate::Empty);
    assert_eq!(cpu.regs.a, 0x00);
    assert!(cpu.regs.f.zero && cpu.regs.f.carry && !cpu.regs.f.hcarry);
}

#[test]
fn daa_after_bcd_subtraction_with_half_borrow() {
    let mut cpu = flat(vec![0]);
    cpu.regs.a = 0x10;
    exec(&mut cpu, Op::sub8_imm, Immediate::Imm8(0x01));
    assert_eq!(cpu.regs.a, 0x0F);
    exec(&mut cpu, Op::daa, Immediate::Empty);
    assert_eq!(cpu.regs.a, 0x09);
}

#[test]
fn swap_and_cpl_twice_restore() {
    let mut cpu = flat(vec![0]);
    cpu.regs.c = 0x3A;
    exec(&mut cpu, Op::swap { src: Reg8::C }, Immediate::Empty);
    assert_eq!(cpu.regs.c, 0xA3);
    exec(&mut cpu, Op::swap { src: Reg8::C }, Immediate::Empty);
    assert_eq!(cpu.regs.c, 0x3A);
    cpu.regs.a = 0x5C;
    exec(&mut cpu, Op::cpl, Immediate::Empty);
    assert_eq!(cpu.regs.a, 0xA3);
    exec(&mut cpu, Op::cpl, Immediate::Empty);
    assert_eq!(cpu.regs.a, 0x5C);
}

#[test]
fn rlca_then_rrca_restores_and_clears_zero() {
    for v in [0x00u8, 0x80, 0x81, 0x5A] {
        let mut cpu = flat(vec![0]);
        cpu.regs.a = v;
        cpu.regs.f = Flags::all();
        exec(&mut cpu, Op::rlca, Immediate::Empty);
        assert!(!cpu.regs.f.zero);
        exec(&mut cpu, Op::rrca, Immediate::Empty);
        assert!(!cpu.regs.f.zero);
        assert_eq!(cpu.regs.a, v);
    }
}

#[test]
fn set_after_res_and_bit() {
    for b in 0..8u8 {
        let v = 0x24u8 | (1 << b);
        let mut cpu = flat(vec![0]);
        cpu.regs.d = v;
        exec(&mut cpu, Op::res { src: Reg8::D, bit: b }, Immediate::Empty);
        assert_eq!(cpu.regs.d, v & !(1 << b));
        exec(&mut cpu, Op::bit { src: Reg8::D, bit: b }, Immediate::Empty);
        assert!(cpu.regs.f.zero);
        exec(&mut cpu, Op::set { src: Reg8::D, bit: b }, Immediate::Empty);
        assert_eq!(cpu.regs.d, v);
        exec(&mut cpu, Op::bit { src: Reg8::D, bit: b }, Immediate::Empty);
        assert!(!cpu.regs.f.zero);
    }
}

#[test]
fn sra_keeps_bit_7_and_srl_clears_it() {
    let mut cpu = flat(vec![0]);
    cpu.regs.e = 0x81;
    exec(&mut cpu, Op::sra { src: Reg8::E }, Immediate::Empty);
    assert_eq!(cpu.regs.e, 0xC0);
    assert!(cpu.regs.f.carry);
    exec(&mut cpu, Op::srl { src: Reg8::E }, Immediate::Empty);
    assert_eq!(cpu.regs.e, 0x60);
    assert!(!cpu.regs.f.carry);
    cpu.regs.e = 0x80;
    exec(&mut cpu, Op::sla { src: Reg8::E }, Immediate::Empty);
    assert_eq!(cpu.regs.e, 0x00);
    assert!(cpu.regs.f.zero && cpu.regs.f.carry);
}

#[test]
fn sp_plus_signed_byte() {
    let mut cpu = flat(vec![0]);
    cpu.regs.sp = 0x00FF;
    exec(&mut cpu, Op::ld16_lea, Immediate::Imm8(0xFF));
    assert_eq!(cpu.regs.read16(Reg16::HL), 0x00FE);
    assert_eq!(cpu.regs.f, Flags::from_bits(HCARRY | CARRY));
    exec(&mut cpu, Op::add8_sp_imm, Immediate::Imm8(0x02));
    assert_eq!(cpu.regs.sp, 0x0101);
    assert_eq!(cpu.last_cycles, 4);
}

#[test]
fn push_then_pop_round_trip() {
    let mut cpu = flat(vec![0u8; 0x10000]);
    cpu.regs.sp = 0xD000;
    cpu.push(0xBEEF);
    assert_eq!(cpu.regs.sp, 0xCFFE);
    assert_eq!(cpu.bus.read(0xCFFF), 0xBE);
    assert_eq!(cpu.bus.read(0xCFFE), 0xEF);
    assert_eq!(cpu.pop(), 0xBEEF);
    assert_eq!(cpu.regs.sp, 0xD000);
}

#[test]
fn push_af_pop_af_keeps_the_flags() {
    let mut cpu = flat(vec![0u8; 0x10000]);
    cpu.regs.sp = 0xC010;
    cpu.regs.write16(Reg16::AF, 0x12F0);
    exec(&mut cpu, Op::push16 { src: Reg16::AF }, Immediate::Empty);
    cpu.regs.write16(Reg16::AF, 0x0000);
    exec(&mut cpu, Op::pop16 { dest: Reg16::AF }, Immediate::Empty);
    assert_eq!(cpu.regs.read16(Reg16::AF), 0x12F0);
    cpu.regs.write8(Reg8::F, 0xFF);
    assert_eq!(cpu.regs.read8(Reg8::F), 0xF0);
}

#[test]
fn nop_timing() {
    let mut cpu = flat(vec![0x00]);
    let mut db = DebugInfo::new();
    cpu.single_step(&mut db);
    assert_eq!(cpu.total_cycles, 1);
    assert_eq!(cpu.regs.pc, 1);
    assert_eq!(db.instr().op, Op::nop);
}

#[test]
fn call_then_ret_round_trip() {
    let mut mem = vec![0u8; 0x4000];
    mem[0] = 0xCD;
    mem[1] = 0x44;
    mem[2] = 0x33;
    let mut cpu = flat(mem);
    cpu.regs.sp = 0x0003;
    let mut db = DebugInfo::new();
    cpu.single_step(&mut db);
    assert_eq!(cpu.regs.pc, 0x3344);
    assert_eq!(cpu.regs.sp, 0x0001);
    assert_eq!(cpu.bus.read(0x0001), 0x03);
    assert_eq!(cpu.bus.read(0x0002), 0x00);
    assert_eq!(cpu.total_cycles, 6);
    exec(&mut cpu, Op::ret, Immediate::Empty);
    assert_eq!(cpu.regs.pc, 0x0003);
    assert_eq!(cpu.regs.sp, 0x0003);
}

#[test]
fn rst_18_from_opcode() {
    let mut mem = vec![0u8; 0x6000];
    mem[0x5214] = 0xDF;
    let mut cpu = flat(mem);
    cpu.regs.pc = 0x5214;
    cpu.regs.sp = 0x0003;
    let mut db = DebugInfo::new();
    cpu.single_step(&mut db);
    assert_eq!(cpu.regs.pc, 0x0018);
    assert_eq!(cpu.regs.sp, 0x0001);
    assert_eq!(cpu.bus.read(0x0001), 0x15);
    assert_eq!(cpu.bus.read(0x0002), 0x52);
}

#[test]
fn conditional_jr_not_taken() {
    let mut cpu = flat(vec![0x20, 0x42]);
    cpu.regs.f = Flags::from_bits(ZERO);
    let instr = cpu.fetch_instr();
    assert_eq!(instr, Instr { op: Op::jp_rel_cond { cond: Condition::NZ }, imm: Immediate::Imm8(0x42) });
    cpu.execute_instr(instr);
    assert_eq!(cpu.regs.pc, 2);
    assert_eq!(cpu.last_cycles, 2);
}

#[test]
fn interrupt_delivery() {
    let mut cpu = system();
    cpu.regs.sp = 0xD000;
    cpu.ime = true;
    cpu.bus.write(0xFFFF, 0x01);
    cpu.bus.write(0xFF0F, 0x01);
    assert!(cpu.bus.has_irq());
    cpu.step();
    assert_eq!(cpu.total_cycles, 1 + 5);
    assert!(!cpu.ime);
    assert_eq!(cpu.bus.read(0xFF0F) & 0x01, 0);
    assert_eq!(cpu.regs.pc, 0x0040);
    assert_eq!(cpu.regs.sp, 0xCFFE);
    assert_eq!(cpu.bus.read(0xCFFE), 0x01);
    assert_eq!(cpu.bus.read(0xCFFF), 0x00);
}

#[test]
fn ei_takes_effect_after_the_next_instruction() {
    let mut cpu = flat(vec![0xFB, 0x00, 0x00]);
    cpu.step();
    assert!(!cpu.ime && cpu.ime_pending);
    cpu.step();
    assert!(cpu.ime && !cpu.ime_pending);
    exec(&mut cpu, Op::di, Immediate::Empty);
    assert!(!cpu.ime);
}

#[test]
fn halt_waits_for_an_interrupt() {
    let mut cpu = system();
    cpu.bus.write(0xFF50, 0x01);
    cpu.regs.pc = 0x0150;
    exec_halt(&mut cpu);
    assert!(cpu.halted);
    let t = cpu.total_cycles;
    cpu.step();
    assert!(cpu.halted);
    assert_eq!(cpu.total_cycles, t + 1);
    cpu.bus.write(0xFFFF, 0x04);
    cpu.bus.write(0xFF0F, 0x04);
    cpu.step();
    assert!(!cpu.halted);
}

fn exec_halt(cpu: &mut Cpu<Hardware>) {
    cpu.execute_instr(Instr { op: Op::halt, imm: Immediate::Empty });
}

#[test]
fn undefined_opcode_faults_and_stops() {
    let mut cpu = flat(vec![0x00, 0xD3, 0x00]);
    cpu.step();
    let ev = cpu.step();
    assert!(ev.fault);
    assert!(cpu.fault);
    assert_eq!(cpu.regs.pc, 1);
    let t = cpu.total_cycles;
    let ev = cpu.step();
    assert!(ev.fault);
    assert_eq!(cpu.total_cycles, t);
    assert_eq!(cpu.regs.pc, 1);
}

#[test]
fn mbc1_bank_switch() {
    let mut r = rom(0x01, 8);
    r[0x14000] = 0xAB;
    r[0x4000] = 0xCD;
    r[0x0000] = 0x11;
    let mut h = match Hardware::new(vec![0u8; 256], r) {
        Ok(h) => h,
        Err(_) => panic!("cartridge refused"),
    };
    h.write(0xFF50, 1);
    assert_eq!(h.read(0x0000), 0x11);
    h.write(0x2000, 0x05);
    assert_eq!(h.read(0x4000), 0xAB);
    h.write(0x2000, 0x00);
    assert_eq!(h.read(0x4000), 0xCD);
    h.write(0x2000, 0x20);
    assert_eq!(h.read(0x4000), 0xCD);
    assert!(h.cartridge.rom_bank >= 1);
}

#[test]
fn cartridge_ram_round_trip_when_enabled() {
    let mut r = rom(0x03, 4);
    r[0x149] = 0x03;
    let mut h = match Hardware::new(vec![0u8; 256], r) {
        Ok(h) => h,
        Err(_) => panic!("cartridge refused"),
    };
    h.write(0xA010, 0x77);
    assert_eq!(h.read(0xA010), 0x00);
    h.write(0x0000, 0x0A);
    h.write(0xA010, 0x77);
    assert_eq!(h.read(0xA010), 0x77);
    h.write(0x6000, 0x01);
    h.write(0x4000, 0x02);
    assert_eq!(h.read(0xA010), 0x00);
    h.write(0x0000, 0x00);
    assert_eq!(h.read(0xA010), 0x00);
}

#[test]
fn cartridge_errors() {
    match Cartridge::new(vec![0u8; 0x100]) {
        Err(e) => assert_eq!(e, CartridgeError::MalformedHeader),
        Ok(_) => panic!("accepted a ROM without header"),
    }
    match Cartridge::new(rom(0x05, 2)) {
        Err(e) => assert_eq!(e, CartridgeError::Unsupported(0x05)),
        Ok(_) => panic!("accepted an MBC2"),
    }
    match Cartridge::new(rom(0x42, 2)) {
        Err(e) => assert_eq!(e, CartridgeError::Unsupported(0x42)),
        Ok(_) => panic!("accepted an unknown type"),
    }
    assert!(Gameboy::new(vec![0u8; 256], rom(0x13, 2)).is_err());
    assert!(Gameboy::new(vec![0u8; 256], rom(0x00, 2)).is_ok());
}

#[test]
fn work_and_high_ram_round_trip() {
    let mut h = system().bus;
    h.write(0xC123, 0x42);
    assert_eq!(h.read(0xC123), 0x42);
    assert_eq!(h.read(0xE123), 0x42);
    h.write(0xFDFF, 0x17);
    assert_eq!(h.read(0xDDFF), 0x17);
    h.write(0xFF90, 0x99);
    assert_eq!(h.read(0xFF90), 0x99);
    h.write(0xFEA5, 0x99);
    assert_eq!(h.read(0xFEA5), 0x00);
}

#[test]
fn dma_locks_the_bus_and_copies_to_oam() {
    let mut h = system().bus;
    for i in 0..160u16 {
        h.write(0xC000 + i, (i as u8) ^ 0x5A);
    }
    h.write(0xFF90, 0x33);
    h.write(0xFF46, 0xC0);
    assert_eq!(h.read(0xC000), 0xFF);
    assert_eq!(h.read(0x0000), 0xFF);
    assert_eq!(h.read(0xFF90), 0x33);
    h.write(0xC000, 0x00);
    h.write(0xFF91, 0x44);
    assert_eq!(h.read(0xFF91), 0x44);
    let mut n = 0;
    while n < 200 {
        h.update(4);
        n += 4;
    }
    assert_eq!(h.read(0xC000), 0x5A);
    for i in 0..160u16 {
        assert_eq!(h.read(0xFE00 + i), (i as u8) ^ 0x5A);
    }
}

#[test]
fn timer_counts_and_overflows() {
    let mut h = system().bus;
    h.write(0xFF06, 0x10);
    h.write(0xFF05, 0xFE);
    h.write(0xFF07, 0x05);
    h.update(4);
    assert_eq!(h.read(0xFF05), 0xFF);
    h.update(4);
    assert_eq!(h.read(0xFF05), 0x10);
    assert_eq!(h.read(0xFF0F) & 0x04, 0x04);
    let mut t = 0;
    while t < 64 {
        h.update(8);
        t += 8;
    }
    assert_eq!(h.read(0xFF04), 1);
    h.write(0xFF04, 0x77);
    assert_eq!(h.read(0xFF04), 0);
}

#[test]
fn joypad_rows_and_interrupt() {
    let mut g = match Gameboy::new(vec![0u8; 256], rom(0x00, 2)) {
        Ok(g) => g,
        Err(_) => panic!("cartridge refused"),
    };
    g.press_key(Key::A);
    g.press_key(Key::Down);
    assert_eq!(g.cpu.bus.read(0xFF0F) & 0x10, 0x10);
    g.cpu.bus.write(0xFF00, 0x10);
    assert_eq!(g.cpu.bus.read(0xFF00), 0x10 | 0x0E);
    g.cpu.bus.write(0xFF00, 0x20);
    assert_eq!(g.cpu.bus.read(0xFF00), 0x20 | 0x07);
    g.release_key(Key::A);
    g.cpu.bus.write(0xFF00, 0x10);
    assert_eq!(g.cpu.bus.read(0xFF00), 0x10 | 0x0F);
}

#[test]
fn interrupt_controller_priority() {
    let mut ic = IntController::new();
    ic.write_enabled_reg(0x1F);
    assert!(!ic.has_irq());
    ic.set_int_pending(Interrupt::Joypad);
    ic.set_int_pending(Interrupt::Timer);
    assert!(ic.has_irq());
    assert_eq!(ic.ack_irq(), Some(Interrupt::Timer));
    assert_eq!(ic.read_pending_reg(), 0x10);
    assert_eq!(ic.ack_irq(), Some(Interrupt::Joypad));
    assert_eq!(ic.ack_irq(), None);
    assert_eq!(Interrupt::LCDCStatus.isr_addr(), 0x48);
    assert_eq!(Interrupt::SerialTransfer.isr_addr(), 0x58);
}

#[test]
fn ppu_line_timing_and_frame_event() {
    let mut gpu = Gpu::new();
    let mut ic = IntController::new();
    assert_eq!(gpu.read_line_reg(), 0);
    gpu.step(19, &mut ic);
    assert_eq!(gpu.mode, GpuMode::ScanlineOAM);
    gpu.step(1, &mut ic);
    assert_eq!(gpu.mode, GpuMode::ScanlineVRAM);
    gpu.step(43, &mut ic);
    assert_eq!(gpu.mode, GpuMode::HBlank);
    gpu.step(51, &mut ic);
    assert_eq!(gpu.read_line_reg(), 1);
    assert_eq!(gpu.mode, GpuMode::ScanlineOAM);
    gpu.write_lcdc_reg(0x80);
    let mut render = false;
    let mut cycles = 114u32;
    while cycles < 144 * 114 {
        let ev = gpu.step(6, &mut ic);
        render = render || ev.render;
        cycles += 6;
        assert!(gpu.read_line_reg() <= 153);
    }
    assert!(render);
    assert_eq!(gpu.mode, GpuMode::VBlank);
    assert_eq!(ic.read_pending_reg() & 0x01, 0x01);
    let mut c = 0u32;
    while c < 10 * 114 {
        gpu.step(6, &mut ic);
        c += 6;
    }
    assert_eq!(gpu.read_line_reg(), 0);
}

#[test]
fn background_line_rendering() {
    let mut gpu = Gpu::new();
    let mut ic = IntController::new();
    gpu.write_tile_data(16, 0xF0);
    gpu.write_tile_data(17, 0xFF);
    gpu.write_tile_map1(0, 1);
    gpu.write_bg_palette_reg(0b11_10_01_00);
    gpu.write_lcdc_reg(0x91);
    gpu.step(63, &mut ic);
    let fb = gpu.get_framebuffer();
    assert_eq!(fb[0], Color::Black);
    assert_eq!(fb[3], Color::Black);
    assert_eq!(fb[4], Color::DarkGray);
    assert_eq!(fb[8], Color::White);
    assert_eq!(fb[160], Color::White);
}

#[test]
fn sprite_over_background() {
    let mut gpu = Gpu::new();
    let mut ic = IntController::new();
    gpu.write_tile_data(2 * 16, 0xFF);
    gpu.write_tile_data(3 * 16, 0x00);
    gpu.write_tile_data(3 * 16 + 1, 0xFF);
    gpu.write_obj_palette0_reg(0b11_10_01_00);
    gpu.write_oam(0, 16);
    gpu.write_oam(1, 10);
    gpu.write_oam(2, 2);
    gpu.write_oam(4, 16);
    gpu.write_oam(5, 12);
    gpu.write_oam(6, 3);
    gpu.write_lcdc_reg(0x82);
    gpu.step(63, &mut ic);
    let fb = gpu.get_framebuffer();
    assert_eq!(fb[1], Color::White);
    assert_eq!(fb[2], Color::LightGray);
    assert_eq!(fb[9], Color::LightGray);
    assert_eq!(fb[10], Color::DarkGray);
    assert_eq!(fb[11], Color::DarkGray);
    assert_eq!(fb[12], Color::White);
}

#[test]
fn palette_and_colors() {
    let p = Palette { data: 0b00_01_10_11 };
    assert_eq!(p.get_color(0), Color::Black);
    assert_eq!(p.get_color(1), Color::DarkGray);
    assert_eq!(p.get_color(2), Color::LightGray);
    assert_eq!(p.get_color(3), Color::White);
    assert_eq!(Color::LightGray.to_rgb(), (0xC0, 0xC0, 0xC0));
    assert_eq!(GpuMode::from_bits(6), GpuMode::ScanlineOAM);
}

#[test]
fn stat_register_reads_mode_and_line_match() {
    let mut h = system().bus;
    h.write(0xFF41, 0xFF);
    assert_eq!(h.read(0xFF41), 0xF8 | 0x04 | 0x02);
    h.write(0xFF45, 0x05);
    assert_eq!(h.read(0xFF41), 0xF8 | 0x02);
    h.write(0xFF44, 0x22);
    assert_eq!(h.read(0xFF44), 0x00);
}

#[test]
fn memory_map_regions() {
    assert_eq!(map_address(0x0150), Region::ROMBank0(0x0150));
    assert_eq!(map_address(0x4001), Region::ROMBank1(1));
    assert_eq!(map_address(0x9C10), Region::TileMap2(0x10));
    assert_eq!(map_address(0xE010), Region::RAM(0x10));
    assert_eq!(map_address(0xFEA0), Region::Zero);
    assert_eq!(map_address(0xFF80), Region::ZRAM(0));
    assert_eq!(map_address(0xFFFF), Region::IO(0xFF));
}

#[test]
fn decode_tables() {
    assert_eq!(from_opcode(0xF8), (Op::ld16_lea, Immediate::Imm8(0)));
    assert_eq!(from_opcode(0xEA).1, Immediate::Imm16(0));
    for b in [0xD3u8, 0xDB, 0xDD, 0xE3, 0xE4, 0xEB, 0xEC, 0xED, 0xF4, 0xFC, 0xFD] {
        assert_eq!(from_opcode(b).0, Op::inv);
    }
    assert_eq!(from_ext_opcode(0xFE).op, Op::set_ind { bit: 7 });
    assert_eq!(from_ext_opcode(0x8F).op, Op::res { src: Reg8::A, bit: 1 });
}

#[test]
fn disassembly_of_a_block() {
    let code = vec![0x00, 0x3E, 0x12, 0xCB, 0x37, 0xC3, 0x00, 0x01, 0x06];
    let r = disassemble(&code);
    assert_eq!(r.len(), 4);
    assert_eq!(r[0], (0, Instr { op: Op::nop, imm: Immediate::Empty }));
    assert_eq!(r[1], (1, Instr { op: Op::ld8_imm { dest: Reg8::A }, imm: Immediate::Imm8(0x12) }));
    assert_eq!(r[2], (3, Instr { op: Op::swap { src: Reg8::A }, imm: Immediate::Empty }));
    assert_eq!(r[3], (5, Instr { op: Op::jp, imm: Immediate::Imm16(0x0100) }));
}

#[test]
fn breakpoints_stop_before_the_instruction() {
    let mut cpu = flat(vec![0x00, 0x00, 0x3C, 0x00]);
    let mut db = DebugInfo::new();
    db.add_breakpoint(2);
    assert!(db.contains_breakpoint(2));
    assert!(cpu.continue_exec(&mut db, 100));
    assert_eq!(cpu.get_pc(), 2);
    assert_eq!(cpu.regs.a, 0);
    assert_eq!(db.instr().op, Op::inc8_reg { src: Reg8::A });
    assert!(db.remove_breakpoint(2));
    assert!(!db.remove_breakpoint(2));
    assert_eq!(cpu.read_mem(2), 0x3C);
}

#[test]
fn simulate_runs_to_target_and_reports_frames() {
    let mut bios = vec![0u8; 256];
    bios[0] = 0x3E;
    bios[1] = 0x80;
    bios[2] = 0xE0;
    bios[3] = 0x40;
    bios[4] = 0x18;
    bios[5] = 0xFE;
    let mut g = match Gameboy::new(bios, rom(0x00, 2)) {
        Ok(g) => g,
        Err(_) => panic!("cartridge refused"),
    };
    let (t1, ev1) = g.simulate(100);
    assert!(t1 >= 100);
    assert_eq!(ev1, Events { render: false, fault: false });
    let (t2, ev2) = g.simulate(100_000);
    assert!(t2 >= t1);
    assert!(ev2.render);
    assert_eq!(g.framebuffer().len(), 160 * 144);
    let (t3, _) = g.simulate(0);
    assert!(t3 >= t2);
}

#[test]
fn cycle_counters() {
    let mut cpu = flat(vec![0xC3, 0x00, 0x00]);
    cpu.step();
    assert_eq!(cpu.tot_m_cycles(), 4);
    assert_eq!(cpu.tot_c_cycles(), 16);
    assert_eq!(cpu.last_m_cycles(), 0);
    exec(&mut cpu, Op::jp, Immediate::Imm16(0));
    assert_eq!(cpu.last_c_cycles(), 16);
}

#[test]
fn shell_commands() {
    assert_eq!(parse_address(b"0x1F"), Some(0x1F));
    assert_eq!(parse_address(b"ffFF"), Some(0xFFFF));
    assert_eq!(parse_address(b"10000"), None);
    assert_eq!(parse_address(b"0x"), None);
    assert_eq!(parse_address(b"12g"), None);
    assert_eq!(parse_command(b"break", Some(b"0x0150")), Command::Break(0x150));
    assert_eq!(parse_command(b"rm", Some(b"zz")), Command::BadAddress);
    assert_eq!(parse_command(b"read", None), Command::BadAddress);
    assert_eq!(parse_command(b"s", None), Command::Step);
    assert_eq!(parse_command(b"continue", None), Command::Continue);
    assert_eq!(parse_command(b"print", Some(b"cpu")), Command::PrintCpu);
    assert_eq!(parse_command(b"auto", Some(b"x")), Command::BadItem);
    assert_eq!(parse_command(b"screen", None), Command::Screen);
    assert_eq!(parse_command(b"jump", None), Command::Unknown);
}

#[test]
fn cartridge_ram_has_the_declared_size() {
    let mut r = rom(0x02, 4);
    r[0x149] = 0x01;
    let mut h = match Hardware::new(vec![0u8; 256], r) {
        Ok(h) => h,
        Err(_) => panic!("cartridge refused"),
    };
    assert_eq!(h.cartridge.ram.len(), 2048);
    h.write(0x0000, 0x0A);
    h.write(0xA7FF, 0x12);
    assert_eq!(h.read(0xA7FF), 0x12);
    h.write(0xA800, 0x34);
    assert_eq!(h.read(0xA800), 0x00);
    let c = match Cartridge::new(rom(0x01, 2)) {
        Ok(c) => c,
        Err(_) => panic!("cartridge refused"),
    };
    assert_eq!(c.ram.len(), 0);
}

#[test]
fn simulate_past_target_changes_nothing() {
    let mut g = match Gameboy::new(vec![0u8; 256], rom(0x00, 2)) {
        Ok(g) => g,
        Err(_) => panic!("cartridge refused"),
    };
    let (t1, _) = g.simulate(50);
    let pc = g.cpu.regs.pc;
    let (t2, ev) = g.simulate(10);
    assert_eq!(t2, t1);
    assert_eq!(ev, Events { render: false, fault: false });
    assert_eq!(g.cpu.regs.pc, pc);
    g.press_key(Key::Start);
    g.release_key(Key::Start);
    assert_eq!(g.cpu.total_cycles, t1);
    let (t3, _) = g.simulate(t1 + 20);
    assert!(t3 >= t1 + 20);
}

#[test]
fn simulate_reports_a_decode_error_once_and_then_stands_still() {
    let mut bios = vec![0u8; 256];
    bios[3] = 0xD3;
    let mut g = match Gameboy::new(bios, rom(0x00, 2)) {
        Ok(g) => g,
        Err(_) => panic!("cartridge refused"),
    };
    let (t1, ev1) = g.simulate(1000);
    assert!(ev1.fault);
    assert_eq!(t1, 3);
    assert_eq!(g.cpu.regs.pc, 3);
    let (t2, ev2) = g.simulate(2000);
    assert!(ev2.fault);
    assert_eq!(t2, 3);
    assert_eq!(g.cpu.regs.pc, 3);
}

#[test]
fn continue_stops_at_a_breakpoint_on_the_starting_pc() {
    let mut cpu = flat(vec![0x3C, 0x3C, 0x3C]);
    let mut db = DebugInfo::new();
    db.add_breakpoint(0);
    assert!(cpu.continue_exec(&mut db, 0));
    assert_eq!(cpu.regs.pc, 0);
    assert_eq!(cpu.regs.a, 0);
    assert_eq!(cpu.total_cycles, 0);
    db.remove_breakpoint(0);
    assert!(!cpu.continue_exec(&mut db, 2));
    assert_eq!(cpu.regs.a, 2);
}

#[test]
fn dma_copies_attribute_bytes_whole() {
    let mut h = system().bus;
    h.write(0xC003, 0x0F);
    h.write(0xFF46, 0xC0);
    let mut n = 0;
    while n < 170 {
        h.update(5);
        n += 5;
    }
    assert_eq!(h.read(0xFE03), 0x0F);
}
