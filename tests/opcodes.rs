#![allow(unused_imports, dead_code)]
use gbemu::bus::{Bus, FlatMemory};
use gbemu::cpu::Cpu;
use gbemu::debug::DebugInfo;
use gbemu::instructions::{Addr, Condition, Immediate, Instr, Op};
use gbemu::registers::{Flags, Reg16, Reg8, CARRY, HCARRY, SUB, ZERO};

fn create_hardware(memory: Vec<u8>) -> FlatMemory {
    FlatMemory::new(memory)
}

fn run_test<F: Fn(&mut Cpu<FlatMemory>)>(code: &[u8], init: F) -> Cpu<FlatMemory> {
    let mut cpu = Cpu::new(create_hardware(code.to_vec()));
    init(&mut cpu);
    let mut db = DebugInfo::new();
    cpu.single_step(&mut db);
    cpu
}

fn test_instr<F: Fn(&mut Cpu<FlatMemory>)>(instr: Instr, memory: &[u8], init: F) -> Cpu<FlatMemory> {
    let mut cpu = Cpu::new(create_hardware(memory.to_vec()));
    init(&mut cpu);
    cpu.execute_instr(instr);
    cpu
}

#[test]
fn test_opcodes() {

    let opcodes = vec![
        (vec![0x00], Op::nop, Immediate::Empty),
        (vec![0x01, 0x99, 0x11], Op::ld16_imm { dest: Reg16::BC }, Immediate::Imm16(0x1199)),
        (vec![0x02], Op::st8_ind { dest: Addr::BC, src: Reg8::A }, Immediate::Empty),
        (vec![0x03], Op::inc16_reg { src: Reg16::BC }, Immediate::Empty),
        (vec![0x04], Op::inc8_reg { src: Reg8::B }, Immediate::Empty),
        (vec![0x05], Op::dec8_reg { src: Reg8::B }, Immediate::Empty),
        (vec![0x06, 0xff], Op::ld8_imm { dest: Reg8::B }, Immediate::Imm8(0xff)),
        (vec![0x07], Op::rlca, Immediate::Empty),
        (vec![0x08, 0xaa, 0xbb], Op::st16_sp, Immediate::Imm16(0xbbaa)),
        (vec![0x09], Op::add16_reg { src: Reg16::BC }, Immediate::Empty),
        (vec![0x0A], Op::ld8_ind { dest: Reg8::A, src: Addr::BC }, Immediate::Empty),
        (vec![0x0B], Op::dec16_reg { src: Reg16::BC }, Immediate::Empty),
        (vec![0x0C], Op::inc8_reg { src: Reg8::C }, Immediate::Empty),
        (vec![0x0D], Op::dec8_reg { src: Reg8::C }, Immediate::Empty),
        (vec![0x0E, 0xff], Op::ld8_imm { dest: Reg8::C }, Immediate::Imm8(0xff)),
        (vec![0x0F], Op::rrca, Immediate::Empty),

        (vec![0x10], Op::stop, Immediate::Empty),
        (vec![0x11, 0x99, 0x11], Op::ld16_imm { dest: Reg16::DE }, Immediate::Imm16(0x1199)),
        (vec![0x12], Op::st8_ind { dest: Addr::DE, src: Reg8::A }, Immediate::Empty),
        (vec![0x13], Op::inc16_reg { src: Reg16::DE }, Immediate::Empty),
        (vec![0x14], Op::inc8_reg { src: Reg8::D }, Immediate::Empty),
        (vec![0x15], Op::dec8_reg { src: Reg8::D }, Immediate::Empty),
        (vec![0x16, 0xff], Op::ld8_imm { dest: Reg8::D }, Immediate::Imm8(0xff)),
        (vec![0x17], Op::rla, Immediate::Empty),
        (vec![0x18, 0xac], Op::jp_rel, Immediate::Imm8(0xac)),
        (vec![0x19], Op::add16_reg { src: Reg16::DE }, Immediate::Empty),
        (vec![0x1A], Op::ld8_ind { dest: Reg8::A, src: Addr::DE }, Immediate::Empty),
        (vec![0x1B], Op::dec16_reg { src: Reg16::DE }, Immediate::Empty),
        (vec![0x1C], Op::inc8_reg { src: Reg8::E }, Immediate::Empty),
        (vec![0x1D], Op::dec8_reg { src: Reg8::E }, Immediate::Empty),
        (vec![0x1E, 0xff], Op::ld8_imm { dest: Reg8::E }, Immediate::Imm8(0xff)),
        (vec![0x1F], Op::rra, Immediate::Empty),

        (vec![0x20, 0xbc], Op::jp_rel_cond { cond: Condition::NZ }, Immediate::Imm8(0xbc)),
        (vec![0x21, 0x99, 0x11], Op::ld16_imm { dest: Reg16::HL }, Immediate::Imm16(0x1199)),
        (vec![0x22], Op::st8_ind { dest: Addr::HLI, src: Reg8::A}, Immediate::Empty),
        (vec![0x23], Op::inc16_reg { src: Reg16::HL }, Immediate::Empty),
        (vec![0x24], Op::inc8_reg { src: Reg8::H }, Immediate::Empty),
        (vec![0x25], Op::dec8_reg { src: Reg8::H }, Immediate::Empty),
        (vec![0x26, 0xff], Op::ld8_imm { dest: Reg8::H }, Immediate::Imm8(0xff)),
        (vec![0x27], Op::daa, Immediate::Empty),
        (vec![0x28, 0xec], Op::jp_rel_cond { cond: Condition::Z }, Immediate::Imm8(0xec)),
        (vec![0x29], Op::add16_reg { src: Reg16::HL }, Immediate::Empty),
        (vec![0x2A], Op::ld8_ind { dest: Reg8::A, src: Addr::HLI }, Immediate::Empty),
        (vec![0x2B], Op::dec16_reg { src: Reg16::HL }, Immediate::Empty),
        (vec![0x2C], Op::inc8_reg { src: Reg8::L }, Immediate::Empty),
        (vec![0x2D], Op::dec8_reg { src: Reg8::L }, Immediate::Empty),
        (vec![0x2E, 0xff], Op::ld8_imm { dest: Reg8::L }, Immediate::Imm8(0xff)),
        (vec![0x2F], Op::cpl, Immediate::Empty),

        (vec![0x30, 0xcc], Op::jp_rel_cond { cond: Condition::NC }, Immediate::Imm8(0xcc)),
        (vec![0x31, 0x99, 0x11], Op::ld16_imm { dest: Reg16::SP }, Immediate::Imm16(0x1199)),
        (vec![0x32], Op::st8_ind { dest: Addr::HLD, src: Reg8::A }, Immediate::Empty),
        (vec![0x33], Op::inc16_reg { src: Reg16::SP }, Immediate::Empty),
        (vec![0x34], Op::inc8_ind, Immediate::Empty),
        (vec![0x35], Op::dec8_ind, Immediate::Empty),
        (vec![0x36, 0xdd], Op::st8_ind_imm, Immediate::Imm8(0xdd)),
        (vec![0x37], Op::scf, Immediate::Empty),
        (vec![0x38, 0xfc], Op::jp_rel_cond { cond: Condition::C }, Immediate::Imm8(0xfc)),
        (vec![0x39], Op::add16_reg { src: Reg16::SP }, Immediate::Empty),
        (vec![0x3A], Op::ld8_ind { dest: Reg8::A, src: Addr::HLD }, Immediate::Empty),
        (vec![0x3B], Op::dec16_reg { src: Reg16::SP }, Immediate::Empty),
        (vec![0x3C], Op::inc8_reg { src: Reg8::A }, Immediate::Empty),
        (vec![0x3D], Op::dec8_reg { src: Reg8::A }, Immediate::Empty),
        (vec![0x3E, 0xff], Op::ld8_imm { dest: Reg8::A }, Immediate::Imm8(0xff)),
        (vec![0x3F], Op::ccf, Immediate::Empty),

        (vec![0x40], Op::ld8_rr { dest: Reg8::B, src: Reg8::B }, Immediate::Empty),
        (vec![0x41], Op::ld8_rr { dest: Reg8::B, src: Reg8::C }, Immediate::Empty),
        (vec![0x42], Op::ld8_rr { dest: Reg8::B, src: Reg8::D }, Immediate::Empty),
        (vec![0x43], Op::ld8_rr { dest: Reg8::B, src: Reg8::E }, Immediate::Empty),
        (vec![0x44], Op::ld8_rr { dest: Reg8::B, src: Reg8::H }, Immediate::Empty),
        (vec![0x45], Op::ld8_rr { dest: Reg8::B, src: Reg8::L }, Immediate::Empty),
        (vec![0x46], Op::ld8_ind { dest: Reg8::B, src: Addr::HL }, Immediate::Empty),
        (vec![0x47], Op::ld8_rr { dest: Reg8::B, src: Reg8::A }, Immediate::Empty),
        (vec![0x48], Op::ld8_rr { dest: Reg8::C, src: Reg8::B }, Immediate::Empty),
        (vec![0x49], Op::ld8_rr { dest: Reg8::C, src: Reg8::C }, Immediate::Empty),
        (vec![0x4A], Op::ld8_rr { dest: Reg8::C, src: Reg8::D }, Immediate::Empty),
        (vec![0x4B], Op::ld8_rr { dest: Reg8::C, src: Reg8::E }, Immediate::Empty),
        (vec![0x4C], Op::ld8_rr { dest: Reg8::C, src: Reg8::H }, Immediate::Empty),
        (vec![0x4D], Op::ld8_rr { dest: Reg8::C, src: Reg8::L }, Immediate::Empty),
        (vec![0x4E], Op::ld8_ind { dest: Reg8::C, src: Addr::HL }, Immediate::Empty),
        (vec![0x4F], Op::ld8_rr { dest: Reg8::C, src: Reg8::A }, Immediate::Empty),

        (vec![0x50], Op::ld8_rr { dest: Reg8::D, src: Reg8::B }, Immediate::Empty),
        (vec![0x51], Op::ld8_rr { dest: Reg8::D, src: Reg8::C }, Immediate::Empty),
        (vec![0x52], Op::ld8_rr { dest: Reg8::D, src: Reg8::D }, Immediate::Empty),
        (vec![0x53], Op::ld8_rr { dest: Reg8::D, src: Reg8::E }, Immediate::Empty),
        (vec![0x54], Op::ld8_rr { dest: Reg8::D, src: Reg8::H }, Immediate::Empty),
        (vec![0x55], Op::ld8_rr { dest: Reg8::D, src: Reg8::L }, Immediate::Empty),
        (vec![0x56], Op::ld8_ind { dest: Reg8::D, src: Addr::HL }, Immediate::Empty),
        (vec![0x57], Op::ld8_rr { dest: Reg8::D, src: Reg8::A }, Immediate::Empty),
        (vec![0x58], Op::ld8_rr { dest: Reg8::E, src: Reg8::B }, Immediate::Empty),
        (vec![0x59], Op::ld8_rr { dest: Reg8::E, src: Reg8::C }, Immediate::Empty),
        (vec![0x5A], Op::ld8_rr { dest: Reg8::E, src: Reg8::D }, Immediate::Empty),
        (vec![0x5B], Op::ld8_rr { dest: Reg8::E, src: Reg8::E }, Immediate::Empty),
        (vec![0x5C], Op::ld8_rr { dest: Reg8::E, src: Reg8::H }, Immediate::Empty),
        (vec![0x5D], Op::ld8_rr { dest: Reg8::E, src: Reg8::L }, Immediate::Empty),
        (vec![0x5E], Op::ld8_ind { dest: Reg8::E, src: Addr::HL }, Immediate::Empty),
        (vec![0x5F], Op::ld8_rr { dest: Reg8::E, src: Reg8::A }, Immediate::Empty),

        (vec![0x60], Op::ld8_rr { dest: Reg8::H, src: Reg8::B }, Immediate::Empty),
        (vec![0x61], Op::ld8_rr { dest: Reg8::H, src: Reg8::C }, Immediate::Empty),
        (vec![0x62], Op::ld8_rr { dest: Reg8::H, src: Reg8::D }, Immediate::Empty),
        (vec![0x63], Op::ld8_rr { dest: Reg8::H, src: Reg8::E }, Immediate::Empty),
        (vec![0x64], Op::ld8_rr { dest: Reg8::H, src: Reg8::H }, Immediate::Empty),
        (vec![0x65], Op::ld8_rr { dest: Reg8::H, src: Reg8::L }, Immediate::Empty),
        (vec![0x66], Op::ld8_ind { dest: Reg8::H, src: Addr::HL }, Immediate::Empty),
        (vec![0x67], Op::ld8_rr { dest: Reg8::H, src: Reg8::A }, Immediate::Empty),
        (vec![0x68], Op::ld8_rr { dest: Reg8::L, src: Reg8::B }, Immediate::Empty),
        (vec![0x69], Op::ld8_rr { dest: Reg8::L, src: Reg8::C }, Immediate::Empty),
        (vec![0x6A], Op::ld8_rr { dest: Reg8::L, src: Reg8::D }, Immediate::Empty),
        (vec![0x6B], Op::ld8_rr { dest: Reg8::L, src: Reg8::E }, Immediate::Empty),
        (vec![0x6C], Op::ld8_rr { dest: Reg8::L, src: Reg8::H }, Immediate::Empty),
        (vec![0x6D], Op::ld8_rr { dest: Reg8::L, src: Reg8::L }, Immediate::Empty),
        (vec![0x6E], Op::ld8_ind { dest: Reg8::L, src: Addr::HL }, Immediate::Empty),
        (vec![0x6F], Op::ld8_rr { dest: Reg8::L, src: Reg8::A }, Immediate::Empty),

        (vec![0x70], Op::st8_ind { dest: Addr::HL, src: Reg8::B }, Immediate::Empty),
        (vec![0x71], Op::st8_ind { dest: Addr::HL, src: Reg8::C }, Immediate::Empty),
        (vec![0x72], Op::st8_ind { dest: Addr::HL, src: Reg8::D }, Immediate::Empty),
        (vec![0x73], Op::st8_ind { dest: Addr::HL, src: Reg8::E }, Immediate::Empty),
        (vec![0x74], Op::st8_ind { dest: Addr::HL, src: Reg8::H }, Immediate::Empty),
        (vec![0x75], Op::st8_ind { dest: Addr::HL, src: Reg8::L }, Immediate::Empty),
        (vec![0x76], Op::halt, Immediate::Empty),
        (vec![0x77], Op::st8_ind { dest: Addr::HL, src: Reg8::A }, Immediate::Empty),
        (vec![0x78], Op::ld8_rr { dest: Reg8::A, src: Reg8::B }, Immediate::Empty),
        (vec![0x79], Op::ld8_rr { dest: Reg8::A, src: Reg8::C }, Immediate::Empty),
        (vec![0x7A], Op::ld8_rr { dest: Reg8::A, src: Reg8::D }, Immediate::Empty),
        (vec![0x7B], Op::ld8_rr { dest: Reg8::A, src: Reg8::E }, Immediate::Empty),
        (vec![0x7C], Op::ld8_rr { dest: Reg8::A, src: Reg8::H }, Immediate::Empty),
        (vec![0x7D], Op::ld8_rr { dest: Reg8::A, src: Reg8::L }, Immediate::Empty),
        (vec![0x7E], Op::ld8_ind { dest: Reg8::A, src: Addr::HL }, Immediate::Empty),
        (vec![0x7F], Op::ld8_rr { dest: Reg8::A, src: Reg8::A }, Immediate::Empty),

        (vec![0xA0], Op::and8_reg { src: Reg8::B }, Immediate::Empty),
        (vec![0xA1], Op::and8_reg { src: Reg8::C }, Immediate::Empty),
        (vec![0xA2], Op::and8_reg { src: Reg8::D }, Immediate::Empty),
        (vec![0xA3], Op::and8_reg { src: Reg8::E }, Immediate::Empty),
        (vec![0xA4], Op::and8_reg { src: Reg8::H }, Immediate::Empty),
        (vec![0xA5], Op::and8_reg { src: Reg8::L }, Immediate::Empty),
        (vec![0xA6], Op::and8_ind, Immediate::Empty),
        (vec![0xA7], Op::and8_reg { src: Reg8::A }, Immediate::Empty),
        (vec![0xA8], Op::xor8_reg { src: Reg8::B }, Immediate::Empty),
        (vec![0xA9], Op::xor8_reg { src: Reg8::C }, Immediate::Empty),
        (vec![0xAA], Op::xor8_reg { src: Reg8::D }, Immediate::Empty),
        (vec![0xAB], Op::xor8_reg { src: Reg8::E }, Immediate::Empty),
        (vec![0xAC], Op::xor8_reg { src: Reg8::H }, Immediate::Empty),
        (vec![0xAD], Op::xor8_reg { src: Reg8::L }, Immediate::Empty),
        (vec![0xAE], Op::xor8_ind, Immediate::Empty),
        (vec![0xAF], Op::xor8_reg { src: Reg8::A }, Immediate::Empty),

        (vec![0xB0], Op::or8_reg { src: Reg8::B }, Immediate::Empty),
        (vec![0xB1], Op::or8_reg { src: Reg8::C }, Immediate::Empty),
        (vec![0xB2], Op::or8_reg { src: Reg8::D }, Immediate::Empty),
        (vec![0xB3], Op::or8_reg { src: Reg8::E }, Immediate::Empty),
        (vec![0xB4], Op::or8_reg { src: Reg8::H }, Immediate::Empty),
        (vec![0xB5], Op::or8_reg { src: Reg8::L }, Immediate::Empty),
        (vec![0xB6], Op::or8_ind, Immediate::Empty),
        (vec![0xB7], Op::or8_reg { src: Reg8::A }, Immediate::Empty),

        (vec![0xC0], Op::ret_cond { cond: Condition::NZ }, Immediate::Empty),
        (vec![0xC2, 0x01, 0xfc], Op::jp_cond { cond: Condition::NZ }, Immediate::Imm16(0xfc01)),
        (vec![0xC3, 0xaa, 0xbb], Op::jp, Immediate::Imm16(0xbbaa)),
        (vec![0xC4, 0xff, 0xee], Op::call_cond { cond: Condition::NZ }, Immediate::Imm16(0xeeff)),
        (vec![0xC7], Op::rst { target: 0x0000 }, Immediate::Empty),
        (vec![0xC8], Op::ret_cond { cond: Condition::Z }, Immediate::Empty),
        (vec![0xC9], Op::ret, Immediate::Empty),
        (vec![0xCA, 0x02, 0xec], Op::jp_cond { cond: Condition::Z }, Immediate::Imm16(0xec02)),
        (vec![0xCC, 0x88, 0x77], Op::call_cond { cond: Condition::Z }, Immediate::Imm16(0x7788)),
        (vec![0xCD, 0xdd, 0xcc], Op::call, Immediate::Imm16(0xccdd)),
        (vec![0xCF], Op::rst { target: 0x0008 }, Immediate::Empty),

        (vec![0xD0], Op::ret_cond { cond: Condition::NC }, Immediate::Empty),
        (vec![0xD2, 0x33, 0x0c], Op::jp_cond { cond: Condition::NC }, Immediate::Imm16(0x0c33)),
        (vec![0xD4, 0x66, 0x77], Op::call_cond { cond: Condition::NC }, Immediate::Imm16(0x7766)),
        (vec![0xD7], Op::rst { target: 0x0010 }, Immediate::Empty),
        (vec![0xD8], Op::ret_cond { cond: Condition::C }, Immediate::Empty),
        (vec![0xD9], Op::reti, Immediate::Empty),
        (vec![0xDA, 0x56, 0x44], Op::jp_cond { cond: Condition::C }, Immediate::Imm16(0x4456)),
        (vec![0xDC, 0xff, 0x77], Op::call_cond { cond: Condition::C }, Immediate::Imm16(0x77ff)),
        (vec![0xDF], Op::rst { target: 0x0018 }, Immediate::Empty),

        (vec![0xE6, 0x34], Op::and8_imm, Immediate::Imm8(0x34)),
        (vec![0xE7], Op::rst { target: 0x0020 }, Immediate::Empty),
        (vec![0xE9], Op::jp_ind, Immediate::Empty),
        (vec![0xEE, 0x36], Op::xor8_imm, Immediate::Imm8(0x36)),
        (vec![0xEF], Op::rst { target: 0x0028 }, Immediate::Empty),

        (vec![0xF6, 0x35], Op::or8_imm, Immediate::Imm8(0x35)),
        (vec![0xF7], Op::rst { target: 0x0030 }, Immediate::Empty),
        (vec![0xFF], Op::rst { target: 0x0038 }, Immediate::Empty),

        (vec![0xCB, 0x30], Op::swap { src: Reg8::B }, Immediate::Empty),
        (vec![0xCB, 0x31], Op::swap { src: Reg8::C }, Immediate::Empty),
        (vec![0xCB, 0x32], Op::swap { src: Reg8::D }, Immediate::Empty),
        (vec![0xCB, 0x33], Op::swap { src: Reg8::E }, Immediate::Empty),
        (vec![0xCB, 0x34], Op::swap { src: Reg8::H }, Immediate::Empty),
        (vec![0xCB, 0x35], Op::swap { src: Reg8::L }, Immediate::Empty),
        (vec![0xCB, 0x36], Op::swap_ind, Immediate::Empty),
        (vec![0xCB, 0x37], Op::swap { src: Reg8::A }, Immediate::Empty),

        (vec![0xCB, 0x40], Op::bit { src: Reg8::B, bit: 0 }, Immediate::Empty),
        (vec![0xCB, 0x41], Op::bit { src: Reg8::C, bit: 0 }, Immediate::Empty),
        (vec![0xCB, 0x42], Op::bit { src: Reg8::D, bit: 0 }, Immediate::Empty),
        (vec![0xCB, 0x43], Op::bit { src: Reg8::E, bit: 0 }, Immediate::Empty),
        (vec![0xCB, 0x44], Op::bit { src: Reg8::H, bit: 0 }, Immediate::Empty),
        (vec![0xCB, 0x45], Op::bit { src: Reg8::L, bit: 0 }, Immediate::Empty),
        (vec![0xCB, 0x46], Op::bit_ind     { bit: 0 }, Immediate::Empty),
        (vec![0xCB, 0x47], Op::bit { src: Reg8::A, bit: 0 }, Immediate::Empty),
        (vec![0xCB, 0x48], Op::bit { src: Reg8::B, bit: 1 }, Immediate::Empty),
        (vec![0xCB, 0x49], Op::bit { src: Reg8::C, bit: 1 }, Immediate::Empty),
        (vec![0xCB, 0x4A], Op::bit { src: Reg8::D, bit: 1 }, Immediate::Empty),
        (vec![0xCB, 0x4B], Op::bit { src: Reg8::E, bit: 1 }, Immediate::Empty),
        (vec![0xCB, 0x4C], Op::bit { src: Reg8::H, bit: 1 }, Immediate::Empty),
        (vec![0xCB, 0x4D], Op::bit { src: Reg8::L, bit: 1 }, Immediate::Empty),
        (vec![0xCB, 0x4E], Op::bit_ind     { bit: 1 }, Immediate::Empty),
        (vec![0xCB, 0x4F], Op::bit { src: Reg8::A, bit: 1 }, Immediate::Empty),

        (vec![0xCB, 0x50], Op::bit { src: Reg8::B, bit: 2 }, Immediate::Empty),
        (vec![0xCB, 0x51], Op::bit { src: Reg8::C, bit: 2 }, Immediate::Empty),
        (vec![0xCB, 0x52], Op::bit { src: Reg8::D, bit: 2 }, Immediate::Empty),
        (vec![0xCB, 0x53], Op::bit { src: Reg8::E, bit: 2 }, Immediate::Empty),
        (vec![0xCB, 0x54], Op::bit { src: Reg8::H, bit: 2 }, Immediate::Empty),
        (vec![0xCB, 0x55], Op::bit { src: Reg8::L, bit: 2 }, Immediate::Empty),
        (vec![0xCB, 0x56], Op::bit_ind     { bit: 2 }, Immediate::Empty),
        (vec![0xCB, 0x57], Op::bit { src: Reg8::A, bit: 2 }, Immediate::Empty),
        (vec![0xCB, 0x58], Op::bit { src: Reg8::B, bit: 3 }, Immediate::Empty),
        (vec![0xCB, 0x59], Op::bit { src: Reg8::C, bit: 3 }, Immediate::Empty),
        (vec![0xCB, 0x5A], Op::bit { src: Reg8::D, bit: 3 }, Immediate::Empty),
        (vec![0xCB, 0x5B], Op::bit { src: Reg8::E, bit: 3 }, Immediate::Empty),
        (vec![0xCB, 0x5C], Op::bit { src: Reg8::H, bit: 3 }, Immediate::Empty),
        (vec![0xCB, 0x5D], Op::bit { src: Reg8::L, bit: 3 }, Immediate::Empty),
        (vec![0xCB, 0x5E], Op::bit_ind     { bit: 3 }, Immediate::Empty),
        (vec![0xCB, 0x5F], Op::bit { src: Reg8::A, bit: 3 }, Immediate::Empty),

        (vec![0xCB, 0x60], Op::bit { src: Reg8::B, bit: 4 }, Immediate::Empty),
        (vec![0xCB, 0x61], Op::bit { src: Reg8::C, bit: 4 }, Immediate::Empty),
        (vec![0xCB, 0x62], Op::bit { src: Reg8::D, bit: 4 }, Immediate::Empty),
        (vec![0xCB, 0x63], Op::bit { src: Reg8::E, bit: 4 }, Immediate::Empty),
        (vec![0xCB, 0x64], Op::bit { src: Reg8::H, bit: 4 }, Immediate::Empty),
        (vec![0xCB, 0x65], Op::bit { src: Reg8::L, bit: 4 }, Immediate::Empty),
        (vec![0xCB, 0x66], Op::bit_ind     { bit: 4 }, Immediate::Empty),
        (vec![0xCB, 0x67], Op::bit { src: Reg8::A, bit: 4 }, Immediate::Empty),
        (vec![0xCB, 0x68], Op::bit { src: Reg8::B, bit: 5 }, Immediate::Empty),
        (vec![0xCB, 0x69], Op::bit { src: Reg8::C, bit: 5 }, Immediate::Empty),
        (vec![0xCB, 0x6A], Op::bit { src: Reg8::D, bit: 5 }, Immediate::Empty),
        (vec![0xCB, 0x6B], Op::bit { src: Reg8::E, bit: 5 }, Immediate::Empty),
        (vec![0xCB, 0x6C], Op::bit { src: Reg8::H, bit: 5 }, Immediate::Empty),
        (vec![0xCB, 0x6D], Op::bit { src: Reg8::L, bit: 5 }, Immediate::Empty),
        (vec![0xCB, 0x6E], Op::bit_ind     { bit: 5 }, Immediate::Empty),
        (vec![0xCB, 0x6F], Op::bit { src: Reg8::A, bit: 5 }, Immediate::Empty),

        (vec![0xCB, 0x70], Op::bit { src: Reg8::B, bit: 6 }, Immediate::Empty),
        (vec![0xCB, 0x71], Op::bit { src: Reg8::C, bit: 6 }, Immediate::Empty),
        (vec![0xCB, 0x72], Op::bit { src: Reg8::D, bit: 6 }, Immediate::Empty),
        (vec![0xCB, 0x73], Op::bit { src: Reg8::E, bit: 6 }, Immediate::Empty),
        (vec![0xCB, 0x74], Op::bit { src: Reg8::H, bit: 6 }, Immediate::Empty),
        (vec![0xCB, 0x75], Op::bit { src: Reg8::L, bit: 6 }, Immediate::Empty),
        (vec![0xCB, 0x76], Op::bit_ind     { bit: 6 }, Immediate::Empty),
        (vec![0xCB, 0x77], Op::bit { src: Reg8::A, bit: 6 }, Immediate::Empty),
        (vec![0xCB, 0x78], Op::bit { src: Reg8::B, bit: 7 }, Immediate::Empty),
        (vec![0xCB, 0x79], Op::bit { src: Reg8::C, bit: 7 }, Immediate::Empty),
        (vec![0xCB, 0x7A], Op::bit { src: Reg8::D, bit: 7 }, Immediate::Empty),
        (vec![0xCB, 0x7B], Op::bit { src: Reg8::E, bit: 7 }, Immediate::Empty),
        (vec![0xCB, 0x7C], Op::bit { src: Reg8::H, bit: 7 }, Immediate::Empty),
        (vec![0xCB, 0x7D], Op::bit { src: Reg8::L, bit: 7 }, Immediate::Empty),
        (vec![0xCB, 0x7E], Op::bit_ind     { bit: 7 }, Immediate::Empty),
        (vec![0xCB, 0x7F], Op::bit { src: Reg8::A, bit: 7 }, Immediate::Empty),
    ];

    for (code, op, imm) in opcodes {
        let len = code.len();
        let mut cpu = Cpu::new(create_hardware(code));
        let instr = cpu.fetch_instr();
        assert_eq!(instr.op, op);
        assert_eq!(instr.imm, imm);
        assert_eq!(cpu.regs.pc as usize, len);
    }
}
