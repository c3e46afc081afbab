#![allow(unused_imports, dead_code)]
use gbemu::bus::{Bus, FlatMemory};
use gbemu::cpu::Cpu;
use gbemu::debug::DebugInfo;
use gbemu::instructions::{Addr, Condition, Immediate, Instr, Op};
use gbemu::registers::{Flags, Reg16, Reg8, CARRY, HCARRY, SUB, ZERO};

fn create_hardware(memory: Vec<u8>) -> FlatMemory {
    FlatMemory::new(memory)
}

fn run_test<F: Fn(&mut Cpu<FlatMemory>)>(code: &[u8], init: F) -> Cpu<FlatMemory> {
    let mut cpu = Cpu::new(create_hardware(code.to_vec()));
    init(&mut cpu);
    let mut db = DebugInfo::new();
    cpu.single_step(&mut db);
    cpu
}

fn test_instr<F: Fn(&mut Cpu<FlatMemory>)>(instr: Instr, memory: &[u8], init: F) -> Cpu<FlatMemory> {
    let mut cpu = Cpu::new(create_hardware(memory.to_vec()));
    init(&mut cpu);
    cpu.execute_instr(instr);
    cpu
}

fn rotate_left_carry_helper(value: u8) {
    let op = Op::rlca;
    let cpu = test_instr(
        Instr { op: op, imm: Immediate::Empty },
        &[0x00],
        |cpu| {
            cpu.regs.f = Flags::all();
            cpu.regs.write8(Reg8::A, value);
        }
    );
   
    assert_eq!(cpu.last_cycles, 1);
    assert_eq!(cpu.regs.read8(Reg8::A), value.rotate_left(1));
    assert!(!cpu.regs.f.contains(ZERO));
    assert!(!cpu.regs.f.contains(SUB));
    assert!(!cpu.regs.f.contains(HCARRY));
    assert_eq!(cpu.regs.f.contains(CARRY), value & 0x80 != 0);
}

#[test]
fn test_rotate_left_carry() {
    rotate_left_carry_helper(0x0F);
    rotate_left_carry_helper(0x80);
    rotate_left_carry_helper(0xCC);
}

fn rotate_left_helper(value: u8, carry: bool) {
    let op = Op::rla;
    let cpu = test_instr(
        Instr { op: op, imm: Immediate::Empty },
        &[0x00],
        |cpu| {
            cpu.regs.f = Flags::all();
            cpu.regs.f.force(Flags::from_bits(CARRY), carry);
            cpu.regs.write8(Reg8::A, value);
        }
    );
  
    assert_eq!(cpu.last_cycles, 1);
    assert_eq!(cpu.regs.read8(Reg8::A), (value << 1) + carry as u8);
    assert!(!cpu.regs.f.contains(ZERO));
    assert!(!cpu.regs.f.contains(SUB));
    assert!(!cpu.regs.f.contains(HCARRY));
    assert_eq!(cpu.regs.f.contains(CARRY), value & 0x80 != 0);
}

#[test]
fn test_rotate_left() {
    rotate_left_helper(0x80, true);
    rotate_left_helper(0x80, false);
    rotate_left_helper(0xCC, true);
    rotate_left_helper(0xCC, false);
}

fn rotate_right_carry_helper(value: u8) {
    let op = Op::rrca;
    let cpu = test_instr(
        Instr { op: op, imm: Immediate::Empty },
        &[0x00],
        |cpu| {
            cpu.regs.f = Flags::all();
            cpu.regs.write8(Reg8::A, value);
        }
    );
   
    assert_eq!(cpu.last_cycles, 1);
    assert_eq!(cpu.regs.read8(Reg8::A), value.rotate_right(1));
    assert!(!cpu.regs.f.contains(ZERO));
    assert!(!cpu.regs.f.contains(SUB));
    assert!(!cpu.regs.f.contains(HCARRY));
    assert_eq!(cpu.regs.f.contains(CARRY), value & 0x01 != 0);
}

#[test]
fn test_rotate_right_carry() {
    rotate_right_carry_helper(0x01);
    rotate_right_carry_helper(0xFE);
}

fn rotate_right_helper(value: u8, carry: bool) {
    let op = Op::rra;
    let cpu = test_instr(
        Instr { op: op, imm: Immediate::Empty },
        &[0x00],
        |cpu| {
            cpu.regs.f = Flags::all();
            cpu.regs.f.force(Flags::from_bits(CARRY), carry);
            cpu.regs.write8(Reg8::A, value);
        }
    );
   
    assert_eq!(cpu.last_cycles, 1);
    assert_eq!(cpu.regs.read8(Reg8::A), (value >> 1) | ((carry as u8) << 7));
    assert!(!cpu.regs.f.contains(ZERO));
    assert!(!cpu.regs.f.contains(SUB));
    assert!(!cpu.regs.f.contains(HCARRY));
    assert_eq!(cpu.regs.f.contains(CARRY), value & 0x01 != 0);
}

#[test]
fn test_rotate_right() {
    rotate_right_helper(0x01, true);
    rotate_right_helper(0x01, false);
    rotate_right_helper(0xFE, true);
    rotate_right_helper(0xFE, false);
}
