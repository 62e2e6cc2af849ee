use vlc3::cpu::{Cpu, Effect};
use vlc3::instruction::arith::{Addi, Addr, Andi, Andr, Not};
use vlc3::instruction::control::{Br, Jmp, Jsr, Jsrr};
use vlc3::instruction::load::{Ld, Ldi, Ldr, Lea};
use vlc3::instruction::reserved::{Res, Rti};
use vlc3::instruction::store::{St, Sti, Str};
use vlc3::instruction::Instruction;
use vlc3::opcode::OpCode;
use vlc3::register::Register;

fn run<I: Instruction>(cpu: &mut Cpu, instr: I) -> Effect {
    let mut key = None;
    let mut out = Vec::new();
    let e = instr.execute(cpu, &mut key, &mut out);
    assert!(out.is_empty());
    e
}

#[test]
fn addi_wraps_to_zero() {
    let mut cpu = Cpu::new(0x3000);
    cpu.write(Register::R1, 0xffff);
    assert_eq!(run(&mut cpu, Addi::new(Register::R2, Register::R1, 1)), Effect::Done);
    assert_eq!(cpu.read(Register::R2), 0);
    assert_eq!(cpu.read(Register::Cond), 0b010);
}

#[test]
fn addr_wraps_to_zero() {
    let mut cpu = Cpu::new(0x3000);
    cpu.write(Register::R1, 0xffff);
    cpu.write(Register::R2, 1);
    assert_eq!(run(&mut cpu, Addr::new(Register::R3, Register::R1, Register::R2)), Effect::Done);
    assert_eq!(cpu.read(Register::R3), 0);
    assert_eq!(cpu.read(Register::Cond), 0b010);
}

#[test]
fn add_sets_negative_and_positive() {
    let mut cpu = Cpu::new(0x3000);
    run(&mut cpu, Addi::new(Register::R0, Register::R0, 0xfffd));
    assert_eq!(cpu.read(Register::R0), 0xfffd);
    assert_eq!(cpu.read(Register::Cond), 0b100);
    run(&mut cpu, Addi::new(Register::R0, Register::R0, 5));
    assert_eq!(cpu.read(Register::R0), 2);
    assert_eq!(cpu.read(Register::Cond), 0b001);
}

#[test]
fn and_and_not() {
    let mut cpu = Cpu::new(0x3000);
    cpu.write(Register::R1, 0xf0f0);
    cpu.write(Register::R2, 0xff00);
    run(&mut cpu, Andr::new(Register::R3, Register::R1, Register::R2));
    assert_eq!(cpu.read(Register::R3), 0xf000);
    assert_eq!(cpu.read(Register::Cond), 0b100);
    run(&mut cpu, Andi::new(Register::R4, Register::R1, 0x000f));
    assert_eq!(cpu.read(Register::R4), 0);
    assert_eq!(cpu.read(Register::Cond), 0b010);
    run(&mut cpu, Not::new(Register::R5, Register::R1));
    assert_eq!(cpu.read(Register::R5), 0x0f0f);
    assert_eq!(cpu.read(Register::Cond), 0b001);
}

#[test]
fn branch_taken_only_on_matching_flag() {
    let mut cpu = Cpu::new(0x3000);
    cpu.write(Register::Cond, 0b010);
    run(&mut cpu, Br::new(true, false, true, 5));
    assert_eq!(cpu.read(Register::PC), 0x3000);
    run(&mut cpu, Br::new(false, true, false, 5));
    assert_eq!(cpu.read(Register::PC), 0x3005);
    run(&mut cpu, Br::new(true, true, true, 0xfffb));
    assert_eq!(cpu.read(Register::PC), 0x3000);
    assert_eq!(cpu.read(Register::Cond), 0b010);
}

#[test]
fn jmp_sets_pc() {
    let mut cpu = Cpu::new(0x3000);
    cpu.write(Register::R3, 0x4444);
    run(&mut cpu, Jmp::new(Register::R3));
    assert_eq!(cpu.read(Register::PC), 0x4444);
}

#[test]
fn jsr_links_and_jumps() {
    let mut cpu = Cpu::new(0x3001);
    cpu.write(Register::Cond, 0b001);
    run(&mut cpu, Jsr::new(0x0010));
    assert_eq!(cpu.read(Register::R7), 0x3001);
    assert_eq!(cpu.read(Register::PC), 0x3011);
    run(&mut cpu, Jsr::new(0xfff0));
    assert_eq!(cpu.read(Register::R7), 0x3011);
    assert_eq!(cpu.read(Register::PC), 0x3001);
    assert_eq!(cpu.read(Register::Cond), 0b001);
}

#[test]
fn jsrr_links_and_jumps() {
    let mut cpu = Cpu::new(0x3001);
    cpu.write(Register::R2, 0x5000);
    run(&mut cpu, Jsrr::new(Register::R2));
    assert_eq!(cpu.read(Register::R7), 0x3001);
    assert_eq!(cpu.read(Register::PC), 0x5000);
}

#[test]
fn jsrr_through_r7_uses_old_value() {
    let mut cpu = Cpu::new(0x3001);
    cpu.write(Register::R7, 0x6000);
    run(&mut cpu, Jsrr::new(Register::R7));
    assert_eq!(cpu.read(Register::R7), 0x3001);
    assert_eq!(cpu.read(Register::PC), 0x6000);
}

#[test]
fn ld_and_lea() {
    let mut cpu = Cpu::new(0x3000);
    cpu.mem_write(0x3005, 0x8001);
    run(&mut cpu, Ld::new(Register::R1, 5));
    assert_eq!(cpu.read(Register::R1), 0x8001);
    assert_eq!(cpu.read(Register::Cond), 0b100);
    run(&mut cpu, Lea::new(Register::R2, 0xfffe));
    assert_eq!(cpu.read(Register::R2), 0x2ffe);
    assert_eq!(cpu.read(Register::Cond), 0b001);
}

#[test]
fn ld_wraps_address() {
    let mut cpu = Cpu::new(0xffff);
    cpu.mem_write(0x0001, 7);
    run(&mut cpu, Ld::new(Register::R0, 2));
    assert_eq!(cpu.read(Register::R0), 7);
}

#[test]
fn ldi_matches_two_loads() {
    let mut cpu = Cpu::new(0x3000);
    cpu.mem_write(0x3010, 0x4000);
    cpu.mem_write(0x4000, 0x1234);
    run(&mut cpu, Ldi::new(Register::R3, 0x10));
    assert_eq!(cpu.read(Register::R3), 0x1234);
    assert_eq!(cpu.read(Register::Cond), 0b001);

    let mut chained = Cpu::new(0x3000);
    chained.mem_write(0x3010, 0x4000);
    chained.mem_write(0x4000, 0x1234);
    run(&mut chained, Ld::new(Register::R3, 0x10));
    assert_eq!(chained.read(Register::R3), 0x4000);
    run(&mut chained, Ldr::new(Register::R3, Register::R3, 0));
    assert_eq!(chained.read(Register::R3), cpu.read(Register::R3));
    assert_eq!(chained.read(Register::Cond), cpu.read(Register::Cond));
}

#[test]
fn ldr_with_negative_offset() {
    let mut cpu = Cpu::new(0x3000);
    cpu.write(Register::R6, 0x5000);
    cpu.mem_write(0x4fff, 0);
    cpu.write(Register::Cond, 0b100);
    run(&mut cpu, Ldr::new(Register::R0, Register::R6, 0xffff));
    assert_eq!(cpu.read(Register::R0), 0);
    assert_eq!(cpu.read(Register::Cond), 0b010);
}

#[test]
fn stores_leave_condition() {
    let mut cpu = Cpu::new(0x3000);
    cpu.write(Register::R1, 0xabcd);
    cpu.write(Register::R2, 0x5000);
    cpu.write(Register::Cond, 0b100);
    run(&mut cpu, St::new(Register::R1, 4));
    assert_eq!(cpu.peek(0x3004), 0xabcd);
    run(&mut cpu, Str::new(Register::R1, Register::R2, 0xfffe));
    assert_eq!(cpu.peek(0x4ffe), 0xabcd);
    cpu.mem_write(0x3008, 0x6000);
    run(&mut cpu, Sti::new(Register::R1, 8));
    assert_eq!(cpu.peek(0x6000), 0xabcd);
    assert_eq!(cpu.peek(0x3008), 0x6000);
    assert_eq!(cpu.read(Register::Cond), 0b100);
}

#[test]
fn reserved_kinds_are_illegal() {
    let mut cpu = Cpu::new(0x3000);
    assert_eq!(run(&mut cpu, Res::new()), Effect::Illegal(OpCode::RES));
    assert_eq!(run(&mut cpu, Rti::new()), Effect::Illegal(OpCode::RTI));
    assert_eq!(cpu.read(Register::PC), 0x3000);
}

#[test]
fn fresh_machine_state() {
    let cpu = Cpu::new(0x3000);
    assert!(cpu.is_running());
    assert_eq!(cpu.read(Register::PC), 0x3000);
    assert_eq!(cpu.read(Register::Cond), 0b010);
    assert_eq!(cpu.read(Register::R0), 0);
    assert_eq!(cpu.peek(0x3000), 0);
}
