use vlc3::cpu::{Cpu, Effect};
use vlc3::instruction::trap::Trap;
use vlc3::instruction::Instruction;
use vlc3::memory::{Memory, KBDR, KBSR};
use vlc3::opcode::OpCode;
use vlc3::register::Register;
use vlc3::summary::Summary;
use vlc3::vm::{ImageError, Vm};

fn trap(cpu: &mut Cpu, vect: u16, key: &mut Option<u16>) -> (Effect, Vec<u8>) {
    let mut out = Vec::new();
    let e = Trap::new(vect).execute(cpu, key, &mut out);
    (e, out)
}

fn string_at(cpu: &mut Cpu, start: u16, words: &[u16]) {
    for (i, w) in words.iter().enumerate() {
        cpu.mem_write(start + i as u16, *w);
    }
    cpu.write(Register::R0, start);
}

#[test]
fn keyboard_poll_without_input() {
    let mut mem = Memory::new();
    mem.write(KBSR, 0x8000);
    let mut key = None;
    assert_eq!(mem.read(KBSR, &mut key), 0);
    assert_eq!(mem.peek(KBSR), 0);
    assert_eq!(key, None);
}

#[test]
fn keyboard_poll_with_input() {
    let mut mem = Memory::new();
    let mut key = Some(0x61);
    assert_eq!(mem.read(KBSR, &mut key), 0x8000);
    assert_eq!(mem.peek(KBDR), 0x61);
    assert_eq!(mem.read(KBDR, &mut key), 0x61);
    assert_eq!(key, None);
}

#[test]
fn plain_read_keeps_key() {
    let mut mem = Memory::new();
    mem.write(0x3000, 42);
    let mut key = Some(0x61);
    assert_eq!(mem.read(0x3000, &mut key), 42);
    assert_eq!(key, Some(0x61));
    assert_eq!(mem.peek(KBDR), 0);
}

#[test]
fn putsp_two_words() {
    let mut cpu = Cpu::new(0x3000);
    string_at(&mut cpu, 0x4000, &[0x0041, 0x0042, 0x0000]);
    let (e, out) = trap(&mut cpu, 0x24, &mut None);
    assert_eq!(e, Effect::Done);
    assert_eq!(out, b"AB".to_vec());
}

#[test]
fn putsp_no_stray_null() {
    let mut cpu = Cpu::new(0x3000);
    string_at(&mut cpu, 0x4000, &[0x0041, 0x0042, 0x0043, 0x0000]);
    let (_, out) = trap(&mut cpu, 0x24, &mut None);
    assert_eq!(out, b"ABC".to_vec());
    assert!(!out.contains(&0));
}

#[test]
fn putsp_packed_pairs() {
    let mut cpu = Cpu::new(0x3000);
    string_at(&mut cpu, 0x4000, &[0x6548, 0x6c6c, 0x006f, 0x0000, 0x0058]);
    let (_, out) = trap(&mut cpu, 0x24, &mut None);
    assert_eq!(out, b"Hello".to_vec());
}

#[test]
fn puts_word_string() {
    let mut cpu = Cpu::new(0x3000);
    string_at(&mut cpu, 0x4000, &[0x0048, 0x0069, 0x0000, 0x0021]);
    let (e, out) = trap(&mut cpu, 0x22, &mut None);
    assert_eq!(e, Effect::Done);
    assert_eq!(out, b"Hi".to_vec());
    assert_eq!(cpu.read(Register::R7), 0x3000);
}

#[test]
fn out_writes_low_byte() {
    let mut cpu = Cpu::new(0x3000);
    cpu.write(Register::R0, 0x1241);
    let (_, out) = trap(&mut cpu, 0x21, &mut None);
    assert_eq!(out, b"A".to_vec());
}

#[test]
fn getc_waits_for_key() {
    let mut cpu = Cpu::new(0x3000);
    let mut key = None;
    let (e, out) = trap(&mut cpu, 0x20, &mut key);
    assert_eq!(e, Effect::NeedKey);
    assert!(out.is_empty());
    assert_eq!(cpu.read(Register::R7), 0);
}

#[test]
fn getc_reads_key() {
    let mut cpu = Cpu::new(0x3000);
    let mut key = Some(0x7a);
    let (e, out) = trap(&mut cpu, 0x20, &mut key);
    assert_eq!(e, Effect::Done);
    assert!(out.is_empty());
    assert_eq!(cpu.read(Register::R0), 0x7a);
    assert_eq!(cpu.read(Register::Cond), 0b001);
    assert_eq!(key, None);
}

#[test]
fn in_echoes_key() {
    let mut cpu = Cpu::new(0x3000);
    let mut key = Some(0x71);
    let (e, out) = trap(&mut cpu, 0x23, &mut key);
    assert_eq!(e, Effect::Done);
    assert_eq!(out, b"q".to_vec());
    assert_eq!(cpu.read(Register::R0), 0x71);
}

#[test]
fn halt_prints_notice() {
    let mut cpu = Cpu::new(0x3000);
    let (e, out) = trap(&mut cpu, 0x25, &mut None);
    assert_eq!(e, Effect::Done);
    assert_eq!(out, b"HALT\n".to_vec());
    assert!(!cpu.is_running());
}

#[test]
fn unknown_trap_vector() {
    let mut cpu = Cpu::new(0x3000);
    let (e, _) = trap(&mut cpu, 0x26, &mut None);
    assert_eq!(e, Effect::BadTrap(0x26));
}

#[test]
fn end_to_end_program() {
    let image: Vec<u8> = vec![0x30, 0x00, 0x10, 0x25, 0x12, 0x2a, 0xf0, 0x25];
    let mut vm = Vm::init(&image).unwrap();
    assert_eq!(vm.cpu().read(Register::PC), 0x3000);
    let mut key = None;
    let mut out = Vec::new();
    assert_eq!(vm.step(&mut key, &mut out), Effect::Done);
    assert_eq!(vm.step(&mut key, &mut out), Effect::Done);
    assert_eq!(vm.cpu().read(Register::Cond), 0b001);
    assert!(vm.is_running());
    assert_eq!(vm.step(&mut key, &mut out), Effect::Done);
    assert!(!vm.is_running());
    assert_eq!(vm.cpu().read(Register::R0), 5);
    assert_eq!(vm.cpu().read(Register::R1), 15);
    assert_eq!(vm.cpu().read(Register::Cond), 0b001);
    assert_eq!(vm.cpu().read(Register::R7), 0x3003);
    assert_eq!(out, b"HALT\n".to_vec());
}

#[test]
fn step_waits_for_getc_key() {
    let image: Vec<u8> = vec![0x30, 0x00, 0xf0, 0x23, 0xf0, 0x25];
    let mut vm = Vm::init(&image).unwrap();
    let mut key = None;
    let mut out = Vec::new();
    assert_eq!(vm.step(&mut key, &mut out), Effect::NeedKey);
    assert_eq!(vm.cpu().read(Register::PC), 0x3000);
    let mut key = Some(0x78);
    assert_eq!(vm.step(&mut key, &mut out), Effect::Done);
    assert_eq!(key, None);
    assert_eq!(vm.cpu().read(Register::R0), 0x78);
    assert_eq!(vm.cpu().read(Register::PC), 0x3001);
    assert_eq!(out, b"x".to_vec());
}

#[test]
fn step_reports_illegal_opcode() {
    let image: Vec<u8> = vec![0x30, 0x00, 0xd0, 0x00];
    let mut vm = Vm::init(&image).unwrap();
    let mut out = Vec::new();
    assert_eq!(vm.step(&mut None, &mut out), Effect::Illegal(OpCode::RES));
}

#[test]
fn polling_loop_sees_key() {
    // LDI R0, KBSR-pointer; BRzp back; LDI R0, KBDR-pointer; HALT; pointers
    let image: Vec<u8> = vec![
        0x30, 0x00, 0xa0, 0x03, 0x07, 0xfe, 0xa0, 0x02, 0xf0, 0x25, 0xfe, 0x00, 0xfe, 0x02,
    ];
    let mut vm = Vm::init(&image).unwrap();
    let mut out = Vec::new();
    let mut key = None;
    assert_eq!(vm.step(&mut key, &mut out), Effect::Done);
    assert_eq!(vm.cpu().read(Register::R0), 0);
    assert_eq!(vm.step(&mut key, &mut out), Effect::Done);
    assert_eq!(vm.cpu().read(Register::PC), 0x3000);
    let mut key = Some(0x6b);
    assert_eq!(vm.step(&mut key, &mut out), Effect::Done);
    assert_eq!(key, None);
    assert_eq!(vm.cpu().read(Register::R0), 0x8000);
    assert_eq!(vm.step(&mut key, &mut out), Effect::Done);
    assert_eq!(vm.cpu().read(Register::PC), 0x3002);
    assert_eq!(vm.step(&mut key, &mut out), Effect::Done);
    assert_eq!(vm.cpu().read(Register::R0), 0x6b);
}

#[test]
fn image_errors() {
    assert_eq!(Vm::init(&vec![]).err(), Some(ImageError::Empty));
    assert_eq!(Vm::init(&vec![0x30]).err(), Some(ImageError::Empty));
    assert_eq!(Vm::init(&vec![0x30, 0x00, 0x12]).err(), Some(ImageError::OddLength));
}

#[test]
fn image_wraps_past_top() {
    let image: Vec<u8> = vec![0xff, 0xff, 0x00, 0x01, 0x00, 0x02];
    let vm = Vm::init(&image).unwrap();
    assert_eq!(vm.cpu().peek(0xffff), 1);
    assert_eq!(vm.cpu().peek(0x0000), 2);
    assert_eq!(vm.cpu().read(Register::PC), 0xffff);
}

#[test]
fn summary_totals() {
    let mut s = Summary::new();
    s.add_record(OpCode::ADDI, 1, 100);
    s.add_record(OpCode::ADDI, 2, 50);
    s.add_record(OpCode::TRAP, 1, 7);
    assert_eq!(s.calls(OpCode::ADDI), 3);
    assert_eq!(s.nanos(OpCode::ADDI), 150);
    assert_eq!(s.calls(OpCode::LD), 0);
    assert_eq!(s.total_calls(), 4);
    assert_eq!(s.total_nanos(), 157);
}
