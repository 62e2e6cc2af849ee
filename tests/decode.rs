use vlc3::cpu::Cpu;
use vlc3::instruction::arith::{Addi, Addr, Andi, Andr, Not};
use vlc3::instruction::control::{Br, Jmp, Jsr, Jsrr};
use vlc3::instruction::load::{Ld, Ldi, Ldr, Lea};
use vlc3::instruction::reserved::{Res, Rti};
use vlc3::instruction::store::{St, Sti, Str};
use vlc3::instruction::trap::Trap;
use vlc3::instruction::{Instruction, Op};
use vlc3::opcode::OpCode;
use vlc3::register::Register;
use vlc3::word::{condition_of, sign_extend_16, zero_extend_16};

#[test]
fn sign_extend_five_bits() {
    assert_eq!(sign_extend_16(0b11111, 5), 0xffff);
    assert_eq!(sign_extend_16(0b01111, 5), 0x000f);
    assert_eq!(sign_extend_16(0b10000, 5), 0xfff0);
}

#[test]
fn sign_extend_other_widths() {
    assert_eq!(sign_extend_16(0b100000, 6), 0xffe0);
    assert_eq!(sign_extend_16(0b011111, 6), 0x001f);
    assert_eq!(sign_extend_16(0x1ff, 9), 0xffff);
    assert_eq!(sign_extend_16(0x0ff, 9), 0x00ff);
    assert_eq!(sign_extend_16(0x400, 11), 0xfc00);
    assert_eq!(sign_extend_16(0x3ff, 11), 0x03ff);
}

#[test]
fn sign_extend_ignores_bits_above_field() {
    assert_eq!(sign_extend_16(0xffe1, 5), 0x0001);
    assert_eq!(sign_extend_16(0x0e10, 5), 0xfff0);
}

#[test]
fn zero_extend_trap_vector() {
    assert_eq!(zero_extend_16(0x20, 8), 0x0020);
    assert_eq!(zero_extend_16(0xf0ff, 8), 0x00ff);
    assert_eq!(zero_extend_16(0x0080, 8), 0x0080);
}

#[test]
fn condition_codes() {
    assert_eq!(condition_of(0), 0b010);
    assert_eq!(condition_of(1), 0b001);
    assert_eq!(condition_of(0x7fff), 0b001);
    assert_eq!(condition_of(0x8000), 0b100);
    assert_eq!(condition_of(0xffff), 0b100);
}

#[test]
fn register_from_index() {
    assert_eq!(Register::from(0), Register::R0);
    assert_eq!(Register::from(7), Register::R7);
    assert_eq!(Register::from(8), Register::PC);
    assert_eq!(Register::from(9), Register::Cond);
    assert_eq!(Register::from(10), Register::Count);
    assert_eq!(Register::Cond.index(), 9);
}

#[test]
fn opcode_names() {
    assert_eq!(OpCode::ADDR.name(), "ADDR");
    assert_eq!(OpCode::JSRR.name(), "JSRR");
    assert_eq!(OpCode::TRAP.name(), "TRAP");
    assert_eq!(OpCode::from_index(OpCode::STI.index()), OpCode::STI);
}

#[test]
fn decode_add_forms() {
    assert_eq!(
        Cpu::decode(0x1025),
        Op::Addi(Addi::new(Register::R0, Register::R0, 5))
    );
    assert_eq!(
        Cpu::decode(0x122a),
        Op::Addi(Addi::new(Register::R1, Register::R0, 10))
    );
    assert_eq!(
        Cpu::decode(0x103f),
        Op::Addi(Addi::new(Register::R0, Register::R0, 0xffff))
    );
    assert_eq!(
        Cpu::decode(0x1642),
        Op::Addr(Addr::new(Register::R3, Register::R1, Register::R2))
    );
}

#[test]
fn decode_and_forms() {
    assert_eq!(
        Cpu::decode(0x5260),
        Op::Andi(Andi::new(Register::R1, Register::R1, 0))
    );
    assert_eq!(
        Cpu::decode(0x5a87),
        Op::Andr(Andr::new(Register::R5, Register::R2, Register::R7))
    );
}

#[test]
fn decode_branch_and_jumps() {
    assert_eq!(
        Cpu::decode(0x0ffe),
        Op::Br(Br::new(true, true, true, 0xfffe))
    );
    assert_eq!(Cpu::decode(0x0402), Op::Br(Br::new(false, true, false, 2)));
    assert_eq!(Cpu::decode(0xc1c0), Op::Jmp(Jmp::new(Register::R7)));
    assert_eq!(Cpu::decode(0x4fff), Op::Jsr(Jsr::new(0xffff)));
    assert_eq!(Cpu::decode(0x4080), Op::Jsrr(Jsrr::new(Register::R2)));
}

#[test]
fn decode_loads_and_stores() {
    assert_eq!(Cpu::decode(0x2401), Op::Ld(Ld::new(Register::R2, 1)));
    assert_eq!(Cpu::decode(0xa7ff), Op::Ldi(Ldi::new(Register::R3, 0xffff)));
    assert_eq!(
        Cpu::decode(0x6a7f),
        Op::Ldr(Ldr::new(Register::R5, Register::R1, 0xffff))
    );
    assert_eq!(Cpu::decode(0xe005), Op::Lea(Lea::new(Register::R0, 5)));
    assert_eq!(Cpu::decode(0x3e10), Op::St(St::new(Register::R7, 0x10)));
    assert_eq!(Cpu::decode(0xb300), Op::Sti(Sti::new(Register::R1, 0xff00)));
    assert_eq!(
        Cpu::decode(0x7181),
        Op::Str(Str::new(Register::R0, Register::R6, 1))
    );
    assert_eq!(
        Cpu::decode(0x987f),
        Op::Not(Not::new(Register::R4, Register::R1))
    );
}

#[test]
fn decode_reserved_and_trap() {
    assert_eq!(Cpu::decode(0x8000), Op::Rti(Rti::new()));
    assert_eq!(Cpu::decode(0xd000), Op::Res(Res::new()));
    assert_eq!(Cpu::decode(0xf025), Op::Trap(Trap::new(0x25)));
    assert_eq!(Cpu::decode(0xff20), Op::Trap(Trap::new(0x20)));
}

#[test]
fn opcode_of_decoded() {
    assert_eq!(Cpu::decode(0x1025).opcode(), OpCode::ADDI);
    assert_eq!(Cpu::decode(0x1642).opcode(), OpCode::ADDR);
    assert_eq!(Cpu::decode(0x4080).opcode(), OpCode::JSRR);
    assert_eq!(Cpu::decode(0xf025).opcode(), OpCode::TRAP);
    assert_eq!(Cpu::decode(0xd000).opcode(), OpCode::RES);
}
