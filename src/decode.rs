use vstd::prelude::*;

use crate::cpu::Cpu;
use crate::instruction::arith::{Addi, Addr, Andi, Andr, Not};
use crate::instruction::control::{Br, Jmp, Jsr, Jsrr};
use crate::instruction::load::{Ld, Ldi, Ldr, Lea};
use crate::instruction::reserved::{Res, Rti};
use crate::instruction::store::{St, Sti, Str};
use crate::instruction::trap::Trap;
use crate::instruction::Op;
use crate::register::{register_of, Register};
use crate::word::{bit, sext, sign_extend_16, zext, zero_extend_16};

verus! {

/// The general register named by the three bits of `raw` that start at
/// bit `shift`.
pub open spec fn reg_field(raw: u16, shift: u16) -> Register {
    register_of((raw >> shift) & 7)
}

/// The instruction that a word encodes. The top four bits pick the kind;
/// bit 5 tells the immediate forms of ADD and AND from the register forms,
/// and bit 11 the PC-relative JSR from JSRR. Offsets and immediates are
/// sign-extended from their field width, the trap vector zero-extended from
/// 8 bits.
pub open spec fn decode_op(raw: u16) -> Op {
    match raw >> 12 {
        0 => Op::Br(Br { n: bit(raw, 11), z: bit(raw, 10), p: bit(raw, 9), offset: sext(raw, 9) }),
        1 => if bit(raw, 5) {
            Op::Addi(Addi { dr: reg_field(raw, 9), sr1: reg_field(raw, 6), imm: sext(raw, 5) })
        } else {
            Op::Addr(Addr { dr: reg_field(raw, 9), sr1: reg_field(raw, 6), sr2: reg_field(raw, 0) })
        },
        2 => Op::Ld(Ld { dr: reg_field(raw, 9), offset: sext(raw, 9) }),
        3 => Op::St(St { sr: reg_field(raw, 9), offset: sext(raw, 9) }),
        4 => if bit(raw, 11) {
            Op::Jsr(Jsr { offset: sext(raw, 11) })
        } else {
            Op::Jsrr(Jsrr { base: reg_field(raw, 6) })
        },
        5 => if bit(raw, 5) {
            Op::Andi(Andi { dr: reg_field(raw, 9), sr1: reg_field(raw, 6), imm: sext(raw, 5) })
        } else {
            Op::Andr(Andr { dr: reg_field(raw, 9), sr1: reg_field(raw, 6), sr2: reg_field(raw, 0) })
        },
        6 => Op::Ldr(Ldr { dr: reg_field(raw, 9), base: reg_field(raw, 6), offset: sext(raw, 6) }),
        7 => Op::Str(Str { sr: reg_field(raw, 9), base: reg_field(raw, 6), offset: sext(raw, 6) }),
        8 => Op::Rti(Rti),
        9 => Op::Not(Not { dr: reg_field(raw, 9), sr: reg_field(raw, 6) }),
        10 => Op::Ldi(Ldi { dr: reg_field(raw, 9), offset: sext(raw, 9) }),
        11 => Op::Sti(Sti { sr: reg_field(raw, 9), offset: sext(raw, 9) }),
        12 => Op::Jmp(Jmp { base: reg_field(raw, 6) }),
        13 => Op::Res(Res),
        14 => Op::Lea(Lea { dr: reg_field(raw, 9), offset: sext(raw, 9) }),
        _ => Op::Trap(Trap { vect: zext(raw, 8) }),
    }
}

/// The general register named by the three bits of `raw` that start at
/// bit `shift`.
fn field_reg(raw: u16, shift: u16) -> (r: Register)
    requires
        shift <= 9,
    ensures
        r == reg_field(raw, shift),
{
    let v = (raw >> shift) & 7;
    assert(v < 8) by (bit_vector)
        requires
            v == (raw >> shift) & 7,
    ;
    Register::from(v)
}

/// Bit `i` of `raw`.
fn flag(raw: u16, i: u16) -> (r: bool)
    requires
        i < 16,
    ensures
        r == bit(raw, i),
{
    (raw >> i) & 1 == 1
}

impl Cpu {
    /// Decodes a raw word; every word encodes some instruction.
    pub fn decode(raw_instr: u16) -> (r: Op)
        ensures
            r == decode_op(raw_instr),
    {
        let opcode = raw_instr >> 12;
        match opcode {
            0 => Self::decode_br(raw_instr),
            1 => Self::decode_add(raw_instr),
            2 => Self::decode_ld(raw_instr),
            3 => Self::decode_st(raw_instr),
            4 => Self::decode_jsr(raw_instr),
            5 => Self::decode_and(raw_instr),
            6 => Self::decode_ldr(raw_instr),
            7 => Self::decode_str(raw_instr),
            8 => Self::decode_rti(raw_instr),
            9 => Self::decode_not(raw_instr),
            10 => Self::decode_ldi(raw_instr),
            11 => Self::decode_sti(raw_instr),
            12 => Self::decode_jmp(raw_instr),
            13 => Self::decode_res(raw_instr),
            14 => Self::decode_lea(raw_instr),
            _ => Self::decode_trap(raw_instr),
        }
    }

    fn decode_br(raw_instr: u16) -> (r: Op)
        ensures
            r == Op::Br(
                Br {
                    n: bit(raw_instr, 11),
                    z: bit(raw_instr, 10),
                    p: bit(raw_instr, 9),
                    offset: sext(raw_instr, 9),
                },
            ),
    {
        let n = flag(raw_instr, 11);
        let z = flag(raw_instr, 10);
        let p = flag(raw_instr, 9);
        let offset = sign_extend_16(raw_instr, 9);
        Op::Br(Br::new(n, z, p, offset))
    }

    fn decode_add(raw_instr: u16) -> (r: Op)
        ensures
            raw_instr >> 12 == 1 ==> r == decode_op(raw_instr),
    {
        let dr = field_reg(raw_instr, 9);
        let sr1 = field_reg(raw_instr, 6);
        if flag(raw_instr, 5) {
            let imm = sign_extend_16(raw_instr, 5);
            Op::Addi(Addi::new(dr, sr1, imm))
        } else {
            let sr2 = field_reg(raw_instr, 0);
            Op::Addr(Addr::new(dr, sr1, sr2))
        }
    }

    fn decode_ld(raw_instr: u16) -> (r: Op)
        ensures
            r == Op::Ld(Ld { dr: reg_field(raw_instr, 9), offset: sext(raw_instr, 9) }),
    {
        let dr = field_reg(raw_instr, 9);
        let offset = sign_extend_16(raw_instr, 9);
        Op::Ld(Ld::new(dr, offset))
    }

    fn decode_st(raw_instr: u16) -> (r: Op)
        ensures
            r == Op::St(St { sr: reg_field(raw_instr, 9), offset: sext(raw_instr, 9) }),
    {
        let sr = field_reg(raw_instr, 9);
        let offset = sign_extend_16(raw_instr, 9);
        Op::St(St::new(sr, offset))
    }

    fn decode_jsr(raw_instr: u16) -> (r: Op)
        ensures
            raw_instr >> 12 == 4 ==> r == decode_op(raw_instr),
    {
        if flag(raw_instr, 11) {
            let offset = sign_extend_16(raw_instr, 11);
            Op::Jsr(Jsr::new(offset))
        } else {
            let base = field_reg(raw_instr, 6);
            Op::Jsrr(Jsrr::new(base))
        }
    }

    fn decode_and(raw_instr: u16) -> (r: Op)
        ensures
            raw_instr >> 12 == 5 ==> r == decode_op(raw_instr),
    {
        let dr = field_reg(raw_instr, 9);
        let sr1 = field_reg(raw_instr, 6);
        if flag(raw_instr, 5) {
            let imm = sign_extend_16(raw_instr, 5);
            Op::Andi(Andi::new(dr, sr1, imm))
        } else {
            let sr2 = field_reg(raw_instr, 0);
            Op::Andr(Andr::new(dr, sr1, sr2))
        }
    }

    fn decode_ldr(raw_instr: u16) -> (r: Op)
        ensures
            r == Op::Ldr(
                Ldr {
                    dr: reg_field(raw_instr, 9),
                    base: reg_field(raw_instr, 6),
                    offset: sext(raw_instr, 6),
                },
            ),
    {
        let dr = field_reg(raw_instr, 9);
        let base = field_reg(raw_instr, 6);
        let offset = sign_extend_16(raw_instr, 6);
        Op::Ldr(Ldr::new(dr, base, offset))
    }

    fn decode_str(raw_instr: u16) -> (r: Op)
        ensures
            r == Op::Str(
                Str {
                    sr: reg_field(raw_instr, 9),
                    base: reg_field(raw_instr, 6),
                    offset: sext(raw_instr, 6),
                },
            ),
    {
        let sr = field_reg(raw_instr, 9);
        let base = field_reg(raw_instr, 6);
        let offset = sign_extend_16(raw_instr, 6);
        Op::Str(Str::new(sr, base, offset))
    }

    fn decode_rti(_raw_instr: u16) -> (r: Op)
        ensures
            r == Op::Rti(Rti),
    {
        Op::Rti(Rti::new())
    }

    fn decode_not(raw_instr: u16) -> (r: Op)
        ensures
            r == Op::Not(Not { dr: reg_field(raw_instr, 9), sr: reg_field(raw_instr, 6) }),
    {
        let dr = field_reg(raw_instr, 9);
        let sr = field_reg(raw_instr, 6);
        Op::Not(Not::new(dr, sr))
    }

    fn decode_ldi(raw_instr: u16) -> (r: Op)
        ensures
            r == Op::Ldi(Ldi { dr: reg_field(raw_instr, 9), offset: sext(raw_instr, 9) }),
    {
        let dr = field_reg(raw_instr, 9);
        let offset = sign_extend_16(raw_instr, 9);
        Op::Ldi(Ldi::new(dr, offset))
    }

    fn decode_sti(raw_instr: u16) -> (r: Op)
        ensures
            r == Op::Sti(Sti { sr: reg_field(raw_instr, 9), offset: sext(raw_instr, 9) }),
    {
        let sr = field_reg(raw_instr, 9);
        let offset = sign_extend_16(raw_instr, 9);
        Op::Sti(Sti::new(sr, offset))
    }

    fn decode_jmp(raw_instr: u16) -> (r: Op)
        ensures
            r == Op::Jmp(Jmp { base: reg_field(raw_instr, 6) }),
    {
        let base = field_reg(raw_instr, 6);
        Op::Jmp(Jmp::new(base))
    }

    fn decode_res(_raw_instr: u16) -> (r: Op)
        ensures
            r == Op::Res(Res),
    {
        Op::Res(Res::new())
    }

    fn decode_lea(raw_instr: u16) -> (r: Op)
        ensures
            r == Op::Lea(Lea { dr: reg_field(raw_instr, 9), offset: sext(raw_instr, 9) }),
    {
        let dr = field_reg(raw_instr, 9);
        let offset = sign_extend_16(raw_instr, 9);
        Op::Lea(Lea::new(dr, offset))
    }

    fn decode_trap(raw_instr: u16) -> (r: Op)
        ensures
            r == Op::Trap(Trap { vect: zext(raw_instr, 8) }),
    {
        let vect = zero_extend_16(raw_instr, 8);
        Op::Trap(Trap::new(vect))
    }
}

} // verus!
