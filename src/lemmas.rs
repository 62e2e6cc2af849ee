use vstd::prelude::*;

use crate::cpu::{step_outcome, waits_for_key, CpuView, Effect};
use crate::decode::{decode_op, reg_field};
use crate::instruction::arith::{Addi, Addr};
use crate::instruction::control::{Jsr, Jsrr};
use crate::instruction::load::{Ld, Ldi, Ldr};
use crate::instruction::trap::{reads_key, string_from, word_bytes, SCAN_LIMIT};
use crate::memory::{load, KBDR, KBSR, KEY_READY};
use crate::instruction::{Instruction, Op};
use crate::register::Register;
use crate::word::cond_code;

verus! {

/// Whether `c` is one of the three one-hot condition codes.
pub open spec fn one_hot(c: u16) -> bool {
    c == 0b100 || c == 0b010 || c == 0b001
}

/// The register that an instruction writes its result to, for the kinds
/// that produce one.
pub open spec fn result_reg(op: Op) -> Option<Register> {
    match op {
        Op::Addr(i) => Some(i.dr),
        Op::Addi(i) => Some(i.dr),
        Op::Andr(i) => Some(i.dr),
        Op::Andi(i) => Some(i.dr),
        Op::Not(i) => Some(i.dr),
        Op::Ld(i) => Some(i.dr),
        Op::Ldi(i) => Some(i.dr),
        Op::Ldr(i) => Some(i.dr),
        Op::Lea(i) => Some(i.dr),
        Op::Trap(t) => if reads_key(t.vect) {
            Some(Register::R0)
        } else {
            None
        },
        _ => None,
    }
}

/// Whether an instruction is a store, a branch or a jump.
pub open spec fn is_store_or_jump(op: Op) -> bool {
    match op {
        Op::St(_) | Op::Sti(_) | Op::Str(_) | Op::Br(_) | Op::Jmp(_) | Op::Jsr(_) | Op::Jsrr(_) => true,
        _ => false,
    }
}

/// The condition code of a result is one-hot: zero exactly for a zero
/// result, negative exactly for a non-zero result with bit 15 set,
/// positive otherwise.
pub proof fn lemma_cond_code(result: u16)
    ensures
        one_hot(cond_code(result)),
        cond_code(result) == 0b010 <==> result == 0,
        cond_code(result) == 0b100 <==> (result != 0 && (result >> 15) & 1 == 1),
        cond_code(result) == 0b001 <==> (result != 0 && (result >> 15) & 1 == 0),
{
    assert(((result >> 15) & 1 == 1) == (result >= 0x8000)) by (bit_vector);
    assert(((result >> 15) & 1 == 0) == (result < 0x8000)) by (bit_vector);
}

/// After an instruction that produces a result into a general register
/// completes, the condition code is the one-hot code of that result.
pub proof fn lemma_result_sets_cond(op: Op, s: CpuView, key: Option<u16>)
    requires
        s.wf(),
        result_reg(op) is Some,
        result_reg(op).unwrap().spec_index() < 8,
        op.outcome(s, key).effect == Effect::Done,
    ensures
        ({
            let t = op.outcome(s, key).cpu;
            let r = result_reg(op).unwrap();
            &&& t.reg(Register::Cond) == cond_code(t.reg(r))
            &&& one_hot(t.reg(Register::Cond))
        }),
{
    let t = op.outcome(s, key).cpu;
    let r = result_reg(op).unwrap();
    lemma_cond_code(t.reg(r));
}

/// Stores, branches and jumps leave the condition code as it was.
pub proof fn lemma_cond_kept(op: Op, s: CpuView, key: Option<u16>)
    requires
        s.wf(),
        is_store_or_jump(op),
    ensures
        op.outcome(s, key).cpu.reg(Register::Cond) == s.reg(Register::Cond),
{
}

/// LDI reads the pointer at `PC + offset` and loads from where it points:
/// the same as an LD of the pointer into the destination followed by an
/// LDR through it.
pub proof fn lemma_ldi_is_two_loads(dr: Register, offset: u16, s: CpuView, key: Option<u16>)
    requires
        s.wf(),
        dr.spec_index() < 8,
    ensures
        ({
            let first = (Ld { dr, offset }).outcome(s, key);
            let second = (Ldr { dr, base: dr, offset: 0 }).outcome(first.cpu, first.key);
            &&& (Ldi { dr, offset }).outcome(s, key) == second
            &&& first.cpu.reg(dr) == s.load(key, s.pc().wrapping_add(offset)).0
        }),
{
    let first = (Ld { dr, offset }).outcome(s, key);
    let second = (Ldr { dr, base: dr, offset: 0 }).outcome(first.cpu, first.key);
    let direct = (Ldi { dr, offset }).outcome(s, key);
    assert(first.cpu.reg(dr).wrapping_add(0) == first.cpu.reg(dr));
    assert(direct.cpu.regs =~= second.cpu.regs);
    assert(direct.out =~= second.out);
}

/// JSR saves the program counter it found in R7 and jumps to that counter
/// plus the offset.
pub proof fn lemma_jsr_links(offset: u16, s: CpuView, key: Option<u16>)
    requires
        s.wf(),
    ensures
        ({
            let t = (Jsr { offset }).outcome(s, key);
            &&& t.cpu.reg(Register::R7) == s.pc()
            &&& t.cpu.pc() == s.pc().wrapping_add(offset)
            &&& t.effect == Effect::Done
        }),
{
}

/// JSRR saves the program counter it found in R7 and jumps to the value
/// the base register held before, R7 included.
pub proof fn lemma_jsrr_links(base: Register, s: CpuView, key: Option<u16>)
    requires
        s.wf(),
    ensures
        ({
            let t = (Jsrr { base }).outcome(s, key);
            &&& t.cpu.reg(Register::R7) == s.pc()
            &&& t.cpu.pc() == s.reg(base)
            &&& t.effect == Effect::Done
        }),
{
}

/// An ADD with an immediate whose true sum is 2^16 wraps to zero, sets the
/// zero flag and completes.
pub proof fn lemma_addi_wraps(dr: Register, sr1: Register, imm: u16, s: CpuView, key: Option<u16>)
    requires
        s.wf(),
        dr.spec_index() < 8,
        s.reg(sr1) as int + imm as int == 0x10000,
    ensures
        ({
            let t = (Addi { dr, sr1, imm }).outcome(s, key);
            &&& t.cpu.reg(dr) == 0
            &&& t.cpu.reg(Register::Cond) == 0b010
            &&& t.effect == Effect::Done
        }),
{
}

/// An ADD of two registers whose true sum is 2^16 wraps to zero, sets the
/// zero flag and completes.
pub proof fn lemma_addr_wraps(dr: Register, sr1: Register, sr2: Register, s: CpuView, key: Option<u16>)
    requires
        s.wf(),
        dr.spec_index() < 8,
        s.reg(sr1) as int + s.reg(sr2) as int == 0x10000,
    ensures
        ({
            let t = (Addr { dr, sr1, sr2 }).outcome(s, key);
            &&& t.cpu.reg(dr) == 0
            &&& t.cpu.reg(Register::Cond) == 0b010
            &&& t.effect == Effect::Done
        }),
{
}

/// Reading a string touches memory only: the registers and the running
/// flag stay as they were.
pub proof fn lemma_string_keeps_registers(s: CpuView, key: Option<u16>, addr: u16, n: nat, packed: bool)
    ensures
        string_from(s, key, addr, n, packed).1.regs == s.regs,
        string_from(s, key, addr, n, packed).1.running == s.running,
        s.wf() ==> string_from(s, key, addr, n, packed).1.wf(),
    decreases n,
{
    if n > 0 {
        let (w, s1, k1) = s.load(key, addr);
        if w != 0 {
            lemma_string_keeps_registers(s1, k1, addr.wrapping_add(1), (n - 1) as nat, packed);
        }
    }
}

/// Every register field of an instruction word names a general register.
pub proof fn lemma_reg_field_general(raw: u16, shift: u16)
    requires
        shift <= 9,
    ensures
        reg_field(raw, shift).spec_index() < 8,
{
    assert((raw >> shift) & 7 < 8) by (bit_vector);
}

/// Each step keeps the machine well formed and the condition code one-hot.
pub proof fn lemma_step_keeps_cond_one_hot(s: CpuView, key: Option<u16>)
    requires
        s.wf(),
        one_hot(s.reg(Register::Cond)),
    ensures
        step_outcome(s, key).cpu.wf(),
        one_hot(step_outcome(s, key).cpu.reg(Register::Cond)),
{
    if !waits_for_key(s, key) {
        let (raw, s1, k1) = s.load(key, s.pc());
        let s2 = s1.with_reg(Register::PC, s.pc().wrapping_add(1));
        let op = decode_op(raw);
        lemma_reg_field_general(raw, 9);
        lemma_reg_field_general(raw, 6);
        lemma_reg_field_general(raw, 0);
        let t = op.outcome(s2, k1);
        match op {
            Op::Trap(tr) => {
                let s3 = s2.with_reg(Register::R7, s2.pc());
                lemma_string_keeps_registers(s3, k1, s3.reg(Register::R0), SCAN_LIMIT as nat, false);
                lemma_string_keeps_registers(s3, k1, s3.reg(Register::R0), SCAN_LIMIT as nat, true);
                if reads_key(tr.vect) && k1 is Some {
                    lemma_cond_code(k1.unwrap());
                }
            },
            _ => {
                if result_reg(op) is Some {
                    if t.effect == Effect::Done {
                        lemma_result_sets_cond(op, s2, k1);
                    }
                }
            },
        }
    }
}

/// A read of the status register never waits: with no key pending it
/// reports no data and clears the status register; with a key pending it
/// reports data available, and the data register holds the key.
pub proof fn lemma_keyboard_poll(mem: Seq<u16>, key: Option<u16>)
    requires
        mem.len() == 65536,
    ensures
        key is None ==> load(mem, key, KBSR).0 == 0 && load(mem, key, KBSR).1[KBSR as int] == 0,
        key matches Some(c) ==> {
            &&& load(mem, key, KBSR).0 == KEY_READY
            &&& load(mem, key, KBSR).1[KBSR as int] == KEY_READY
            &&& load(mem, key, KBSR).1[KBDR as int] == c
        },
        load(mem, key, KBSR).2 is None,
{
}

/// A packed string never writes a zero byte.
pub proof fn lemma_packed_string_has_no_null(s: CpuView, key: Option<u16>, addr: u16, n: nat)
    ensures
        forall|i: int|
            0 <= i < string_from(s, key, addr, n, true).0.len() ==> #[trigger] string_from(
                s,
                key,
                addr,
                n,
                true,
            ).0[i] != 0,
    decreases n,
{
    if n > 0 {
        let (w, s1, k1) = s.load(key, addr);
        if w != 0 {
            lemma_packed_string_has_no_null(s1, k1, addr.wrapping_add(1), (n - 1) as nat);
            let head = word_bytes(w, true);
            let rest = string_from(s1, k1, addr.wrapping_add(1), (n - 1) as nat, true).0;
            assert(forall|i: int| 0 <= i < head.len() ==> head[i] != 0);
            assert forall|i: int| 0 <= i < (head + rest).len() implies (head + rest)[i] != 0 by {
                if i >= head.len() {
                    assert((head + rest)[i] == rest[i - head.len()]);
                }
            }
        }
    }
}

} // verus!
