use vstd::prelude::*;

use crate::cpu::{Cpu, CpuView, Effect, StepView};
use crate::opcode::OpCode;
use arith::{Addi, Addr, Andi, Andr, Not};
use control::{Br, Jmp, Jsr, Jsrr};
use load::{Ld, Ldi, Ldr, Lea};
use reserved::{Res, Rti};
use store::{St, Sti, Str};
use trap::Trap;

pub mod arith;
pub mod control;
pub mod load;
pub mod reserved;
pub mod store;
pub mod trap;

verus! {

/// One decoded instruction, executable against the machine.
pub trait Instruction {
    /// The instruction's kind.
    spec fn kind(&self) -> OpCode;

    /// What executing the instruction on state `s`, with `key` pending,
    /// leaves behind.
    spec fn outcome(&self, s: CpuView, key: Option<u16>) -> StepView;

    /// The instruction's kind.
    fn opcode(&self) -> (r: OpCode)
        ensures
            r == self.kind(),
    ;

    /// Executes the instruction, appending what it writes to the console
    /// to `out`.
    fn execute(&self, cpu: &mut Cpu, key: &mut Option<u16>, out: &mut Vec<u8>) -> (e: Effect)
        requires
            old(cpu).wf(),
        ensures
            final(cpu).wf(),
            final(cpu)@ == self.outcome(old(cpu)@, *old(key)).cpu,
            *final(key) == self.outcome(old(cpu)@, *old(key)).key,
            final(out)@ == old(out)@ + self.outcome(old(cpu)@, *old(key)).out,
            e == self.outcome(old(cpu)@, *old(key)).effect,
    ;
}

/// A decoded instruction, one variant per kind.
#[derive(Clone, Copy, Debug, PartialEq, Eq, Structural)]
pub enum Op {
    Addr(Addr),
    Addi(Addi),
    Andr(Andr),
    Andi(Andi),
    Br(Br),
    Jmp(Jmp),
    Jsr(Jsr),
    Jsrr(Jsrr),
    Ld(Ld),
    Ldi(Ldi),
    Ldr(Ldr),
    Lea(Lea),
    Not(Not),
    Res(Res),
    Rti(Rti),
    St(St),
    Sti(Sti),
    Str(Str),
    Trap(Trap),
}

impl Instruction for Op {
    open spec fn kind(&self) -> OpCode {
        match *self {
            Op::Addr(i) => i.kind(),
            Op::Addi(i) => i.kind(),
            Op::Andr(i) => i.kind(),
            Op::Andi(i) => i.kind(),
            Op::Br(i) => i.kind(),
            Op::Jmp(i) => i.kind(),
            Op::Jsr(i) => i.kind(),
            Op::Jsrr(i) => i.kind(),
            Op::Ld(i) => i.kind(),
            Op::Ldi(i) => i.kind(),
            Op::Ldr(i) => i.kind(),
            Op::Lea(i) => i.kind(),
            Op::Not(i) => i.kind(),
            Op::Res(i) => i.kind(),
            Op::Rti(i) => i.kind(),
            Op::St(i) => i.kind(),
            Op::Sti(i) => i.kind(),
            Op::Str(i) => i.kind(),
            Op::Trap(i) => i.kind(),
        }
    }

    open spec fn outcome(&self, s: CpuView, key: Option<u16>) -> StepView {
        match *self {
            Op::Addr(i) => i.outcome(s, key),
            Op::Addi(i) => i.outcome(s, key),
            Op::Andr(i) => i.outcome(s, key),
            Op::Andi(i) => i.outcome(s, key),
            Op::Br(i) => i.outcome(s, key),
            Op::Jmp(i) => i.outcome(s, key),
            Op::Jsr(i) => i.outcome(s, key),
            Op::Jsrr(i) => i.outcome(s, key),
            Op::Ld(i) => i.outcome(s, key),
            Op::Ldi(i) => i.outcome(s, key),
            Op::Ldr(i) => i.outcome(s, key),
            Op::Lea(i) => i.outcome(s, key),
            Op::Not(i) => i.outcome(s, key),
            Op::Res(i) => i.outcome(s, key),
            Op::Rti(i) => i.outcome(s, key),
            Op::St(i) => i.outcome(s, key),
            Op::Sti(i) => i.outcome(s, key),
            Op::Str(i) => i.outcome(s, key),
            Op::Trap(i) => i.outcome(s, key),
        }
    }

    fn opcode(&self) -> (r: OpCode) {
        match *self {
            Op::Addr(i) => i.opcode(),
            Op::Addi(i) => i.opcode(),
            Op::Andr(i) => i.opcode(),
            Op::Andi(i) => i.opcode(),
            Op::Br(i) => i.opcode(),
            Op::Jmp(i) => i.opcode(),
            Op::Jsr(i) => i.opcode(),
            Op::Jsrr(i) => i.opcode(),
            Op::Ld(i) => i.opcode(),
            Op::Ldi(i) => i.opcode(),
            Op::Ldr(i) => i.opcode(),
            Op::Lea(i) => i.opcode(),
            Op::Not(i) => i.opcode(),
            Op::Res(i) => i.opcode(),
            Op::Rti(i) => i.opcode(),
            Op::St(i) => i.opcode(),
            Op::Sti(i) => i.opcode(),
            Op::Str(i) => i.opcode(),
            Op::Trap(i) => i.opcode(),
        }
    }

    fn execute(&self, cpu: &mut Cpu, key: &mut Option<u16>, out: &mut Vec<u8>) -> (e: Effect) {
        match *self {
            Op::Addr(i) => i.execute(cpu, key, out),
            Op::Addi(i) => i.execute(cpu, key, out),
            Op::Andr(i) => i.execute(cpu, key, out),
            Op::Andi(i) => i.execute(cpu, key, out),
            Op::Br(i) => i.execute(cpu, key, out),
            Op::Jmp(i) => i.execute(cpu, key, out),
            Op::Jsr(i) => i.execute(cpu, key, out),
            Op::Jsrr(i) => i.execute(cpu, key, out),
            Op::Ld(i) => i.execute(cpu, key, out),
            Op::Ldi(i) => i.execute(cpu, key, out),
            Op::Ldr(i) => i.execute(cpu, key, out),
            Op::Lea(i) => i.execute(cpu, key, out),
            Op::Not(i) => i.execute(cpu, key, out),
            Op::Res(i) => i.execute(cpu, key, out),
            Op::Rti(i) => i.execute(cpu, key, out),
            Op::St(i) => i.execute(cpu, key, out),
            Op::Sti(i) => i.execute(cpu, key, out),
            Op::Str(i) => i.execute(cpu, key, out),
            Op::Trap(i) => i.execute(cpu, key, out),
        }
    }
}

} // verus!
