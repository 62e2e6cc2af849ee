use vstd::prelude::*;

use crate::cpu::{done, Cpu, CpuView, Effect, StepView};
use crate::instruction::Instruction;
use crate::opcode::OpCode;
use crate::register::Register;

verus! {

/// LD: loads the word at `PC + offset` into `dr`.
#[derive(Clone, Copy, Debug, PartialEq, Eq, Structural)]
pub struct Ld {
    pub dr: Register,
    pub offset: u16,
}

impl Ld {
    pub fn new(dr: Register, offset: u16) -> (r: Self)
        ensures
            r == (Ld { dr, offset }),
    {
        Ld { dr, offset }
    }
}

impl Instruction for Ld {
    open spec fn kind(&self) -> OpCode {
        OpCode::LD
    }

    open spec fn outcome(&self, s: CpuView, key: Option<u16>) -> StepView {
        let (v, s1, k1) = s.load(key, s.pc().wrapping_add(self.offset));
        done(s1.with_result(self.dr, v), k1)
    }

    fn opcode(&self) -> (r: OpCode) {
        OpCode::LD
    }

    fn execute(&self, cpu: &mut Cpu, key: &mut Option<u16>, out: &mut Vec<u8>) -> (e: Effect) {
        let addr = cpu.read(Register::PC).wrapping_add(self.offset);
        let data = cpu.mem_read(addr, key);
        cpu.set_result(self.dr, data);
        assert(out@ =~= out@ + seq![]);
        Effect::Done
    }
}

/// LDI: reads a pointer at `PC + offset`, then loads the word it points to
/// into `dr`.
#[derive(Clone, Copy, Debug, PartialEq, Eq, Structural)]
pub struct Ldi {
    pub dr: Register,
    pub offset: u16,
}

impl Ldi {
    pub fn new(dr: Register, offset: u16) -> (r: Self)
        ensures
            r == (Ldi { dr, offset }),
    {
        Ldi { dr, offset }
    }
}

impl Instruction for Ldi {
    open spec fn kind(&self) -> OpCode {
        OpCode::LDI
    }

    open spec fn outcome(&self, s: CpuView, key: Option<u16>) -> StepView {
        let (ptr, s1, k1) = s.load(key, s.pc().wrapping_add(self.offset));
        let (v, s2, k2) = s1.load(k1, ptr);
        done(s2.with_result(self.dr, v), k2)
    }

    fn opcode(&self) -> (r: OpCode) {
        OpCode::LDI
    }

    fn execute(&self, cpu: &mut Cpu, key: &mut Option<u16>, out: &mut Vec<u8>) -> (e: Effect) {
        let addr = cpu.read(Register::PC).wrapping_add(self.offset);
        let target = cpu.mem_read(addr, key);
        let data = cpu.mem_read(target, key);
        cpu.set_result(self.dr, data);
        assert(out@ =~= out@ + seq![]);
        Effect::Done
    }
}

/// LDR: loads the word at `base + offset` into `dr`.
#[derive(Clone, Copy, Debug, PartialEq, Eq, Structural)]
pub struct Ldr {
    pub dr: Register,
    pub base: Register,
    pub offset: u16,
}

impl Ldr {
    pub fn new(dr: Register, base: Register, offset: u16) -> (r: Self)
        ensures
            r == (Ldr { dr, base, offset }),
    {
        Ldr { dr, base, offset }
    }
}

impl Instruction for Ldr {
    open spec fn kind(&self) -> OpCode {
        OpCode::LDR
    }

    open spec fn outcome(&self, s: CpuView, key: Option<u16>) -> StepView {
        let (v, s1, k1) = s.load(key, s.reg(self.base).wrapping_add(self.offset));
        done(s1.with_result(self.dr, v), k1)
    }

    fn opcode(&self) -> (r: OpCode) {
        OpCode::LDR
    }

    fn execute(&self, cpu: &mut Cpu, key: &mut Option<u16>, out: &mut Vec<u8>) -> (e: Effect) {
        let addr = cpu.read(self.base).wrapping_add(self.offset);
        let data = cpu.mem_read(addr, key);
        cpu.set_result(self.dr, data);
        assert(out@ =~= out@ + seq![]);
        Effect::Done
    }
}

/// LEA: writes the address `PC + offset` itself into `dr`.
#[derive(Clone, Copy, Debug, PartialEq, Eq, Structural)]
pub struct Lea {
    pub dr: Register,
    pub offset: u16,
}

impl Lea {
    pub fn new(dr: Register, offset: u16) -> (r: Self)
        ensures
            r == (Lea { dr, offset }),
    {
        Lea { dr, offset }
    }
}

impl Instruction for Lea {
    open spec fn kind(&self) -> OpCode {
        OpCode::LEA
    }

    open spec fn outcome(&self, s: CpuView, key: Option<u16>) -> StepView {
        done(s.with_result(self.dr, s.pc().wrapping_add(self.offset)), key)
    }

    fn opcode(&self) -> (r: OpCode) {
        OpCode::LEA
    }

    fn execute(&self, cpu: &mut Cpu, key: &mut Option<u16>, out: &mut Vec<u8>) -> (e: Effect) {
        let result = cpu.read(Register::PC).wrapping_add(self.offset);
        cpu.set_result(self.dr, result);
        assert(out@ =~= out@ + seq![]);
        Effect::Done
    }
}

} // verus!
