use vstd::prelude::*;

use crate::cpu::{done, Cpu, CpuView, Effect, StepView};
use crate::instruction::Instruction;
use crate::opcode::OpCode;
use crate::register::Register;

verus! {

/// ST: stores `sr` at `PC + offset`.
#[derive(Clone, Copy, Debug, PartialEq, Eq, Structural)]
pub struct St {
    pub sr: Register,
    pub offset: u16,
}

impl St {
    pub fn new(sr: Register, offset: u16) -> (r: Self)
        ensures
            r == (St { sr, offset }),
    {
        St { sr, offset }
    }
}

impl Instruction for St {
    open spec fn kind(&self) -> OpCode {
        OpCode::ST
    }

    open spec fn outcome(&self, s: CpuView, key: Option<u16>) -> StepView {
        done(s.store(s.pc().wrapping_add(self.offset), s.reg(self.sr)), key)
    }

    fn opcode(&self) -> (r: OpCode) {
        OpCode::ST
    }

    fn execute(&self, cpu: &mut Cpu, key: &mut Option<u16>, out: &mut Vec<u8>) -> (e: Effect) {
        let addr = cpu.read(Register::PC).wrapping_add(self.offset);
        let data = cpu.read(self.sr);
        cpu.mem_write(addr, data);
        assert(out@ =~= out@ + seq![]);
        Effect::Done
    }
}

/// STI: reads a pointer at `PC + offset`, then stores `sr` where it points.
#[derive(Clone, Copy, Debug, PartialEq, Eq, Structural)]
pub struct Sti {
    pub sr: Register,
    pub offset: u16,
}

impl Sti {
    pub fn new(sr: Register, offset: u16) -> (r: Self)
        ensures
            r == (Sti { sr, offset }),
    {
        Sti { sr, offset }
    }
}

impl Instruction for Sti {
    open spec fn kind(&self) -> OpCode {
        OpCode::STI
    }

    open spec fn outcome(&self, s: CpuView, key: Option<u16>) -> StepView {
        let (ptr, s1, k1) = s.load(key, s.pc().wrapping_add(self.offset));
        done(s1.store(ptr, s1.reg(self.sr)), k1)
    }

    fn opcode(&self) -> (r: OpCode) {
        OpCode::STI
    }

    fn execute(&self, cpu: &mut Cpu, key: &mut Option<u16>, out: &mut Vec<u8>) -> (e: Effect) {
        let addr = cpu.read(Register::PC).wrapping_add(self.offset);
        let target = cpu.mem_read(addr, key);
        let data = cpu.read(self.sr);
        cpu.mem_write(target, data);
        assert(out@ =~= out@ + seq![]);
        Effect::Done
    }
}

/// STR: stores `sr` at `base + offset`.
#[derive(Clone, Copy, Debug, PartialEq, Eq, Structural)]
pub struct Str {
    pub sr: Register,
    pub base: Register,
    pub offset: u16,
}

impl Str {
    pub fn new(sr: Register, base: Register, offset: u16) -> (r: Self)
        ensures
            r == (Str { sr, base, offset }),
    {
        Str { sr, base, offset }
    }
}

impl Instruction for Str {
    open spec fn kind(&self) -> OpCode {
        OpCode::STR
    }

    open spec fn outcome(&self, s: CpuView, key: Option<u16>) -> StepView {
        done(s.store(s.reg(self.base).wrapping_add(self.offset), s.reg(self.sr)), key)
    }

    fn opcode(&self) -> (r: OpCode) {
        OpCode::STR
    }

    fn execute(&self, cpu: &mut Cpu, key: &mut Option<u16>, out: &mut Vec<u8>) -> (e: Effect) {
        let addr = cpu.read(self.base).wrapping_add(self.offset);
        let data = cpu.read(self.sr);
        cpu.mem_write(addr, data);
        assert(out@ =~= out@ + seq![]);
        Effect::Done
    }
}

} // verus!
