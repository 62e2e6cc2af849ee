use vstd::prelude::*;

use crate::cpu::{done, Cpu, CpuView, Effect, StepView};
use crate::instruction::Instruction;
use crate::opcode::OpCode;
use crate::register::Register;

verus! {

/// Whether a branch asking for flags `n`, `z`, `p` is taken under
/// condition code `cond`.
pub open spec fn branch_taken(n: bool, z: bool, p: bool, cond: u16) -> bool {
    (n && cond == 0b100) || (z && cond == 0b010) || (p && cond == 0b001)
}

/// BR: adds `offset` to the program counter when the condition code shows
/// one of the requested flags.
#[derive(Clone, Copy, Debug, PartialEq, Eq, Structural)]
pub struct Br {
    pub n: bool,
    pub z: bool,
    pub p: bool,
    pub offset: u16,
}

impl Br {
    pub fn new(n: bool, z: bool, p: bool, offset: u16) -> (r: Self)
        ensures
            r == (Br { n, z, p, offset }),
    {
        Br { n, z, p, offset }
    }
}

impl Instruction for Br {
    open spec fn kind(&self) -> OpCode {
        OpCode::BR
    }

    open spec fn outcome(&self, s: CpuView, key: Option<u16>) -> StepView {
        if branch_taken(self.n, self.z, self.p, s.reg(Register::Cond)) {
            done(s.with_reg(Register::PC, s.pc().wrapping_add(self.offset)), key)
        } else {
            done(s, key)
        }
    }

    fn opcode(&self) -> (r: OpCode) {
        OpCode::BR
    }

    fn execute(&self, cpu: &mut Cpu, key: &mut Option<u16>, out: &mut Vec<u8>) -> (e: Effect) {
        let cond = cpu.read(Register::Cond);
        if (self.n && cond == 0b100) || (self.z && cond == 0b010) || (self.p && cond == 0b001) {
            let target = cpu.read(Register::PC).wrapping_add(self.offset);
            cpu.write(Register::PC, target);
        }
        assert(out@ =~= out@ + seq![]);
        Effect::Done
    }
}

/// JMP: sets the program counter to the base register's value.
#[derive(Clone, Copy, Debug, PartialEq, Eq, Structural)]
pub struct Jmp {
    pub base: Register,
}

impl Jmp {
    pub fn new(base: Register) -> (r: Self)
        ensures
            r == (Jmp { base }),
    {
        Jmp { base }
    }
}

impl Instruction for Jmp {
    open spec fn kind(&self) -> OpCode {
        OpCode::JMP
    }

    open spec fn outcome(&self, s: CpuView, key: Option<u16>) -> StepView {
        done(s.with_reg(Register::PC, s.reg(self.base)), key)
    }

    fn opcode(&self) -> (r: OpCode) {
        OpCode::JMP
    }

    fn execute(&self, cpu: &mut Cpu, key: &mut Option<u16>, out: &mut Vec<u8>) -> (e: Effect) {
        let target = cpu.read(self.base);
        cpu.write(Register::PC, target);
        assert(out@ =~= out@ + seq![]);
        Effect::Done
    }
}

/// JSR: saves the program counter in R7, then adds `offset` to it.
#[derive(Clone, Copy, Debug, PartialEq, Eq, Structural)]
pub struct Jsr {
    pub offset: u16,
}

impl Jsr {
    pub fn new(offset: u16) -> (r: Self)
        ensures
            r == (Jsr { offset }),
    {
        Jsr { offset }
    }
}

impl Instruction for Jsr {
    open spec fn kind(&self) -> OpCode {
        OpCode::JSR
    }

    open spec fn outcome(&self, s: CpuView, key: Option<u16>) -> StepView {
        done(
            s.with_reg(Register::R7, s.pc()).with_reg(Register::PC, s.pc().wrapping_add(self.offset)),
            key,
        )
    }

    fn opcode(&self) -> (r: OpCode) {
        OpCode::JSR
    }

    fn execute(&self, cpu: &mut Cpu, key: &mut Option<u16>, out: &mut Vec<u8>) -> (e: Effect) {
        let pc = cpu.read(Register::PC);
        cpu.write(Register::R7, pc);
        cpu.write(Register::PC, pc.wrapping_add(self.offset));
        assert(out@ =~= out@ + seq![]);
        Effect::Done
    }
}

/// JSRR: saves the program counter in R7, then jumps to the value the base
/// register held before.
#[derive(Clone, Copy, Debug, PartialEq, Eq, Structural)]
pub struct Jsrr {
    pub base: Register,
}

impl Jsrr {
    pub fn new(base: Register) -> (r: Self)
        ensures
            r == (Jsrr { base }),
    {
        Jsrr { base }
    }
}

impl Instruction for Jsrr {
    open spec fn kind(&self) -> OpCode {
        OpCode::JSRR
    }

    open spec fn outcome(&self, s: CpuView, key: Option<u16>) -> StepView {
        done(s.with_reg(Register::R7, s.pc()).with_reg(Register::PC, s.reg(self.base)), key)
    }

    fn opcode(&self) -> (r: OpCode) {
        OpCode::JSRR
    }

    fn execute(&self, cpu: &mut Cpu, key: &mut Option<u16>, out: &mut Vec<u8>) -> (e: Effect) {
        let target = cpu.read(self.base);
        let pc = cpu.read(Register::PC);
        cpu.write(Register::R7, pc);
        cpu.write(Register::PC, target);
        assert(out@ =~= out@ + seq![]);
        Effect::Done
    }
}

} // verus!
