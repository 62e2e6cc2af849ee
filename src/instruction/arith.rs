use vstd::prelude::*;

use crate::cpu::{done, Cpu, CpuView, Effect, StepView};
use crate::instruction::Instruction;
use crate::opcode::OpCode;
use crate::register::Register;

verus! {

/// ADD with a register operand: `dr = sr1 + sr2`, wrapping.
#[derive(Clone, Copy, Debug, PartialEq, Eq, Structural)]
pub struct Addr {
    pub dr: Register,
    pub sr1: Register,
    pub sr2: Register,
}

impl Addr {
    pub fn new(dr: Register, sr1: Register, sr2: Register) -> (r: Self)
        ensures
            r == (Addr { dr, sr1, sr2 }),
    {
        Addr { dr, sr1, sr2 }
    }
}

impl Instruction for Addr {
    open spec fn kind(&self) -> OpCode {
        OpCode::ADDR
    }

    open spec fn outcome(&self, s: CpuView, key: Option<u16>) -> StepView {
        done(s.with_result(self.dr, s.reg(self.sr1).wrapping_add(s.reg(self.sr2))), key)
    }

    fn opcode(&self) -> (r: OpCode) {
        OpCode::ADDR
    }

    fn execute(&self, cpu: &mut Cpu, key: &mut Option<u16>, out: &mut Vec<u8>) -> (e: Effect) {
        let result = cpu.read(self.sr1).wrapping_add(cpu.read(self.sr2));
        cpu.set_result(self.dr, result);
        assert(out@ =~= out@ + seq![]);
        Effect::Done
    }
}


/// ADD with an immediate operand: `dr = sr1 + imm`, wrapping; `imm` is
/// already sign-extended.
#[derive(Clone, Copy, Debug, PartialEq, Eq, Structural)]
pub struct Addi {
    pub dr: Register,
    pub sr1: Register,
    pub imm: u16,
}

impl Addi {
    pub fn new(dr: Register, sr1: Register, imm: u16) -> (r: Self)
        ensures
            r == (Addi { dr, sr1, imm }),
    {
        Addi { dr, sr1, imm }
    }
}

impl Instruction for Addi {
    open spec fn kind(&self) -> OpCode {
        OpCode::ADDI
    }

    open spec fn outcome(&self, s: CpuView, key: Option<u16>) -> StepView {
        done(s.with_result(self.dr, s.reg(self.sr1).wrapping_add(self.imm)), key)
    }

    fn opcode(&self) -> (r: OpCode) {
        OpCode::ADDI
    }

    fn execute(&self, cpu: &mut Cpu, key: &mut Option<u16>, out: &mut Vec<u8>) -> (e: Effect) {
        let result = cpu.read(self.sr1).wrapping_add(self.imm);
        cpu.set_result(self.dr, result);
        assert(out@ =~= out@ + seq![]);
        Effect::Done
    }
}

/// AND with a register operand: `dr = sr1 & sr2`.
#[derive(Clone, Copy, Debug, PartialEq, Eq, Structural)]
pub struct Andr {
    pub dr: Register,
    pub sr1: Register,
    pub sr2: Register,
}

impl Andr {
    pub fn new(dr: Register, sr1: Register, sr2: Register) -> (r: Self)
        ensures
            r == (Andr { dr, sr1, sr2 }),
    {
        Andr { dr, sr1, sr2 }
    }
}

impl Instruction for Andr {
    open spec fn kind(&self) -> OpCode {
        OpCode::ANDR
    }

    open spec fn outcome(&self, s: CpuView, key: Option<u16>) -> StepView {
        done(s.with_result(self.dr, s.reg(self.sr1) & s.reg(self.sr2)), key)
    }

    fn opcode(&self) -> (r: OpCode) {
        OpCode::ANDR
    }

    fn execute(&self, cpu: &mut Cpu, key: &mut Option<u16>, out: &mut Vec<u8>) -> (e: Effect) {
        let result = cpu.read(self.sr1) & cpu.read(self.sr2);
        cpu.set_result(self.dr, result);
        assert(out@ =~= out@ + seq![]);
        Effect::Done
    }
}

/// AND with an immediate operand: `dr = sr1 & imm`; `imm` is already
/// sign-extended.
#[derive(Clone, Copy, Debug, PartialEq, Eq, Structural)]
pub struct Andi {
    pub dr: Register,
    pub sr1: Register,
    pub imm: u16,
}

impl Andi {
    pub fn new(dr: Register, sr1: Register, imm: u16) -> (r: Self)
        ensures
            r == (Andi { dr, sr1, imm }),
    {
        Andi { dr, sr1, imm }
    }
}

impl Instruction for Andi {
    open spec fn kind(&self) -> OpCode {
        OpCode::ANDI
    }

    open spec fn outcome(&self, s: CpuView, key: Option<u16>) -> StepView {
        done(s.with_result(self.dr, s.reg(self.sr1) & self.imm), key)
    }

    fn opcode(&self) -> (r: OpCode) {
        OpCode::ANDI
    }

    fn execute(&self, cpu: &mut Cpu, key: &mut Option<u16>, out: &mut Vec<u8>) -> (e: Effect) {
        let result = cpu.read(self.sr1) & self.imm;
        cpu.set_result(self.dr, result);
        assert(out@ =~= out@ + seq![]);
        Effect::Done
    }
}

/// NOT: `dr` = bitwise complement of `sr`.
#[derive(Clone, Copy, Debug, PartialEq, Eq, Structural)]
pub struct Not {
    pub dr: Register,
    pub sr: Register,
}

impl Not {
    pub fn new(dr: Register, sr: Register) -> (r: Self)
        ensures
            r == (Not { dr, sr }),
    {
        Not { dr, sr }
    }
}

impl Instruction for Not {
    open spec fn kind(&self) -> OpCode {
        OpCode::NOT
    }

    open spec fn outcome(&self, s: CpuView, key: Option<u16>) -> StepView {
        done(s.with_result(self.dr, !s.reg(self.sr)), key)
    }

    fn opcode(&self) -> (r: OpCode) {
        OpCode::NOT
    }

    fn execute(&self, cpu: &mut Cpu, key: &mut Option<u16>, out: &mut Vec<u8>) -> (e: Effect) {
        let result = !cpu.read(self.sr);
        cpu.set_result(self.dr, result);
        assert(out@ =~= out@ + seq![]);
        Effect::Done
    }
}

} // verus!
