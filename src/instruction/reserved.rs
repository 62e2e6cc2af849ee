use vstd::prelude::*;

use crate::cpu::{Cpu, CpuView, Effect, StepView};
use crate::instruction::Instruction;
use crate::opcode::OpCode;

verus! {

/// The reserved opcode. This machine gives it no meaning: executing it
/// changes nothing and reports the kind as illegal.
#[derive(Clone, Copy, Debug, PartialEq, Eq, Structural)]
pub struct Res;

impl Res {
    pub fn new() -> (r: Self) {
        Res
    }
}

impl Instruction for Res {
    open spec fn kind(&self) -> OpCode {
        OpCode::RES
    }

    open spec fn outcome(&self, s: CpuView, key: Option<u16>) -> StepView {
        StepView { cpu: s, key, out: seq![], effect: Effect::Illegal(OpCode::RES) }
    }

    fn opcode(&self) -> (r: OpCode) {
        OpCode::RES
    }

    fn execute(&self, cpu: &mut Cpu, key: &mut Option<u16>, out: &mut Vec<u8>) -> (e: Effect) {
        assert(out@ =~= out@ + seq![]);
        Effect::Illegal(OpCode::RES)
    }
}

/// Return from interrupt. This machine has no interrupts: executing it
/// changes nothing and reports the kind as illegal.
#[derive(Clone, Copy, Debug, PartialEq, Eq, Structural)]
pub struct Rti;

impl Rti {
    pub fn new() -> (r: Self) {
        Rti
    }
}

impl Instruction for Rti {
    open spec fn kind(&self) -> OpCode {
        OpCode::RTI
    }

    open spec fn outcome(&self, s: CpuView, key: Option<u16>) -> StepView {
        StepView { cpu: s, key, out: seq![], effect: Effect::Illegal(OpCode::RTI) }
    }

    fn opcode(&self) -> (r: OpCode) {
        OpCode::RTI
    }

    fn execute(&self, cpu: &mut Cpu, key: &mut Option<u16>, out: &mut Vec<u8>) -> (e: Effect) {
        assert(out@ =~= out@ + seq![]);
        Effect::Illegal(OpCode::RTI)
    }
}

} // verus!
