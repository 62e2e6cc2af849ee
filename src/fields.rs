use vstd::prelude::*;

use crate::instruction::Op;
use crate::opcode::OpCode;
use crate::register::Register;

verus! {

/// The flat form of a decoded instruction: its kind and its operands in
/// fixed slots. `regs` holds up to three registers in the order the
/// encoding lists them (destination or source first, then the others),
/// `imm` the immediate or offset, `imm_flag` whether the second operand
/// of ADD or AND is immediate, and `nzp` the flags a branch tests.
pub struct Instruction {
    opcode: OpCode,
    imm_flag: Option<bool>,
    regs: [Option<Register>; 3],
    imm: Option<u16>,
    nzp: [Option<bool>; 3],
}

/// The slots of an instruction's flat form.
pub struct Slots {
    pub opcode: OpCode,
    pub imm_flag: Option<bool>,
    pub regs: Seq<Option<Register>>,
    pub imm: Option<u16>,
    pub nzp: Seq<Option<bool>>,
}

impl View for Instruction {
    type V = Slots;

    closed spec fn view(&self) -> Slots {
        Slots {
            opcode: self.opcode,
            imm_flag: self.imm_flag,
            regs: self.regs@,
            imm: self.imm,
            nzp: self.nzp@,
        }
    }
}

/// Slots with the given kind, immediate flag, registers and immediate, and
/// no branch flags.
pub open spec fn slots(
    opcode: OpCode,
    imm_flag: Option<bool>,
    regs: Seq<Option<Register>>,
    imm: Option<u16>,
) -> Slots {
    Slots { opcode, imm_flag, regs, imm, nzp: seq![None, None, None] }
}

/// The flat form of a decoded instruction.
pub open spec fn slots_of(op: Op) -> Slots {
    match op {
        Op::Addr(i) => slots(
            OpCode::ADDR,
            Some(false),
            seq![Some(i.dr), Some(i.sr1), Some(i.sr2)],
            None,
        ),
        Op::Addi(i) => slots(
            OpCode::ADDI,
            Some(true),
            seq![Some(i.dr), Some(i.sr1), None],
            Some(i.imm),
        ),
        Op::Andr(i) => slots(
            OpCode::ANDR,
            Some(false),
            seq![Some(i.dr), Some(i.sr1), Some(i.sr2)],
            None,
        ),
        Op::Andi(i) => slots(
            OpCode::ANDI,
            Some(true),
            seq![Some(i.dr), Some(i.sr1), None],
            Some(i.imm),
        ),
        Op::Br(i) => Slots {
            opcode: OpCode::BR,
            imm_flag: None,
            regs: seq![None, None, None],
            imm: Some(i.offset),
            nzp: seq![Some(i.n), Some(i.z), Some(i.p)],
        },
        Op::Jmp(i) => slots(OpCode::JMP, None, seq![Some(i.base), None, None], None),
        Op::Jsr(i) => slots(OpCode::JSR, None, seq![None, None, None], Some(i.offset)),
        Op::Jsrr(i) => slots(OpCode::JSRR, None, seq![Some(i.base), None, None], None),
        Op::Ld(i) => slots(OpCode::LD, None, seq![Some(i.dr), None, None], Some(i.offset)),
        Op::Ldi(i) => slots(OpCode::LDI, None, seq![Some(i.dr), None, None], Some(i.offset)),
        Op::Ldr(i) => slots(
            OpCode::LDR,
            None,
            seq![Some(i.dr), Some(i.base), None],
            Some(i.offset),
        ),
        Op::Lea(i) => slots(OpCode::LEA, None, seq![Some(i.dr), None, None], Some(i.offset)),
        Op::Not(i) => slots(OpCode::NOT, None, seq![Some(i.dr), Some(i.sr), None], None),
        Op::Res(_) => slots(OpCode::RES, None, seq![None, None, None], None),
        Op::Rti(_) => slots(OpCode::RTI, None, seq![None, None, None], None),
        Op::St(i) => slots(OpCode::ST, None, seq![Some(i.sr), None, None], Some(i.offset)),
        Op::Sti(i) => slots(OpCode::STI, None, seq![Some(i.sr), None, None], Some(i.offset)),
        Op::Str(i) => slots(
            OpCode::STR,
            None,
            seq![Some(i.sr), Some(i.base), None],
            Some(i.offset),
        ),
        Op::Trap(i) => slots(OpCode::TRAP, None, seq![None, None, None], Some(i.vect)),
    }
}

impl Instruction {
    pub fn new(
        opcode: OpCode,
        imm_flag: Option<bool>,
        regs: [Option<Register>; 3],
        imm: Option<u16>,
        nzp: [Option<bool>; 3],
    ) -> (r: Self)
        ensures
            r@ == (Slots { opcode, imm_flag, regs: regs@, imm, nzp: nzp@ }),
    {
        Instruction { opcode, imm_flag, regs, imm, nzp }
    }

    pub fn opcode(&self) -> (r: OpCode)
        ensures
            r == self@.opcode,
    {
        self.opcode
    }

    pub fn imm_flag(&self) -> (r: Option<bool>)
        ensures
            r == self@.imm_flag,
    {
        self.imm_flag
    }

    pub fn regs(&self) -> (r: [Option<Register>; 3])
        ensures
            r@ == self@.regs,
    {
        self.regs
    }

    pub fn imm(&self) -> (r: Option<u16>)
        ensures
            r == self@.imm,
    {
        self.imm
    }

    pub fn nzp(&self) -> (r: [Option<bool>; 3])
        ensures
            r@ == self@.nzp,
    {
        self.nzp
    }
}

impl Op {
    /// The instruction's flat form.
    pub fn fields(&self) -> (r: Instruction)
        ensures
            r@ == slots_of(*self),
    {
        let none3: [Option<Register>; 3] = [None, None, None];
        let nzp: [Option<bool>; 3] = [None, None, None];
        let r = match *self {
            Op::Addr(i) => Instruction::new(
                OpCode::ADDR,
                Some(false),
                [Some(i.dr), Some(i.sr1), Some(i.sr2)],
                None,
                nzp,
            ),
            Op::Addi(i) => Instruction::new(
                OpCode::ADDI,
                Some(true),
                [Some(i.dr), Some(i.sr1), None],
                Some(i.imm),
                nzp,
            ),
            Op::Andr(i) => Instruction::new(
                OpCode::ANDR,
                Some(false),
                [Some(i.dr), Some(i.sr1), Some(i.sr2)],
                None,
                nzp,
            ),
            Op::Andi(i) => Instruction::new(
                OpCode::ANDI,
                Some(true),
                [Some(i.dr), Some(i.sr1), None],
                Some(i.imm),
                nzp,
            ),
            Op::Br(i) => Instruction::new(
                OpCode::BR,
                None,
                none3,
                Some(i.offset),
                [Some(i.n), Some(i.z), Some(i.p)],
            ),
            Op::Jmp(i) => Instruction::new(
                OpCode::JMP,
                None,
                [Some(i.base), None, None],
                None,
                nzp,
            ),
            Op::Jsr(i) => Instruction::new(OpCode::JSR, None, none3, Some(i.offset), nzp),
            Op::Jsrr(i) => Instruction::new(
                OpCode::JSRR,
                None,
                [Some(i.base), None, None],
                None,
                nzp,
            ),
            Op::Ld(i) => Instruction::new(
                OpCode::LD,
                None,
                [Some(i.dr), None, None],
                Some(i.offset),
                nzp,
            ),
            Op::Ldi(i) => Instruction::new(
                OpCode::LDI,
                None,
                [Some(i.dr), None, None],
                Some(i.offset),
                nzp,
            ),
            Op::Ldr(i) => Instruction::new(
                OpCode::LDR,
                None,
                [Some(i.dr), Some(i.base), None],
                Some(i.offset),
                nzp,
            ),
            Op::Lea(i) => Instruction::new(
                OpCode::LEA,
                None,
                [Some(i.dr), None, None],
                Some(i.offset),
                nzp,
            ),
            Op::Not(i) => Instruction::new(
                OpCode::NOT,
                None,
                [Some(i.dr), Some(i.sr), None],
                None,
                nzp,
            ),
            Op::Res(_) => Instruction::new(OpCode::RES, None, none3, None, nzp),
            Op::Rti(_) => Instruction::new(OpCode::RTI, None, none3, None, nzp),
            Op::St(i) => Instruction::new(
                OpCode::ST,
                None,
                [Some(i.sr), None, None],
                Some(i.offset),
                nzp,
            ),
            Op::Sti(i) => Instruction::new(
                OpCode::STI,
                None,
                [Some(i.sr), None, None],
                Some(i.offset),
                nzp,
            ),
            Op::Str(i) => Instruction::new(
                OpCode::STR,
                None,
                [Some(i.sr), Some(i.base), None],
                Some(i.offset),
                nzp,
            ),
            Op::Trap(i) => Instruction::new(OpCode::TRAP, None, none3, Some(i.vect), nzp),
        };
        assert(r@.regs =~= slots_of(*self).regs);
        assert(r@.nzp =~= slots_of(*self).nzp);
        r
    }
}

} // verus!
