use vstd::prelude::*;

verus! {

/// The instruction kinds, with the register and immediate forms of ADD and
/// AND and the PC-relative and register forms of JSR told apart.
#[derive(Clone, Copy, Debug, PartialEq, Eq, Structural)]
pub enum OpCode {
    ADDR,
    ADDI,
    ANDR,
    ANDI,
    BR,
    JMP,
    JSR,
    JSRR,
    LD,
    LDI,
    LDR,
    LEA,
    NOT,
    RES,
    RET,
    RTI,
    ST,
    STI,
    STR,
    TRAP,
}

/// Number of instruction kinds.
pub const OPCODE_COUNT: usize = 20;

impl OpCode {
    /// The kind's mnemonic.
    pub open spec fn spec_name(self) -> Seq<char> {
        match self {
            OpCode::ADDR => "ADDR"@,
            OpCode::ADDI => "ADDI"@,
            OpCode::ANDR => "ANDR"@,
            OpCode::ANDI => "ANDI"@,
            OpCode::BR => "BR"@,
            OpCode::JMP => "JMP"@,
            OpCode::JSR => "JSR"@,
            OpCode::JSRR => "JSRR"@,
            OpCode::LD => "LD"@,
            OpCode::LDI => "LDI"@,
            OpCode::LDR => "LDR"@,
            OpCode::LEA => "LEA"@,
            OpCode::NOT => "NOT"@,
            OpCode::RES => "RES"@,
            OpCode::RET => "RET"@,
            OpCode::RTI => "RTI"@,
            OpCode::ST => "ST"@,
            OpCode::STI => "STI"@,
            OpCode::STR => "STR"@,
            OpCode::TRAP => "TRAP"@,
        }
    }

    /// The kind's mnemonic.
    pub fn name(self) -> (r: String)
        ensures
            r@ == self.spec_name(),
    {
        match self {
            OpCode::ADDR => String::from_str("ADDR"),
            OpCode::ADDI => String::from_str("ADDI"),
            OpCode::ANDR => String::from_str("ANDR"),
            OpCode::ANDI => String::from_str("ANDI"),
            OpCode::BR => String::from_str("BR"),
            OpCode::JMP => String::from_str("JMP"),
            OpCode::JSR => String::from_str("JSR"),
            OpCode::JSRR => String::from_str("JSRR"),
            OpCode::LD => String::from_str("LD"),
            OpCode::LDI => String::from_str("LDI"),
            OpCode::LDR => String::from_str("LDR"),
            OpCode::LEA => String::from_str("LEA"),
            OpCode::NOT => String::from_str("NOT"),
            OpCode::RES => String::from_str("RES"),
            OpCode::RET => String::from_str("RET"),
            OpCode::RTI => String::from_str("RTI"),
            OpCode::ST => String::from_str("ST"),
            OpCode::STI => String::from_str("STI"),
            OpCode::STR => String::from_str("STR"),
            OpCode::TRAP => String::from_str("TRAP"),
        }
    }

    /// Position of the kind in declaration order.
    pub open spec fn spec_index(self) -> nat {
        match self {
            OpCode::ADDR => 0,
            OpCode::ADDI => 1,
            OpCode::ANDR => 2,
            OpCode::ANDI => 3,
            OpCode::BR => 4,
            OpCode::JMP => 5,
            OpCode::JSR => 6,
            OpCode::JSRR => 7,
            OpCode::LD => 8,
            OpCode::LDI => 9,
            OpCode::LDR => 10,
            OpCode::LEA => 11,
            OpCode::NOT => 12,
            OpCode::RES => 13,
            OpCode::RET => 14,
            OpCode::RTI => 15,
            OpCode::ST => 16,
            OpCode::STI => 17,
            OpCode::STR => 18,
            OpCode::TRAP => 19,
        }
    }

    /// Position of the kind in declaration order.
    pub fn index(self) -> (r: usize)
        ensures
            r == self.spec_index(),
            r < OPCODE_COUNT,
    {
        match self {
            OpCode::ADDR => 0,
            OpCode::ADDI => 1,
            OpCode::ANDR => 2,
            OpCode::ANDI => 3,
            OpCode::BR => 4,
            OpCode::JMP => 5,
            OpCode::JSR => 6,
            OpCode::JSRR => 7,
            OpCode::LD => 8,
            OpCode::LDI => 9,
            OpCode::LDR => 10,
            OpCode::LEA => 11,
            OpCode::NOT => 12,
            OpCode::RES => 13,
            OpCode::RET => 14,
            OpCode::RTI => 15,
            OpCode::ST => 16,
            OpCode::STI => 17,
            OpCode::STR => 18,
            OpCode::TRAP => 19,
        }
    }

    /// The kind at position `i` in declaration order.
    pub fn from_index(i: usize) -> (r: OpCode)
        requires
            i < OPCODE_COUNT,
        ensures
            r.spec_index() == i,
    {
        match i {
            0 => OpCode::ADDR,
            1 => OpCode::ADDI,
            2 => OpCode::ANDR,
            3 => OpCode::ANDI,
            4 => OpCode::BR,
            5 => OpCode::JMP,
            6 => OpCode::JSR,
            7 => OpCode::JSRR,
            8 => OpCode::LD,
            9 => OpCode::LDI,
            10 => OpCode::LDR,
            11 => OpCode::LEA,
            12 => OpCode::NOT,
            13 => OpCode::RES,
            14 => OpCode::RET,
            15 => OpCode::RTI,
            16 => OpCode::ST,
            17 => OpCode::STI,
            18 => OpCode::STR,
            _ => OpCode::TRAP,
        }
    }
}

} // verus!
