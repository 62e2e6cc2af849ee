use vstd::prelude::*;

verus! {

/// The slots of the register file: eight general registers, the program
/// counter, the condition code, and a sentinel that counts the others.
#[derive(Clone, Copy, Debug, PartialEq, Eq, Structural)]
pub enum Register {
    R0,
    R1,
    R2,
    R3,
    R4,
    R5,
    R6,
    R7,
    PC,
    Cond,
    Count,
}

/// Number of slots in the register file, the sentinel's own included.
pub const REG_COUNT: usize = 11;

impl Register {
    /// Position of the register in the register file.
    pub open spec fn spec_index(self) -> nat {
        match self {
            Register::R0 => 0,
            Register::R1 => 1,
            Register::R2 => 2,
            Register::R3 => 3,
            Register::R4 => 4,
            Register::R5 => 5,
            Register::R6 => 6,
            Register::R7 => 7,
            Register::PC => 8,
            Register::Cond => 9,
            Register::Count => 10,
        }
    }

    /// Position of the register in the register file.
    pub fn index(self) -> (r: usize)
        ensures
            r == self.spec_index(),
            r < REG_COUNT,
    {
        match self {
            Register::R0 => 0,
            Register::R1 => 1,
            Register::R2 => 2,
            Register::R3 => 3,
            Register::R4 => 4,
            Register::R5 => 5,
            Register::R6 => 6,
            Register::R7 => 7,
            Register::PC => 8,
            Register::Cond => 9,
            Register::Count => 10,
        }
    }

    /// The register at position `value` of the register file.
    pub fn from(value: u16) -> (r: Register)
        requires
            value < REG_COUNT,
        ensures
            r.spec_index() == value,
            r == register_of(value),
    {
        match value {
            0 => Register::R0,
            1 => Register::R1,
            2 => Register::R2,
            3 => Register::R3,
            4 => Register::R4,
            5 => Register::R5,
            6 => Register::R6,
            7 => Register::R7,
            8 => Register::PC,
            9 => Register::Cond,
            _ => Register::Count,
        }
    }
}

/// The register at position `value`; positions past the general registers,
/// the program counter and the condition code all name the sentinel.
pub open spec fn register_of(value: u16) -> Register {
    match value {
        0 => Register::R0,
        1 => Register::R1,
        2 => Register::R2,
        3 => Register::R3,
        4 => Register::R4,
        5 => Register::R5,
        6 => Register::R6,
        7 => Register::R7,
        8 => Register::PC,
        9 => Register::Cond,
        _ => Register::Count,
    }
}

} // verus!
