use vstd::prelude::*;

use crate::cpu::{done, Cpu, CpuView, Effect, StepView};
use crate::instruction::Instruction;
use crate::opcode::OpCode;
use crate::register::Register;

verus! {

/// Reads a character into R0 without echoing it.
pub const TRAP_GETC: u16 = 0x20;

/// Writes the low byte of R0.
pub const TRAP_OUT: u16 = 0x21;

/// Writes the string of one character per word that starts at R0.
pub const TRAP_PUTS: u16 = 0x22;

/// Reads a character into R0 and echoes it.
pub const TRAP_IN: u16 = 0x23;

/// Writes the string of two characters per word that starts at R0.
pub const TRAP_PUTSP: u16 = 0x24;

/// Halts the machine.
pub const TRAP_HALT: u16 = 0x25;

/// Most words a string routine reads before it gives up on finding the
/// terminating zero: the whole address space.
pub const SCAN_LIMIT: u32 = 65536;

/// Whether the routine at `vect` reads a character.
pub open spec fn reads_key(vect: u16) -> bool {
    vect == TRAP_GETC || vect == TRAP_IN
}

/// The notice written when the machine halts: "HALT" and a newline.
pub open spec fn halt_notice() -> Seq<u8> {
    seq![72u8, 65u8, 76u8, 84u8, 10u8]
}

/// The bytes a string word stands for: its low byte alone, or, packed, its
/// low then its high byte, each left out when it is zero.
pub open spec fn word_bytes(w: u16, packed: bool) -> Seq<u8> {
    if packed {
        let lo = (w & 0xff) as u8;
        let hi = (w >> 8) as u8;
        (if lo != 0 {
            seq![lo]
        } else {
            seq![]
        }) + (if hi != 0 {
            seq![hi]
        } else {
            seq![]
        })
    } else {
        seq![w as u8]
    }
}

/// The string that starts at `addr` and ends before the first zero word,
/// reading at most `n` words: the bytes written, and the state and key left
/// by the reads.
pub open spec fn string_from(s: CpuView, key: Option<u16>, addr: u16, n: nat, packed: bool) -> (
    Seq<u8>,
    CpuView,
    Option<u16>,
)
    decreases n,
{
    if n == 0 {
        (seq![], s, key)
    } else {
        let (w, s1, k1) = s.load(key, addr);
        if w == 0 {
            (seq![], s1, k1)
        } else {
            let (rest, s2, k2) = string_from(s1, k1, addr.wrapping_add(1), (n - 1) as nat, packed);
            (word_bytes(w, packed) + rest, s2, k2)
        }
    }
}

/// The whole string routine: the string that starts at R0.
pub open spec fn string_routine(s: CpuView, key: Option<u16>, packed: bool) -> StepView {
    let (out, s1, k1) = string_from(s, key, s.reg(Register::R0), SCAN_LIMIT as nat, packed);
    StepView { cpu: s1, key: k1, out, effect: Effect::Done }
}

/// What the routine at `vect` does once R7 holds the return address.
pub open spec fn trap_routine(vect: u16, s: CpuView, key: Option<u16>) -> StepView {
    if vect == TRAP_GETC {
        match key {
            Some(c) => done(s.with_result(Register::R0, c), None),
            None => StepView { cpu: s, key, out: seq![], effect: Effect::NeedKey },
        }
    } else if vect == TRAP_OUT {
        StepView { cpu: s, key, out: seq![s.reg(Register::R0) as u8], effect: Effect::Done }
    } else if vect == TRAP_PUTS {
        string_routine(s, key, false)
    } else if vect == TRAP_IN {
        match key {
            Some(c) => StepView {
                cpu: s.with_result(Register::R0, c),
                key: None,
                out: seq![c as u8],
                effect: Effect::Done,
            },
            None => StepView { cpu: s, key, out: seq![], effect: Effect::NeedKey },
        }
    } else if vect == TRAP_PUTSP {
        string_routine(s, key, true)
    } else if vect == TRAP_HALT {
        StepView {
            cpu: CpuView { running: false, ..s },
            key,
            out: halt_notice(),
            effect: Effect::Done,
        }
    } else {
        StepView { cpu: s, key, out: seq![], effect: Effect::BadTrap(vect) }
    }
}

/// TRAP: saves the program counter in R7 and runs the console routine
/// that `vect` selects. A routine that reads a character, with none
/// supplied, changes nothing.
#[derive(Clone, Copy, Debug, PartialEq, Eq, Structural)]
pub struct Trap {
    pub vect: u16,
}

impl Trap {
    pub fn new(vect: u16) -> (r: Self)
        ensures
            r == (Trap { vect }),
    {
        Trap { vect }
    }
}

impl Instruction for Trap {
    open spec fn kind(&self) -> OpCode {
        OpCode::TRAP
    }

    open spec fn outcome(&self, s: CpuView, key: Option<u16>) -> StepView {
        if reads_key(self.vect) && key is None {
            StepView { cpu: s, key, out: seq![], effect: Effect::NeedKey }
        } else {
            trap_routine(self.vect, s.with_reg(Register::R7, s.pc()), key)
        }
    }

    fn opcode(&self) -> (r: OpCode) {
        OpCode::TRAP
    }

    fn execute(&self, cpu: &mut Cpu, key: &mut Option<u16>, out: &mut Vec<u8>) -> (e: Effect) {
        if (self.vect == TRAP_GETC || self.vect == TRAP_IN) && key.is_none() {
            assert(out@ =~= out@ + seq![]);
            return Effect::NeedKey;
        }
        let pc = cpu.read(Register::PC);
        cpu.write(Register::R7, pc);
        if self.vect == TRAP_GETC {
            handle_trap_getc(cpu, key);
            assert(out@ =~= out@ + seq![]);
            Effect::Done
        } else if self.vect == TRAP_OUT {
            handle_trap_out(cpu, out);
            Effect::Done
        } else if self.vect == TRAP_PUTS {
            handle_trap_puts(cpu, key, out);
            Effect::Done
        } else if self.vect == TRAP_IN {
            handle_trap_in(cpu, key, out);
            Effect::Done
        } else if self.vect == TRAP_PUTSP {
            handle_trap_putsp(cpu, key, out);
            Effect::Done
        } else if self.vect == TRAP_HALT {
            halt(cpu, out);
            Effect::Done
        } else {
            assert(out@ =~= out@ + seq![]);
            Effect::BadTrap(self.vect)
        }
    }
}

/// Reads the supplied character into R0 and sets the condition code from it.
pub fn handle_trap_getc(cpu: &mut Cpu, key: &mut Option<u16>)
    requires
        old(cpu).wf(),
        old(key).is_some(),
    ensures
        final(cpu).wf(),
        final(cpu)@ == old(cpu)@.with_result(Register::R0, old(key).unwrap()),
        *final(key) == None::<u16>,
{
    let ch = key.unwrap();
    *key = None;
    cpu.set_result(Register::R0, ch);
}

/// Writes the low byte of R0.
pub fn handle_trap_out(cpu: &Cpu, out: &mut Vec<u8>)
    requires
        cpu.wf(),
    ensures
        final(out)@ == old(out)@.push(cpu@.reg(Register::R0) as u8),
{
    let ch = cpu.read(Register::R0) as u8;
    out.push(ch);
}

/// Reads the supplied character into R0, then writes its low byte.
pub fn handle_trap_in(cpu: &mut Cpu, key: &mut Option<u16>, out: &mut Vec<u8>)
    requires
        old(cpu).wf(),
        old(key).is_some(),
    ensures
        final(cpu).wf(),
        final(cpu)@ == old(cpu)@.with_result(Register::R0, old(key).unwrap()),
        *final(key) == None::<u16>,
        final(out)@ == old(out)@.push(old(key).unwrap() as u8),
{
    handle_trap_getc(cpu, key);
    handle_trap_out(cpu, out);
}

/// Writes the string of one character per word that starts at R0.
pub fn handle_trap_puts(cpu: &mut Cpu, key: &mut Option<u16>, out: &mut Vec<u8>)
    requires
        old(cpu).wf(),
    ensures
        final(cpu).wf(),
        final(cpu)@ == string_routine(old(cpu)@, *old(key), false).cpu,
        *final(key) == string_routine(old(cpu)@, *old(key), false).key,
        final(out)@ == old(out)@ + string_routine(old(cpu)@, *old(key), false).out,
{
    write_string(cpu, key, out, false);
}

/// Writes the string of two characters per word that starts at R0, low
/// byte first; a zero byte is never written.
pub fn handle_trap_putsp(cpu: &mut Cpu, key: &mut Option<u16>, out: &mut Vec<u8>)
    requires
        old(cpu).wf(),
    ensures
        final(cpu).wf(),
        final(cpu)@ == string_routine(old(cpu)@, *old(key), true).cpu,
        *final(key) == string_routine(old(cpu)@, *old(key), true).key,
        final(out)@ == old(out)@ + string_routine(old(cpu)@, *old(key), true).out,
{
    write_string(cpu, key, out, true);
}

/// Writes the halt notice and clears the running flag.
pub fn halt(cpu: &mut Cpu, out: &mut Vec<u8>)
    ensures
        final(cpu)@ == (CpuView { running: false, ..old(cpu)@ }),
        final(out)@ == old(out)@ + halt_notice(),
{
    out.push(72u8);
    out.push(65u8);
    out.push(76u8);
    out.push(84u8);
    out.push(10u8);
    assert(out@ =~= old(out)@ + halt_notice());
    cpu.halt();
}

/// Appends the bytes that string word `w` stands for.
fn write_word(w: u16, packed: bool, out: &mut Vec<u8>)
    ensures
        final(out)@ == old(out)@ + word_bytes(w, packed),
{
    if packed {
        let lo = (w & 0xff) as u8;
        let hi = (w >> 8) as u8;
        if lo != 0 {
            out.push(lo);
        }
        if hi != 0 {
            out.push(hi);
        }
    } else {
        out.push(w as u8);
    }
    assert(out@ =~= old(out)@ + word_bytes(w, packed));
}

/// Writes the string that starts at R0, up to its terminating zero word.
fn write_string(cpu: &mut Cpu, key: &mut Option<u16>, out: &mut Vec<u8>, packed: bool)
    requires
        old(cpu).wf(),
    ensures
        final(cpu).wf(),
        final(cpu)@ == string_routine(old(cpu)@, *old(key), packed).cpu,
        *final(key) == string_routine(old(cpu)@, *old(key), packed).key,
        final(out)@ == old(out)@ + string_routine(old(cpu)@, *old(key), packed).out,
{
    let ghost s0 = cpu@;
    let ghost k0 = *key;
    let ghost out0 = out@;
    let ghost total = string_from(s0, k0, s0.reg(Register::R0), SCAN_LIMIT as nat, packed);
    let ghost mut emitted: Seq<u8> = seq![];
    let mut addr = cpu.read(Register::R0);
    let mut i: u32 = 0;
    let mut stop = false;
    while !stop && i < SCAN_LIMIT
        invariant
            cpu.wf(),
            i <= SCAN_LIMIT,
            out@ == out0 + emitted,
            total == string_from(s0, k0, s0.reg(Register::R0), SCAN_LIMIT as nat, packed),
            ({
                let rest = if stop {
                    (Seq::<u8>::empty(), cpu@, *key)
                } else {
                    string_from(cpu@, *key, addr, (SCAN_LIMIT - i) as nat, packed)
                };
                &&& total.0 == emitted + rest.0
                &&& total.1 == rest.1
                &&& total.2 == rest.2
            }),
        decreases SCAN_LIMIT - i,
    {
        let ghost before = cpu@;
        let ghost kb = *key;
        let ghost n = (SCAN_LIMIT - i) as nat;
        let w = cpu.mem_read(addr, key);
        if w == 0 {
            stop = true;
            assert(emitted + Seq::<u8>::empty() =~= emitted);
        } else {
            write_word(w, packed, out);
            let ghost rest = string_from(cpu@, *key, addr.wrapping_add(1), (n - 1) as nat, packed);
            assert(string_from(before, kb, addr, n, packed).0 == word_bytes(w, packed) + rest.0);
            assert(emitted + (word_bytes(w, packed) + rest.0) =~= (emitted + word_bytes(w, packed))
                + rest.0);
            proof {
                emitted = emitted + word_bytes(w, packed);
            }
            addr = addr.wrapping_add(1);
        }
        i = i + 1;
    }
    assert(total.0 == emitted + Seq::<u8>::empty());
    assert(emitted + Seq::<u8>::empty() =~= emitted);
}

} // verus!
