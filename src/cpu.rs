use vstd::prelude::*;

use crate::decode::decode_op;
use crate::instruction::trap::{reads_key, TRAP_GETC, TRAP_IN};
use crate::instruction::{Instruction, Op};
use crate::memory::{load, Memory, KBSR, MEMORY_SIZE};
use crate::opcode::OpCode;
use crate::register::{Register, REG_COUNT};
use crate::word::{cond_code, condition_of};

verus! {

/// How an executed step ended.
#[derive(Clone, Copy, Debug, PartialEq, Eq, Structural)]
pub enum Effect {
    /// The instruction completed.
    Done,
    /// The instruction reads a character and none was supplied; nothing
    /// changed, and the step may be retried once one is.
    NeedKey,
    /// The instruction's kind may not be executed on this machine.
    Illegal(OpCode),
    /// A trap named a vector that has no routine.
    BadTrap(u16),
}

/// The machine's state: register file, memory and running flag.
pub struct CpuView {
    pub regs: Seq<u16>,
    pub mem: Seq<u16>,
    pub running: bool,
}

/// What one step leaves behind: the state, the key still pending, the
/// bytes written to the console, and how the step ended.
pub struct StepView {
    pub cpu: CpuView,
    pub key: Option<u16>,
    pub out: Seq<u8>,
    pub effect: Effect,
}

/// A step that completed with no console output.
pub open spec fn done(cpu: CpuView, key: Option<u16>) -> StepView {
    StepView { cpu, key, out: seq![], effect: Effect::Done }
}

impl CpuView {
    /// Every register and every address holds a cell.
    pub open spec fn wf(self) -> bool {
        self.regs.len() == REG_COUNT && self.mem.len() == MEMORY_SIZE
    }

    /// The value held by register `r`.
    pub open spec fn reg(self, r: Register) -> u16 {
        self.regs[r.spec_index() as int]
    }

    /// The program counter.
    pub open spec fn pc(self) -> u16 {
        self.reg(Register::PC)
    }

    /// The state with register `r` set to `v`.
    pub open spec fn with_reg(self, r: Register, v: u16) -> CpuView {
        CpuView { regs: self.regs.update(r.spec_index() as int, v), ..self }
    }

    /// The state with `v` written to `r` and the condition code set from it.
    pub open spec fn with_result(self, r: Register, v: u16) -> CpuView {
        self.with_reg(r, v).with_reg(Register::Cond, cond_code(v))
    }

    /// A read of `addr` with `key` pending: the word, the state and the key
    /// left afterwards.
    pub open spec fn load(self, key: Option<u16>, addr: u16) -> (u16, CpuView, Option<u16>) {
        let (v, mem, k) = load(self.mem, key, addr);
        (v, CpuView { mem, ..self }, k)
    }

    /// The state with `v` stored at `addr`.
    pub open spec fn store(self, addr: u16, v: u16) -> CpuView {
        CpuView { mem: self.mem.update(addr as int, v), ..self }
    }
}

/// Whether the next step waits for a character: the word at the program
/// counter is a trap that reads one, and none is pending.
pub open spec fn waits_for_key(s: CpuView, key: Option<u16>) -> bool {
    &&& key is None
    &&& s.pc() != KBSR
    &&& match decode_op(s.mem[s.pc() as int]) {
        Op::Trap(t) => reads_key(t.vect),
        _ => false,
    }
}

/// One fetch-decode-execute step: the word at the program counter is read,
/// the counter advances by one, and the decoded instruction runs. A step
/// that would wait for a character changes nothing instead.
pub open spec fn step_outcome(s: CpuView, key: Option<u16>) -> StepView {
    if waits_for_key(s, key) {
        StepView { cpu: s, key, out: seq![], effect: Effect::NeedKey }
    } else {
        let (raw, s1, k1) = s.load(key, s.pc());
        decode_op(raw).outcome(s1.with_reg(Register::PC, s.pc().wrapping_add(1)), k1)
    }
}

/// A freshly made machine: running, with zeroed memory and general
/// registers, the program counter at `origin` and the zero flag set.
pub open spec fn fresh(origin: u16) -> CpuView {
    CpuView {
        regs: seq![0u16, 0u16, 0u16, 0u16, 0u16, 0u16, 0u16, 0u16, origin, INITIAL_COND, 0u16],
        mem: Seq::new(MEMORY_SIZE as nat, |i: int| 0u16),
        running: true,
    }
}

/// The machine: register file, memory and running flag.
pub struct Cpu {
    regs: Vec<u16>,
    memory: Memory,
    running: bool,
}

impl View for Cpu {
    type V = CpuView;

    closed spec fn view(&self) -> CpuView {
        CpuView { regs: self.regs@, mem: self.memory@, running: self.running }
    }
}

/// Value of the condition code in a freshly made machine: the zero flag,
/// as every general register holds zero.
pub const INITIAL_COND: u16 = 0b010;

impl Cpu {
    /// Every register and every address holds a cell.
    pub open spec fn wf(&self) -> bool {
        self@.wf()
    }

    /// A running machine with zeroed memory and general registers, the
    /// program counter at `origin` and the zero flag set.
    pub fn new(origin: u16) -> (r: Cpu)
        ensures
            r.wf(),
            r@ == fresh(origin),
    {
        let regs: Vec<u16> = vec![0, 0, 0, 0, 0, 0, 0, 0, origin, INITIAL_COND, 0];
        let r = Cpu { regs, memory: Memory::new(), running: true };
        assert(r@.regs =~= fresh(origin).regs);
        r
    }

    /// The value held by register `which`.
    pub fn read(&self, which: Register) -> (r: u16)
        requires
            self.wf(),
        ensures
            r == self@.reg(which),
    {
        self.regs[which.index()]
    }

    /// Sets register `which` to `data`.
    pub fn write(&mut self, which: Register, data: u16)
        requires
            old(self).wf(),
        ensures
            final(self).wf(),
            final(self)@ == old(self)@.with_reg(which, data),
    {
        let i = which.index();
        self.regs.set(i, data);
    }

    /// Whether the machine has not halted.
    pub fn is_running(&self) -> (r: bool)
        ensures
            r == self@.running,
    {
        self.running
    }

    /// Clears the running flag.
    pub fn halt(&mut self)
        ensures
            final(self)@ == (CpuView { running: false, ..old(self)@ }),
    {
        self.running = false;
    }

    /// Sets the condition code from `result`.
    pub fn update_condition_reg(&mut self, result: u16)
        requires
            old(self).wf(),
        ensures
            final(self).wf(),
            final(self)@ == old(self)@.with_reg(Register::Cond, cond_code(result)),
    {
        let c = condition_of(result);
        self.write(Register::Cond, c);
    }

    /// Writes `result` to `which` and sets the condition code from it.
    pub fn set_result(&mut self, which: Register, result: u16)
        requires
            old(self).wf(),
        ensures
            final(self).wf(),
            final(self)@ == old(self)@.with_result(which, result),
    {
        self.write(which, result);
        self.update_condition_reg(result);
    }

    /// The word at `addr`, read without touching the keyboard.
    pub fn peek(&self, addr: u16) -> (r: u16)
        requires
            self.wf(),
        ensures
            r == self@.mem[addr as int],
    {
        self.memory.peek(addr)
    }

    /// Reads memory at `addr`, polling the keyboard when `addr` is the
    /// status register.
    pub fn mem_read(&mut self, addr: u16, key: &mut Option<u16>) -> (r: u16)
        requires
            old(self).wf(),
        ensures
            final(self).wf(),
            (r, final(self)@, *final(key)) == old(self)@.load(*old(key), addr),
    {
        self.memory.read(addr, key)
    }

    /// Stores `data` at `addr`.
    pub fn mem_write(&mut self, addr: u16, data: u16)
        requires
            old(self).wf(),
        ensures
            final(self).wf(),
            final(self)@ == old(self)@.store(addr, data),
    {
        self.memory.write(addr, data);
    }

    /// Reads the word at the program counter and advances the counter by one.
    pub fn fetch(&mut self, key: &mut Option<u16>) -> (r: u16)
        requires
            old(self).wf(),
        ensures
            final(self).wf(),
            ({
                let (w, s, k) = old(self)@.load(*old(key), old(self)@.pc());
                &&& r == w
                &&& final(self)@ == s.with_reg(Register::PC, old(self)@.pc().wrapping_add(1))
                &&& *final(key) == k
            }),
    {
        let pc = self.read(Register::PC);
        let raw = self.mem_read(pc, key);
        self.write(Register::PC, pc.wrapping_add(1));
        raw
    }

    /// Executes a decoded instruction, appending what it writes to the
    /// console to `out`.
    pub fn execute(&mut self, instr: &Op, key: &mut Option<u16>, out: &mut Vec<u8>) -> (e: Effect)
        requires
            old(self).wf(),
        ensures
            final(self).wf(),
            final(self)@ == instr.outcome(old(self)@, *old(key)).cpu,
            *final(key) == instr.outcome(old(self)@, *old(key)).key,
            final(out)@ == old(out)@ + instr.outcome(old(self)@, *old(key)).out,
            e == instr.outcome(old(self)@, *old(key)).effect,
    {
        instr.execute(self, key, out)
    }

    /// Runs one fetch-decode-execute step with `key` as the character the
    /// console has pending, appending what the step writes to `out`.
    pub fn step(&mut self, key: &mut Option<u16>, out: &mut Vec<u8>) -> (e: Effect)
        requires
            old(self).wf(),
        ensures
            final(self).wf(),
            final(self)@ == step_outcome(old(self)@, *old(key)).cpu,
            *final(key) == step_outcome(old(self)@, *old(key)).key,
            final(out)@ == old(out)@ + step_outcome(old(self)@, *old(key)).out,
            e == step_outcome(old(self)@, *old(key)).effect,
    {
        let pc = self.read(Register::PC);
        if key.is_none() && pc != KBSR {
            match Self::decode(self.peek(pc)) {
                Op::Trap(t) => {
                    if t.vect == TRAP_GETC || t.vect == TRAP_IN {
                        assert(out@ =~= out@ + seq![]);
                        return Effect::NeedKey;
                    }
                },
                _ => {},
            }
        }
        let raw = self.fetch(key);
        let instr = Self::decode(raw);
        self.execute(&instr, key, out)
    }
}

} // verus!
