use vstd::prelude::*;

verus! {

/// Number of words in the address space.
pub const MEMORY_SIZE: usize = 65536;

/// Address of the keyboard status register: bit 15 set when a character
/// is available.
pub const KBSR: u16 = 0xfe00;

/// Address of the keyboard data register: the last character read.
pub const KBDR: u16 = 0xfe02;

/// Status word that reports a character as available.
pub const KEY_READY: u16 = 0x8000;

/// What a read of `addr` returns, with the memory and the pending key after
/// it. A read of the status register polls the keyboard: a pending key is
/// taken, flagged in the status register and placed in the data register;
/// with none pending the status register is cleared. Every other address is
/// plain storage.
pub open spec fn load(mem: Seq<u16>, key: Option<u16>, addr: u16) -> (u16, Seq<u16>, Option<u16>) {
    if addr == KBSR {
        match key {
            Some(c) => (
                KEY_READY,
                mem.update(KBSR as int, KEY_READY).update(KBDR as int, c),
                None,
            ),
            None => (0, mem.update(KBSR as int, 0), None),
        }
    } else {
        (mem[addr as int], mem, key)
    }
}

/// The word-addressed memory of the machine.
pub struct Memory {
    cells: Vec<u16>,
}

impl View for Memory {
    type V = Seq<u16>;

    closed spec fn view(&self) -> Seq<u16> {
        self.cells@
    }
}

impl Memory {
    /// Every address holds a cell.
    pub open spec fn wf(&self) -> bool {
        self@.len() == MEMORY_SIZE
    }

    /// A memory whose every cell holds zero.
    pub fn new() -> (r: Memory)
        ensures
            r.wf(),
            r@ == Seq::new(MEMORY_SIZE as nat, |i: int| 0u16),
    {
        let mut cells: Vec<u16> = Vec::new();
        let mut i: usize = 0;
        while i < MEMORY_SIZE
            invariant
                i <= MEMORY_SIZE,
                cells@ == Seq::new(i as nat, |j: int| 0u16),
            decreases MEMORY_SIZE - i,
        {
            cells.push(0);
            i = i + 1;
            assert(cells@ =~= Seq::new(i as nat, |j: int| 0u16));
        }
        Memory { cells }
    }

    /// The word at `pos`, read without touching the keyboard.
    pub fn peek(&self, pos: u16) -> (r: u16)
        requires
            self.wf(),
        ensures
            r == self@[pos as int],
    {
        self.cells[pos as usize]
    }

    /// Reads the word at `pos`; a read of the status register first polls
    /// the keyboard, taking `key` when one is pending.
    pub fn read(&mut self, pos: u16, key: &mut Option<u16>) -> (r: u16)
        requires
            old(self).wf(),
        ensures
            final(self).wf(),
            (r, final(self)@, *final(key)) == load(old(self)@, *old(key), pos),
    {
        if pos == KBSR {
            match *key {
                Some(c) => {
                    self.write(KBSR, KEY_READY);
                    self.write(KBDR, c);
                },
                None => {
                    self.write(KBSR, 0);
                },
            }
            *key = None;
        }
        self.cells[pos as usize]
    }

    /// Stores `data` at `pos`.
    pub fn write(&mut self, pos: u16, data: u16)
        requires
            old(self).wf(),
        ensures
            final(self).wf(),
            final(self)@ == old(self)@.update(pos as int, data),
    {
        self.cells.set(pos as usize, data);
    }
}

} // verus!
