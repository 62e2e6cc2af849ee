use vstd::prelude::*;

use crate::cpu::{fresh, step_outcome, Cpu, CpuView, Effect};
use crate::memory::MEMORY_SIZE;
use crate::register::Register;

verus! {

/// Why a program image was refused.
#[derive(Clone, Copy, Debug, PartialEq, Eq, Structural)]
pub enum ImageError {
    /// The image holds no load address.
    Empty,
    /// The image ends in half a word.
    OddLength,
}

/// The big-endian words that `bytes` holds, two bytes each.
pub open spec fn image_words(bytes: Seq<u8>) -> Seq<u16> {
    Seq::new(bytes.len() / 2, |i: int| (bytes[2 * i] as int * 256 + bytes[2 * i + 1] as int) as u16)
}

/// `mem` with `words` copied into successive cells from `addr` on, the
/// address wrapping past the top of memory.
pub open spec fn place(mem: Seq<u16>, addr: u16, words: Seq<u16>) -> Seq<u16>
    decreases words.len(),
{
    if words.len() == 0 {
        mem
    } else {
        place(mem.update(addr as int, words[0]), addr.wrapping_add(1), words.drop_first())
    }
}

/// The machine that an image starts: the first word is the load address,
/// the words after it fill memory from there on, and the program counter
/// starts at the load address.
pub open spec fn image_start(bytes: Seq<u8>) -> CpuView {
    let words = image_words(bytes);
    let origin = words[0];
    CpuView { mem: place(fresh(origin).mem, origin, words.drop_first()), ..fresh(origin) }
}

/// A program loaded into a machine of its own.
pub struct Vm {
    cpu: Cpu,
}

impl View for Vm {
    type V = CpuView;

    closed spec fn view(&self) -> CpuView {
        self.cpu@
    }
}

/// The big-endian word at byte `i` of `bytes`.
fn word_at(bytes: &Vec<u8>, i: usize) -> (r: u16)
    requires
        i + 1 < bytes@.len(),
    ensures
        r == (bytes@[i as int] as int * 256 + bytes@[i as int + 1] as int) as u16,
{
    let len = bytes.len();
    let high = bytes[i] as u16;
    let low = bytes[i + 1] as u16;
    assert((high << 8) | low == high * 256 + low) by (bit_vector)
        requires
            high < 256,
            low < 256,
    ;
    (high << 8) | low
}

impl Vm {
    /// Every register and every address holds a cell.
    pub open spec fn wf(&self) -> bool {
        self@.wf()
    }

    /// Loads a program image into a fresh machine: a running machine whose
    /// registers and memory hold zero, but for the condition code's zero
    /// flag, the program counter at the load address and the image's words.
    /// An image without a whole load address, or that ends in half a word,
    /// is refused.
    pub fn init(byte_stream: &Vec<u8>) -> (r: Result<Vm, ImageError>)
        ensures
            byte_stream@.len() < 2 ==> r == Err::<Vm, ImageError>(ImageError::Empty),
            byte_stream@.len() >= 2 && byte_stream@.len() % 2 == 1 ==> r == Err::<Vm, ImageError>(
                ImageError::OddLength,
            ),
            byte_stream@.len() >= 2 && byte_stream@.len() % 2 == 0 ==> r is Ok,
            r matches Ok(vm) ==> vm.wf() && vm@ == image_start(byte_stream@),
    {
        let len = byte_stream.len();
        if len < 2 {
            return Err(ImageError::Empty);
        }
        if len % 2 == 1 {
            return Err(ImageError::OddLength);
        }
        let ghost words = image_words(byte_stream@);
        let origin = word_at(byte_stream, 0);
        let mut cpu = Cpu::new(origin);
        let mut addr = origin;
        let n = len / 2;
        let mut j: usize = 1;
        assert(words.drop_first() =~= words.skip(1));
        while j < n
            invariant
                len == byte_stream@.len(),
                n == len / 2,
                words == image_words(byte_stream@),
                origin == words[0],
                1 <= j <= n,
                cpu.wf(),
                cpu@ == (CpuView { mem: cpu@.mem, ..fresh(origin) }),
                place(fresh(origin).mem, origin, words.drop_first()) == place(
                    cpu@.mem,
                    addr,
                    words.skip(j as int),
                ),
            decreases n - j,
        {
            let w = word_at(byte_stream, 2 * j);
            assert(w == words[j as int]);
            assert(words.skip(j as int).drop_first() =~= words.skip(j + 1));
            cpu.mem_write(addr, w);
            addr = addr.wrapping_add(1);
            j = j + 1;
        }
        assert(words.skip(n as int).len() == 0);
        Ok(Vm { cpu })
    }

    /// The machine the program runs on.
    pub fn cpu(&self) -> (r: &Cpu)
        ensures
            r@ == self@,
    {
        &self.cpu
    }

    /// Whether the program has not halted.
    pub fn is_running(&self) -> (r: bool)
        ensures
            r == self@.running,
    {
        self.cpu.is_running()
    }

    /// Runs one fetch-decode-execute step with `key` as the character the
    /// console has pending, appending what the step writes to `out`.
    pub fn step(&mut self, key: &mut Option<u16>, out: &mut Vec<u8>) -> (e: Effect)
        requires
            old(self).wf(),
        ensures
            final(self).wf(),
            final(self)@ == step_outcome(old(self)@, *old(key)).cpu,
            *final(key) == step_outcome(old(self)@, *old(key)).key,
            final(out)@ == old(out)@ + step_outcome(old(self)@, *old(key)).out,
            e == step_outcome(old(self)@, *old(key)).effect,
    {
        self.cpu.step(key, out)
    }
}

} // verus!
