//! A virtual machine for a 16-bit instruction set: a register file, a
//! word-addressed memory with a memory-mapped keyboard, condition codes and
//! console trap routines. Each fetch-decode-execute step is a function from
//! the machine's state and the pending keyboard character to the next
//! state, the bytes written to the console and how the step ended; the
//! host drives the loop and performs the console I/O.
pub mod cpu;
pub mod decode;
pub mod fields;
pub mod instruction;
pub mod lemmas;
pub mod memory;
pub mod opcode;
pub mod register;
pub mod summary;
pub mod vm;
pub mod word;
