//! A verified emulator core for a 16-bit machine with sixteen opcodes, ten
//! registers and 65536 memory cells.
//!
//! The machine does no input or output of its own. Its console is two queues
//! in [`VMState`]: the host puts what the keyboard delivers into one and takes
//! what the machine writes out of the other. [`VMState::step`] takes one turn
//! of the fetch-and-execute cycle and tells the host what to do next.
//!
//! Every function states what it does over [`machine::Machine`], the
//! mathematical state of the machine.

pub mod error;
pub mod flags;
pub mod machine;
pub mod opcodes;
pub mod operations;
pub mod registers;
pub mod vm;

pub use vm::VMState;
