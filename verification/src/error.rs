use vstd::prelude::*;

verus! {

/// Everything that can stop the machine or the program around it.
#[derive(Debug, PartialEq, Eq)]
pub enum VMError {
    /// The console output could not be flushed; the payload is the cause, as text.
    ErrorFlushinStdout(String),
    /// The program was started with the wrong number of arguments: expected, then received.
    WrongArgumentsLen(usize, usize),
    /// The character source had nothing to deliver, or failed; the payload is the cause, as text.
    CouldNotReadChar(String),
    /// The program image could not be read; the payload is the cause, as text.
    CouldNotReadFile(String),
    /// The value is not one of the sixteen opcodes; the payload is the value.
    UnrecognizedOpcode(u16),
    /// The trap vector is not one of the six services; the payload is the vector.
    UnrecognizedTrapCode(u16),
    /// The terminal could not be configured; the payload is the cause, as text.
    TermiosError(String),
}

} // verus!
