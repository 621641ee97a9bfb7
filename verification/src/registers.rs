use vstd::prelude::*;
use vstd::std_specs::convert::TryIntoSpecImpl;
use crate::error::VMError;

verus! {

/// How many registers the machine has: eight general-purpose ones, the
/// program counter and the condition register.
pub const REGISTER_COUNT: usize = 10;

/// The registers of the machine, in the order in which the register file holds them.
#[derive(Clone, Copy, Debug, PartialEq, Eq)]
pub enum Register {
    R0,
    R1,
    R2,
    R3,
    R4,
    R5,
    R6,
    R7,
    PC,
    Cond,
}

impl Register {
    pub const COUNT: usize = 10;

    /// The place of this register in the register file.
    pub open spec fn index(self) -> int {
        match self {
            Register::R0 => 0,
            Register::R1 => 1,
            Register::R2 => 2,
            Register::R3 => 3,
            Register::R4 => 4,
            Register::R5 => 5,
            Register::R6 => 6,
            Register::R7 => 7,
            Register::PC => 8,
            Register::Cond => 9,
        }
    }

    /// The place of this register in the register file, to index it with.
    pub fn usize(self) -> (i: usize)
        ensures
            i == self.index(),
            i < REGISTER_COUNT,
    {
        match self {
            Register::R0 => 0,
            Register::R1 => 1,
            Register::R2 => 2,
            Register::R3 => 3,
            Register::R4 => 4,
            Register::R5 => 5,
            Register::R6 => 6,
            Register::R7 => 7,
            Register::PC => 8,
            Register::Cond => 9,
        }
    }
}

/// The two memory cells through which the keyboard is seen.
#[derive(Clone, Copy, Debug, PartialEq, Eq)]
pub enum MemoryRegister {
    /// Keyboard status: its highest bit says that a key is ready.
    Kbsr,
    /// Keyboard data: the key that was found ready.
    Kbdr,
}

impl MemoryRegister {
    /// The address of this cell.
    pub open spec fn address(self) -> u16 {
        match self {
            MemoryRegister::Kbsr => 0xFE00,
            MemoryRegister::Kbdr => 0xFE02,
        }
    }

    /// The address of this cell, to index the memory with.
    pub fn usize(self) -> (i: usize)
        ensures
            i == self.address(),
    {
        match self {
            MemoryRegister::Kbsr => 0xFE00,
            MemoryRegister::Kbdr => 0xFE02,
        }
    }
}

impl TryInto<u16> for MemoryRegister {
    type Error = VMError;

    fn try_into(self) -> (r: Result<u16, Self::Error>) {
        Ok(
            match self {
                MemoryRegister::Kbsr => 0xFE00,
                MemoryRegister::Kbdr => 0xFE02,
            },
        )
    }
}

impl TryIntoSpecImpl<u16> for MemoryRegister {
    open spec fn obeys_try_into_spec() -> bool {
        true
    }

    open spec fn try_into_spec(self) -> Result<u16, Self::Error> {
        Ok(self.address())
    }
}

} // verus!
