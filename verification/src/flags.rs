use vstd::prelude::*;
use vstd::std_specs::convert::TryIntoSpecImpl;
use crate::error::VMError;

verus! {

/// The sign of the value last written to a general-purpose register.
/// Exactly one flag is held in the condition register at any time.
#[derive(Clone, Copy, Debug, PartialEq, Eq)]
pub enum Flag {
    Pos,
    Zro,
    Neg,
}

impl Flag {
    /// The bit that stands for this flag in the condition register.
    pub open spec fn bits(self) -> u16 {
        match self {
            Flag::Pos => 1,
            Flag::Zro => 2,
            Flag::Neg => 4,
        }
    }

    /// The flag that describes `value` read as a two's-complement word.
    pub open spec fn of(value: u16) -> Flag {
        if value == 0 {
            Flag::Zro
        } else if value >= 0x8000 {
            Flag::Neg
        } else {
            Flag::Pos
        }
    }
}

impl TryInto<u16> for Flag {
    type Error = VMError;

    fn try_into(self) -> (r: Result<u16, Self::Error>) {
        Ok(
            match self {
                Flag::Pos => 1,
                Flag::Zro => 2,
                Flag::Neg => 4,
            },
        )
    }
}

impl TryIntoSpecImpl<u16> for Flag {
    open spec fn obeys_try_into_spec() -> bool {
        true
    }

    open spec fn try_into_spec(self) -> Result<u16, Self::Error> {
        Ok(self.bits())
    }
}

/// The three flags are told apart by their bits, and every word has exactly
/// one of them: zero for the word 0, negative for a word whose highest bit is
/// set, positive for every other word.
pub proof fn lemma_flag_classifies(value: u16)
    ensures
        Flag::of(value) == Flag::Zro <==> value == 0,
        Flag::of(value) == Flag::Neg <==> value >> 15 == 1,
        Flag::of(value) == Flag::Pos <==> value != 0 && value >> 15 == 0,
        Flag::Pos.bits() != Flag::Zro.bits(),
        Flag::Pos.bits() != Flag::Neg.bits(),
        Flag::Zro.bits() != Flag::Neg.bits(),
{
    assert(value >> 15 == 1 <==> value >= 0x8000) by (bit_vector);
    assert(value >> 15 == 0 <==> value < 0x8000) by (bit_vector);
}

} // verus!
