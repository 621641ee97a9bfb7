use vstd::prelude::*;
use crate::error::VMError;
use vstd::std_specs::convert::TryFromSpecImpl;
use vstd::std_specs::convert::TryIntoSpecImpl;

verus! {

/// The sixteen instruction kinds, in the order of their encodings.
#[derive(Clone, Copy, Debug, PartialEq, Eq)]
pub enum Opcode {
    OpBR,
    OpADD,
    OpLD,
    OpST,
    OpJSR,
    OpAND,
    OpLDR,
    OpSTR,
    OpRTI,
    OpNOT,
    OpLDI,
    OpSTI,
    OpJMP,
    OpRES,
    OpLEA,
    OpTRAP,
}

impl Opcode {
    /// The four-bit encoding of this opcode.
    pub open spec fn code(self) -> u16 {
        match self {
            Opcode::OpBR => 0,
            Opcode::OpADD => 1,
            Opcode::OpLD => 2,
            Opcode::OpST => 3,
            Opcode::OpJSR => 4,
            Opcode::OpAND => 5,
            Opcode::OpLDR => 6,
            Opcode::OpSTR => 7,
            Opcode::OpRTI => 8,
            Opcode::OpNOT => 9,
            Opcode::OpLDI => 10,
            Opcode::OpSTI => 11,
            Opcode::OpJMP => 12,
            Opcode::OpRES => 13,
            Opcode::OpLEA => 14,
            Opcode::OpTRAP => 15,
        }
    }
}

impl Opcode {
    /// The opcode that `bits` encodes, if it encodes one: every number below 16 does.
    pub open spec fn of(bits: u16) -> Option<Opcode> {
        if bits == 0 {
            Some(Opcode::OpBR)
        } else if bits == 1 {
            Some(Opcode::OpADD)
        } else if bits == 2 {
            Some(Opcode::OpLD)
        } else if bits == 3 {
            Some(Opcode::OpST)
        } else if bits == 4 {
            Some(Opcode::OpJSR)
        } else if bits == 5 {
            Some(Opcode::OpAND)
        } else if bits == 6 {
            Some(Opcode::OpLDR)
        } else if bits == 7 {
            Some(Opcode::OpSTR)
        } else if bits == 8 {
            Some(Opcode::OpRTI)
        } else if bits == 9 {
            Some(Opcode::OpNOT)
        } else if bits == 10 {
            Some(Opcode::OpLDI)
        } else if bits == 11 {
            Some(Opcode::OpSTI)
        } else if bits == 12 {
            Some(Opcode::OpJMP)
        } else if bits == 13 {
            Some(Opcode::OpRES)
        } else if bits == 14 {
            Some(Opcode::OpLEA)
        } else if bits == 15 {
            Some(Opcode::OpTRAP)
        } else {
            None
        }
    }
}

/// Decoding undoes encoding, and every four-bit number decodes to the opcode
/// that it encodes.
pub proof fn lemma_opcode_round_trip(op: Opcode, bits: u16)
    ensures
        Opcode::of(op.code()) == Some(op),
        op.code() < 16,
        bits < 16 ==> Opcode::of(bits) is Some && Opcode::of(bits)->Some_0.code() == bits,
        bits >= 16 ==> Opcode::of(bits) is None,
{
}

impl TryFrom<u16> for Opcode {
    type Error = VMError;

    fn try_from(value: u16) -> (r: Result<Self, Self::Error>) {
        let result = match value {
            0 => Opcode::OpBR,
            1 => Opcode::OpADD,
            2 => Opcode::OpLD,
            3 => Opcode::OpST,
            4 => Opcode::OpJSR,
            5 => Opcode::OpAND,
            6 => Opcode::OpLDR,
            7 => Opcode::OpSTR,
            8 => Opcode::OpRTI,
            9 => Opcode::OpNOT,
            10 => Opcode::OpLDI,
            11 => Opcode::OpSTI,
            12 => Opcode::OpJMP,
            13 => Opcode::OpRES,
            14 => Opcode::OpLEA,
            15 => Opcode::OpTRAP,
            _ => return Err(VMError::UnrecognizedOpcode(value)),
        };
        Ok(result)
    }
}

impl TryFromSpecImpl<u16> for Opcode {
    open spec fn obeys_try_from_spec() -> bool {
        true
    }

    open spec fn try_from_spec(value: u16) -> Result<Self, Self::Error> {
        match Opcode::of(value) {
            Some(op) => Ok(op),
            None => Err(VMError::UnrecognizedOpcode(value)),
        }
    }
}

impl TryInto<u16> for Opcode {
    type Error = VMError;

    fn try_into(self) -> (r: Result<u16, Self::Error>) {
        Ok(match self {
            Opcode::OpBR => 0,
            Opcode::OpADD => 1,
            Opcode::OpLD => 2,
            Opcode::OpST => 3,
            Opcode::OpJSR => 4,
            Opcode::OpAND => 5,
            Opcode::OpLDR => 6,
            Opcode::OpSTR => 7,
            Opcode::OpRTI => 8,
            Opcode::OpNOT => 9,
            Opcode::OpLDI => 10,
            Opcode::OpSTI => 11,
            Opcode::OpJMP => 12,
            Opcode::OpRES => 13,
            Opcode::OpLEA => 14,
            Opcode::OpTRAP => 15,
        })
    }
}

impl TryIntoSpecImpl<u16> for Opcode {
    open spec fn obeys_try_into_spec() -> bool {
        true
    }

    open spec fn try_into_spec(self) -> Result<u16, Self::Error> {
        Ok(self.code())
    }
}

} // verus!
