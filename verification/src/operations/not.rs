use vstd::prelude::*;
use crate::error::VMError;
use crate::machine::Machine;
use crate::operations::utils::{dr, lemma_fields, sr1, update_flags};
use crate::vm::VMState;

verus! {

impl Machine {
    /// The machine after NOT: the destination register holds the bitwise
    /// complement of the source register, which is what the source is short
    /// of 0xFFFF, and the flags follow it.
    pub open spec fn op_not(self, ix: u16) -> Machine {
        self.load(dr(ix), (0xFFFF - self.reg(sr1(ix))) as u16)
    }
}

/// The bitwise complement of a word is what the word is short of 0xFFFF.
pub proof fn lemma_complement(word: u16)
    ensures
        !word == 0xFFFF - word,
{
    assert(!word == 0xFFFF - word) by (bit_vector);
}

/// NOT: bits 11-9 name the destination, bits 8-6 the source. Never fails.
pub fn handle_not(instruction: u16, vm: &mut VMState) -> (r: Result<(), VMError>)
    ensures
        r is Ok,
        final(vm)@ == old(vm)@.op_not(instruction),
        final(vm)@.flag_reflects(dr(instruction)),
{
    proof {
        lemma_fields(instruction);
        lemma_complement(vm.registers[sr1(instruction)]);
    }
    let dest_reg = ((instruction >> 9) & 0x7) as usize;
    let src_reg = ((instruction >> 6) & 0x7) as usize;
    vm.registers[dest_reg] = !vm.registers[src_reg];
    update_flags(vm, vm.registers[dest_reg])?;
    Ok(())
}

} // verus!
