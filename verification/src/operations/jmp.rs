use vstd::prelude::*;
use crate::error::VMError;
use crate::machine::Machine;
use crate::operations::utils::{lemma_fields, sr1};
use crate::registers::Register;
use crate::vm::VMState;

verus! {

impl Machine {
    /// The machine after JMP: the program counter holds what the base register holds.
    pub open spec fn op_jmp(self, ix: u16) -> Machine {
        self.set_pc(self.reg(sr1(ix)))
    }
}

/// JMP: bits 8-6 name the base register; with R7 as base this returns from a
/// subroutine. Never fails.
pub fn handle_jmp(instruction: u16, vm: &mut VMState) -> (r: Result<(), VMError>)
    ensures
        r is Ok,
        final(vm)@ == old(vm)@.op_jmp(instruction),
{
    proof {
        lemma_fields(instruction);
    }
    let base_reg = ((instruction >> 6) & 0x7) as usize;
    vm.registers[Register::PC.usize()] = vm.registers[base_reg];
    Ok(())
}

} // verus!
