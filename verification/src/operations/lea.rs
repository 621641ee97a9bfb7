use vstd::prelude::*;
use crate::error::VMError;
use crate::machine::{wrap, Machine};
use crate::operations::utils::{
    dr,
    lemma_fields,
    lemma_wrapping_add,
    offset9,
    sign_extend,
    update_flags,
};
use crate::registers::Register;
use crate::vm::VMState;

verus! {

impl Machine {
    /// The machine after LEA: the destination register holds the program
    /// counter moved by the 9-bit offset, modulo 65536, and the flags follow it.
    pub open spec fn op_lea(self, ix: u16) -> Machine {
        self.load(dr(ix), wrap(self.pc() + offset9(ix)))
    }
}

/// LEA: bits 11-9 name the destination, bits 8-0 hold the offset. Never fails.
pub fn handle_lea(instruction: u16, vm: &mut VMState) -> (r: Result<(), VMError>)
    ensures
        r is Ok,
        final(vm)@ == old(vm)@.op_lea(instruction),
        final(vm)@.flag_reflects(dr(instruction)),
{
    proof {
        lemma_fields(instruction);
        lemma_wrapping_add(vm.registers[8], offset9(instruction));
    }
    let dest_reg = ((instruction >> 9) & 0x7) as usize;
    let pc_offset = sign_extend(instruction & 0x1FF, 9);
    vm.registers[dest_reg] = vm.registers[Register::PC.usize()].wrapping_add(pc_offset);
    update_flags(vm, vm.registers[dest_reg])?;
    Ok(())
}

} // verus!
