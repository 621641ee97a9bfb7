use vstd::prelude::*;
use crate::error::VMError;
use crate::machine::Machine;
use crate::operations::utils::{
    dr,
    lemma_fields,
    lemma_wrapping_add,
    offset9,
    sign_extend,
    update_flags,
};
use crate::registers::Register;
use crate::vm::VMState;

verus! {

impl Machine {
    /// The machine after LD: the cell was read, and unless the read failed
    /// the destination register holds what it yielded and the flags follow it.
    pub open spec fn op_ld(self, ix: u16) -> Machine {
        let address = self.relative_address(ix);
        if self.read_fails(address) {
            self.read(address)
        } else {
            self.read(address).load(dr(ix), self.read_value(address))
        }
    }
}

/// LD: bits 11-9 name the destination, bits 8-0 hold the offset of the cell
/// from the program counter. Fails exactly when the read of the cell fails.
pub fn handle_ld(instruction: u16, vm: &mut VMState) -> (r: Result<(), VMError>)
    ensures
        final(vm)@ == old(vm)@.op_ld(instruction),
        r == old(vm)@.read_outcome(old(vm)@.relative_address(instruction)),
        r is Ok ==> final(vm)@.flag_reflects(dr(instruction)),
{
    proof {
        lemma_fields(instruction);
        lemma_wrapping_add(vm.registers[8], offset9(instruction));
    }
    let dest_reg = ((instruction >> 9) & 0x7) as usize;
    let pc_offset = sign_extend(instruction & 0x1FF, 9);
    let address = vm.registers[Register::PC.usize()].wrapping_add(pc_offset);
    vm.registers[dest_reg] = vm.mem_read(address)?;
    update_flags(vm, vm.registers[dest_reg])?;
    Ok(())
}

} // verus!
