use vstd::prelude::*;
use crate::error::VMError;
use crate::machine::Machine;
use crate::operations::utils::{
    dr,
    lemma_fields,
    lemma_wrapping_add,
    offset6,
    sign_extend,
    update_flags,
};
use crate::vm::VMState;

verus! {

impl Machine {
    /// The machine after LDR: the cell was read, and unless the read failed
    /// the destination register holds what it yielded and the flags follow it.
    pub open spec fn op_ldr(self, ix: u16) -> Machine {
        let address = self.based_address(ix);
        if self.read_fails(address) {
            self.read(address)
        } else {
            self.read(address).load(dr(ix), self.read_value(address))
        }
    }
}

/// LDR: bits 11-9 name the destination, bits 8-6 the base register, bits 5-0
/// hold the offset. Fails exactly when the read of the cell fails.
pub fn handle_ldr(instruction: u16, vm: &mut VMState) -> (r: Result<(), VMError>)
    ensures
        final(vm)@ == old(vm)@.op_ldr(instruction),
        r == old(vm)@.read_outcome(old(vm)@.based_address(instruction)),
        r is Ok ==> final(vm)@.flag_reflects(dr(instruction)),
{
    proof {
        lemma_fields(instruction);
    }
    let dest_reg = ((instruction >> 9) & 0x7) as usize;
    let base_reg = ((instruction >> 6) & 0x7) as usize;
    let offset = sign_extend(instruction & 0x3F, 6);
    proof {
        lemma_wrapping_add(vm.registers[base_reg as int], offset6(instruction));
    }
    let address = vm.registers[base_reg].wrapping_add(offset);
    vm.registers[dest_reg] = vm.mem_read(address)?;
    update_flags(vm, vm.registers[dest_reg])?;
    Ok(())
}

} // verus!
