use vstd::prelude::*;
use crate::error::VMError;
use crate::machine::Machine;
use crate::operations::utils::{
    dr,
    lemma_fields,
    lemma_wrapping_add,
    offset6,
    sign_extend,
};
use crate::vm::VMState;

verus! {

impl Machine {
    /// The machine after STR: the cell at the base register moved by the 6-bit
    /// offset holds what the source register holds.
    pub open spec fn op_str(self, ix: u16) -> Machine {
        self.write(self.based_address(ix), self.reg(dr(ix)))
    }
}

/// STR: bits 11-9 name the source, bits 8-6 the base register, bits 5-0 hold
/// the offset. Never fails.
pub fn handle_str(instruction: u16, vm: &mut VMState) -> (r: Result<(), VMError>)
    ensures
        r is Ok,
        final(vm)@ == old(vm)@.op_str(instruction),
{
    proof {
        lemma_fields(instruction);
    }
    let src_reg = ((instruction >> 9) & 0x7) as usize;
    let base_reg = ((instruction >> 6) & 0x7) as usize;
    let offset = sign_extend(instruction & 0x3F, 6);
    proof {
        lemma_wrapping_add(vm.registers[base_reg as int], offset6(instruction));
    }
    vm.mem_write(vm.registers[base_reg].wrapping_add(offset), vm.registers[src_reg]);
    Ok(())
}

} // verus!
