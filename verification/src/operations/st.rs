use vstd::prelude::*;
use crate::error::VMError;
use crate::machine::Machine;
use crate::operations::utils::{
    dr,
    lemma_fields,
    lemma_wrapping_add,
    offset9,
    sign_extend,
};
use crate::registers::Register;
use crate::vm::VMState;

verus! {

impl Machine {
    /// The machine after ST: the cell at the program counter moved by the
    /// 9-bit offset holds what the source register holds.
    pub open spec fn op_st(self, ix: u16) -> Machine {
        self.write(self.relative_address(ix), self.reg(dr(ix)))
    }
}

/// ST: bits 11-9 name the source, bits 8-0 hold the offset of the cell from
/// the program counter. Never fails.
pub fn handle_st(instruction: u16, vm: &mut VMState) -> (r: Result<(), VMError>)
    ensures
        r is Ok,
        final(vm)@ == old(vm)@.op_st(instruction),
{
    proof {
        lemma_fields(instruction);
        lemma_wrapping_add(vm.registers[8], offset9(instruction));
    }
    let src_reg = ((instruction >> 9) & 0x7) as usize;
    let pc_offset = sign_extend(instruction & 0x1FF, 9);
    vm.mem_write(
        vm.registers[Register::PC.usize()].wrapping_add(pc_offset),
        vm.registers[src_reg],
    );
    Ok(())
}

} // verus!
