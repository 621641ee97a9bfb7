use vstd::prelude::*;
use crate::error::VMError;
use crate::machine::Machine;
use crate::operations::utils::{
    dr,
    lemma_fields,
    lemma_wrapping_add,
    offset9,
    sign_extend,
};
use crate::registers::Register;
use crate::vm::VMState;

verus! {

impl Machine {
    /// The machine after STI: the cell at the program counter moved by the
    /// 9-bit offset was read, and unless the read failed the cell whose
    /// address it yielded holds what the source register holds.
    pub open spec fn op_sti(self, ix: u16) -> Machine {
        let pointer = self.relative_address(ix);
        if self.read_fails(pointer) {
            self.read(pointer)
        } else {
            self.read(pointer).write(self.read_value(pointer), self.reg(dr(ix)))
        }
    }
}

/// STI: bits 11-9 name the source, bits 8-0 hold the offset, from the program
/// counter, of the cell that holds the address to store to. Fails exactly
/// when the read of that cell fails.
pub fn handle_sti(instruction: u16, vm: &mut VMState) -> (r: Result<(), VMError>)
    ensures
        final(vm)@ == old(vm)@.op_sti(instruction),
        r == old(vm)@.read_outcome(old(vm)@.relative_address(instruction)),
{
    proof {
        lemma_fields(instruction);
        lemma_wrapping_add(vm.registers[8], offset9(instruction));
    }
    let src_reg = ((instruction >> 9) & 0x7) as usize;
    let pc_offset = sign_extend(instruction & 0x1FF, 9);
    let pointer = vm.registers[Register::PC.usize()].wrapping_add(pc_offset);
    let address = vm.mem_read(pointer)?;
    vm.mem_write(address, vm.registers[src_reg]);
    Ok(())
}

} // verus!
