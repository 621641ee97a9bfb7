use vstd::prelude::*;
use crate::error::VMError;
use crate::machine::Machine;
use crate::operations::utils::{
    dr,
    lemma_fields,
    lemma_wrapping_add,
    offset9,
    sign_extend,
    update_flags,
};
use crate::registers::Register;
use crate::vm::VMState;

verus! {

impl Machine {
    /// The machine after LDI: the cell at the program counter moved by the
    /// 9-bit offset was read, then the cell whose address the first read
    /// yielded; unless one of the reads failed, the destination register
    /// holds what the second read yielded and the flags follow it.
    pub open spec fn op_ldi(self, ix: u16) -> Machine {
        let pointer = self.relative_address(ix);
        let address = self.read_value(pointer);
        let pointed = self.read(pointer);
        if self.read_fails(pointer) {
            pointed
        } else if pointed.read_fails(address) {
            pointed.read(address)
        } else {
            pointed.read(address).load(dr(ix), pointed.read_value(address))
        }
    }

    /// What LDI returns: the failure of the first read, or else of the second,
    /// or else success.
    pub open spec fn op_ldi_result(self, ix: u16) -> Result<(), VMError> {
        let pointer = self.relative_address(ix);
        if self.read_fails(pointer) {
            Err(self.failure())
        } else {
            self.read(pointer).read_outcome(self.read_value(pointer))
        }
    }
}

/// LDI: bits 11-9 name the destination, bits 8-0 hold the offset, from the
/// program counter, of the cell that holds the address to load from. Fails
/// exactly when one of its two reads fails.
pub fn handle_ldi(instruction: u16, vm: &mut VMState) -> (r: Result<(), VMError>)
    ensures
        final(vm)@ == old(vm)@.op_ldi(instruction),
        r == old(vm)@.op_ldi_result(instruction),
        r is Ok ==> final(vm)@.flag_reflects(dr(instruction)),
{
    proof {
        lemma_fields(instruction);
        lemma_wrapping_add(vm.registers[8], offset9(instruction));
    }
    let dest_reg = ((instruction >> 9) & 0x7) as usize;
    let pc_offset = sign_extend(instruction & 0x1FF, 9);
    let first_addr = vm.registers[Register::PC.usize()].wrapping_add(pc_offset);
    let final_addr = vm.mem_read(first_addr)?;
    vm.registers[dest_reg] = vm.mem_read(final_addr)?;
    update_flags(vm, vm.registers[dest_reg])?;
    Ok(())
}

} // verus!
