use vstd::prelude::*;
use crate::error::VMError;
use crate::machine::{wrap, Machine};
use crate::operations::utils::{
    lemma_fields,
    lemma_wrapping_add,
    offset11,
    offset_mode,
    sign_extend,
    sr1,
};
use crate::registers::Register;
use crate::vm::VMState;

verus! {

impl Machine {
    /// The machine after JSR or JSRR: R7 holds the program counter as it was.
    /// In offset mode the program counter has moved by the 11-bit offset,
    /// modulo 65536; in register mode it holds what the base register holds
    /// once R7 is written (so with R7 as base it does not move).
    pub open spec fn op_jsr(self, ix: u16) -> Machine {
        let linked = self.set_reg(7, self.pc());
        if offset_mode(ix) {
            linked.set_pc(wrap(self.pc() + offset11(ix)))
        } else {
            linked.set_pc(linked.reg(sr1(ix)))
        }
    }
}

/// JSR and JSRR: with bit 11 set, bits 10-0 hold the offset of the subroutine;
/// otherwise bits 8-6 name the register that holds its address. Never fails.
pub fn handle_jsr(instruction: u16, vm: &mut VMState) -> (r: Result<(), VMError>)
    ensures
        r is Ok,
        final(vm)@ == old(vm)@.op_jsr(instruction),
        final(vm)@.reg(7) == old(vm)@.pc(),
{
    proof {
        lemma_fields(instruction);
        lemma_wrapping_add(vm.registers[8], offset11(instruction));
    }
    let without_reg_flag = ((instruction >> 11) & 1) > 0;
    vm.registers[Register::R7.usize()] = vm.registers[Register::PC.usize()];

    if without_reg_flag {
        let pc_offset = sign_extend(instruction & 0x7FF, 11);
        vm.registers[Register::PC.usize()] = vm.registers[Register::PC.usize()].wrapping_add(
            pc_offset,
        );
    } else {
        let base_reg = ((instruction >> 6) & 0x7) as usize;
        vm.registers[Register::PC.usize()] = vm.registers[base_reg];
    }
    Ok(())
}

} // verus!
