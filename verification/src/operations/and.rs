use vstd::prelude::*;
use crate::error::VMError;
use crate::machine::{wrap, Machine};
use crate::operations::utils::{
    dr,
    imm5,
    immediate_mode,
    lemma_fields,
    sign_extend,
    sr1,
    sr2,
    update_flags,
};
use crate::vm::VMState;

verus! {

impl Machine {
    /// The machine after AND: the destination register holds the bitwise
    /// conjunction of the first source register and either the sign-extended
    /// immediate or the second source register, and the flags follow it.
    pub open spec fn op_and(self, ix: u16) -> Machine {
        let operand = if immediate_mode(ix) {
            wrap(imm5(ix))
        } else {
            self.reg(sr2(ix))
        };
        self.load(dr(ix), self.reg(sr1(ix)) & operand)
    }
}

/// AND: bits 11-9 name the destination, bits 8-6 the first operand. With bit 5
/// set the second operand is the sign-extended field in bits 4-0, otherwise
/// the register named by bits 2-0. Never fails.
pub fn handle_and(instruction: u16, vm: &mut VMState) -> (r: Result<(), VMError>)
    ensures
        r is Ok,
        final(vm)@ == old(vm)@.op_and(instruction),
        final(vm)@.flag_reflects(dr(instruction)),
{
    proof {
        lemma_fields(instruction);
    }
    let dest_reg = ((instruction >> 9) & 0x7) as usize;
    let src_reg_1 = ((instruction >> 6) & 0x7) as usize;
    let imm_mode = (instruction >> 5) & 0x1;

    let second_value = if imm_mode > 0 {
        sign_extend(instruction & 0x1F, 5)
    } else {
        let src_reg_2 = (instruction & 0x7) as usize;
        vm.registers[src_reg_2]
    };
    vm.registers[dest_reg] = vm.registers[src_reg_1] & second_value;
    update_flags(vm, vm.registers[dest_reg])?;
    Ok(())
}

} // verus!
