use vstd::prelude::*;
use crate::error::VMError;
use crate::machine::{wrap, Machine};
use crate::operations::utils::{
    dr,
    imm5,
    immediate_mode,
    lemma_fields,
    lemma_wrapping_add,
    sign_extend,
    sr1,
    sr2,
    update_flags,
};
use crate::vm::VMState;

verus! {

impl Machine {
    /// The machine after ADD: the destination register holds the sum, modulo
    /// 65536, of the first source register and either the immediate or the
    /// second source register, and the flags follow the sum.
    pub open spec fn op_add(self, ix: u16) -> Machine {
        let operand = if immediate_mode(ix) {
            imm5(ix)
        } else {
            self.reg(sr2(ix)) as int
        };
        self.load(dr(ix), wrap(self.reg(sr1(ix)) + operand))
    }
}

/// ADD: bits 11-9 name the destination, bits 8-6 the first addend. With bit 5
/// set the second addend is the two's-complement number in bits 4-0, otherwise
/// the register named by bits 2-0. Never fails.
pub fn handle_add(instruction: u16, vm: &mut VMState) -> (r: Result<(), VMError>)
    ensures
        r is Ok,
        final(vm)@ == old(vm)@.op_add(instruction),
        final(vm)@.flag_reflects(dr(instruction)),
{
    proof {
        lemma_fields(instruction);
    }
    let dest_reg = ((instruction >> 9) & 0x7) as usize;
    let src_reg_1 = ((instruction >> 6) & 0x7) as usize;
    let imm_mode = ((instruction >> 5) & 0x1) > 0;
    if imm_mode {
        let imm_operand = sign_extend(instruction & 0x1F, 5);
        proof {
            lemma_wrapping_add(vm.registers[src_reg_1 as int], imm5(instruction));
        }
        vm.registers[dest_reg] = vm.registers[src_reg_1].wrapping_add(imm_operand);
    } else {
        let src_reg_2 = (instruction & 0x7) as usize;
        proof {
            lemma_wrapping_add(
                vm.registers[src_reg_1 as int],
                vm.registers[src_reg_2 as int] as int,
            );
        }
        vm.registers[dest_reg] = vm.registers[src_reg_1].wrapping_add(vm.registers[src_reg_2]);
    }
    update_flags(vm, vm.registers[dest_reg])?;
    Ok(())
}

} // verus!
