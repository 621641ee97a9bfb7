use vstd::prelude::*;
use crate::error::VMError;
use crate::flags::Flag;
use crate::machine::{wrap, Machine};
use crate::operations::utils::{
    dr,
    lemma_fields,
    lemma_wrapping_add,
    offset9,
    sign_extend,
};
use crate::registers::Register;
use crate::vm::VMState;

verus! {

impl Machine {
    /// The branch of `ix` is taken: bit 11 asks for the negative flag, bit 10
    /// for the zero flag, bit 9 for the positive flag, and the condition
    /// register holds the bit of one of the flags asked for.
    pub open spec fn branches(self, ix: u16) -> bool {
        let cond = self.cond() as int;
        ||| (ix as int / 2048) % 2 == 1 && (cond / 4) % 2 == 1
        ||| (ix as int / 1024) % 2 == 1 && (cond / 2) % 2 == 1
        ||| (ix as int / 512) % 2 == 1 && cond % 2 == 1
    }

    /// The machine after BR: where the branch is taken the program counter has
    /// moved by the 9-bit offset, modulo 65536; otherwise nothing has changed.
    pub open spec fn op_br(self, ix: u16) -> Machine {
        if self.branches(ix) {
            self.set_pc(wrap(self.pc() + offset9(ix)))
        } else {
            self
        }
    }
}

/// A branch on zero alone is taken exactly when the condition register holds
/// the zero flag, whatever the offset: then the program counter moves by the
/// offset. Under the positive or the negative flag the machine stays as it is.
pub proof fn lemma_branch_on_zero(m: Machine, ix: u16)
    requires
        m.wf(),
        dr(ix) == 2,
        m.cond() == Flag::Pos.bits() || m.cond() == Flag::Zro.bits() || m.cond()
            == Flag::Neg.bits(),
    ensures
        m.branches(ix) <==> m.cond() == Flag::Zro.bits(),
        m.cond() == Flag::Zro.bits() ==> m.op_br(ix) == m.set_pc(wrap(m.pc() + offset9(ix))),
        m.cond() != Flag::Zro.bits() ==> m.op_br(ix) == m,
{
}

/// The conjunction of the condition bits of a branch with the condition
/// register is not zero exactly when the branch is taken.
proof fn lemma_branch_bits(ix: u16, cond: u16)
    ensures
        ((ix >> 9) & 0x7) & cond > 0 <==> {
            ||| (ix as int / 2048) % 2 == 1 && (cond as int / 4) % 2 == 1
            ||| (ix as int / 1024) % 2 == 1 && (cond as int / 2) % 2 == 1
            ||| (ix as int / 512) % 2 == 1 && cond as int % 2 == 1
        },
{
    assert(((ix >> 9) & 0x7) & cond > 0 <==> {
        ||| (ix / 2048) % 2 == 1 && (cond / 4) % 2 == 1
        ||| (ix / 1024) % 2 == 1 && (cond / 2) % 2 == 1
        ||| (ix / 512) % 2 == 1 && cond % 2 == 1
    }) by (bit_vector);
}

/// BR: bits 11-9 say on which flags to branch (negative, zero, positive), bits
/// 8-0 hold the offset. Never fails.
pub fn handle_br(instruction: u16, vm: &mut VMState) -> (r: Result<(), VMError>)
    ensures
        r is Ok,
        final(vm)@ == old(vm)@.op_br(instruction),
{
    proof {
        lemma_fields(instruction);
        lemma_branch_bits(instruction, vm.registers[9]);
        lemma_wrapping_add(vm.registers[8], offset9(instruction));
    }
    let pc_offset = sign_extend(instruction & 0x1FF, 9);
    let cond_flag = (instruction >> 9) & 0x7;
    if (cond_flag & vm.registers[Register::Cond.usize()]) > 0 {
        vm.registers[Register::PC.usize()] = vm.registers[Register::PC.usize()].wrapping_add(
            pc_offset,
        );
    }
    assert(vm@.registers =~= old(vm)@.op_br(instruction).registers);
    Ok(())
}

} // verus!
