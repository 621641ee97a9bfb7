use vstd::prelude::*;
use vstd::arithmetic::div_mod::{lemma_mod_pos_bound, lemma_small_mod};
use vstd::arithmetic::power2::{lemma2_to64, pow2};
use vstd::bits::{lemma_u16_pow2_no_overflow, lemma_u16_shl_is_mul};
use crate::error::VMError;
use crate::flags::Flag;
use crate::machine::{signed, wrap, Machine};
use crate::registers::Register;
use crate::vm::VMState;

verus! {

/// Bits 11 to 9 of an instruction: the destination or source register, or
/// the three condition bits of a branch.
pub open spec fn dr(ix: u16) -> int {
    (ix as int / 512) % 8
}

/// Bits 8 to 6 of an instruction: the first source register or the base register.
pub open spec fn sr1(ix: u16) -> int {
    (ix as int / 64) % 8
}

/// Bits 2 to 0 of an instruction: the second source register.
pub open spec fn sr2(ix: u16) -> int {
    ix as int % 8
}

/// Bit 5 of an instruction: set when the second operand is an immediate.
pub open spec fn immediate_mode(ix: u16) -> bool {
    (ix as int / 32) % 2 == 1
}

/// Bit 11 of an instruction: set when a subroutine jump is relative to the program counter.
pub open spec fn offset_mode(ix: u16) -> bool {
    (ix as int / 2048) % 2 == 1
}

/// The 5-bit immediate operand, as the number it stands for (-16 to 15).
pub open spec fn imm5(ix: u16) -> int {
    signed(ix as int % 32, 32)
}

/// The 6-bit offset, as the number it stands for (-32 to 31).
pub open spec fn offset6(ix: u16) -> int {
    signed(ix as int % 64, 64)
}

/// The 9-bit offset, as the number it stands for (-256 to 255).
pub open spec fn offset9(ix: u16) -> int {
    signed(ix as int % 512, 512)
}

/// The 11-bit offset, as the number it stands for (-1024 to 1023).
pub open spec fn offset11(ix: u16) -> int {
    signed(ix as int % 2048, 2048)
}

/// Bits 15 to 12 of an instruction: the opcode.
pub open spec fn opcode_bits(ix: u16) -> u16 {
    ix / 4096
}

/// Bits 7 to 0 of a trap instruction: the service asked for.
pub open spec fn trap_vector(ix: u16) -> u16 {
    ix % 256
}

/// The low byte of a word.
pub open spec fn low_byte(word: u16) -> u8 {
    (word % 256) as u8
}

/// The high byte of a word.
pub open spec fn high_byte(word: u16) -> u8 {
    (word / 256) as u8
}

impl Machine {
    /// The cell that LD, LDI, ST and STI name: the one at the program counter
    /// moved by the 9-bit offset, modulo 65536.
    pub open spec fn relative_address(self, ix: u16) -> u16 {
        wrap(self.pc() + offset9(ix))
    }

    /// The cell that LDR and STR name: the one at the base register moved by
    /// the 6-bit offset, modulo 65536.
    pub open spec fn based_address(self, ix: u16) -> u16 {
        wrap(self.reg(sr1(ix)) + offset6(ix))
    }
}

/// The shifts and masks that cut an instruction into fields, as arithmetic.
pub proof fn lemma_fields(ix: u16)
    ensures
        (ix >> 9) & 0x7 == dr(ix),
        (ix >> 6) & 0x7 == sr1(ix),
        ix & 0x7 == sr2(ix),
        (ix >> 5) & 0x1 == (ix as int / 32) % 2,
        (ix >> 11) & 1 == (ix as int / 2048) % 2,
        ix & 0x1F == ix as int % 32,
        ix & 0x3F == ix as int % 64,
        ix & 0x1FF == ix as int % 512,
        ix & 0x7FF == ix as int % 2048,
        ix & 0xFF == trap_vector(ix),
        ix >> 12 == opcode_bits(ix),
        ix >> 12 < 16,
        ix >> 8 == ix / 256,
{
    assert((ix >> 9) & 0x7 == (ix / 512) % 8) by (bit_vector);
    assert((ix >> 6) & 0x7 == (ix / 64) % 8) by (bit_vector);
    assert(ix & 0x7 == ix % 8) by (bit_vector);
    assert((ix >> 5) & 0x1 == (ix / 32) % 2) by (bit_vector);
    assert((ix >> 11) & 1 == (ix / 2048) % 2) by (bit_vector);
    assert(ix & 0x1F == ix % 32) by (bit_vector);
    assert(ix & 0x3F == ix % 64) by (bit_vector);
    assert(ix & 0x1FF == ix % 512) by (bit_vector);
    assert(ix & 0x7FF == ix % 2048) by (bit_vector);
    assert(ix & 0xFF == ix % 256) by (bit_vector);
    assert(ix >> 12 == ix / 4096) by (bit_vector);
    assert(ix >> 8 == ix / 256) by (bit_vector);
}

/// Two to the power `bit_count`, for the widths that a field of a word can
/// have; 0 for any other width.
pub open spec fn field_modulus(bit_count: nat) -> int {
    if bit_count == 0 {
        1
    } else if bit_count == 1 {
        2
    } else if bit_count == 2 {
        4
    } else if bit_count == 3 {
        8
    } else if bit_count == 4 {
        16
    } else if bit_count == 5 {
        32
    } else if bit_count == 6 {
        64
    } else if bit_count == 7 {
        128
    } else if bit_count == 8 {
        256
    } else if bit_count == 9 {
        512
    } else if bit_count == 10 {
        1024
    } else if bit_count == 11 {
        2048
    } else if bit_count == 12 {
        4096
    } else if bit_count == 13 {
        8192
    } else if bit_count == 14 {
        16384
    } else if bit_count == 15 {
        32768
    } else if bit_count == 16 {
        65536
    } else {
        0
    }
}

/// For the widths from 0 to 16, `field_modulus` is the power of two.
pub proof fn lemma_field_modulus_is_pow2(bit_count: nat)
    requires
        bit_count <= 16,
    ensures
        field_modulus(bit_count) == pow2(bit_count),
{
    lemma2_to64();
}

/// The word that sign extension makes of `number`, whose low `bit_count` bits
/// hold a two's-complement field. Where the highest bit of the field is set,
/// the field is kept and every bit above it is 1; otherwise the word stays as it is.
pub open spec fn sign_extend_spec(number: u16, bit_count: nat) -> u16 {
    let field = number as int % field_modulus(bit_count);
    if 2 * field >= field_modulus(bit_count) {
        (field + 0x1_0000 - field_modulus(bit_count)) as u16
    } else {
        number
    }
}

/// Widens the two's-complement field of `bit_count` bits that `number` holds
/// in its low bits to a full word: where the field is negative every bit above
/// it is set, otherwise the word comes back as it is. A word whose bits above
/// the field are clear becomes the word of the number that the field stands for.
pub fn sign_extend(number: u16, bit_count: usize) -> (r: u16)
    requires
        1 <= bit_count <= 16,
    ensures
        r == sign_extend_spec(number, bit_count as nat),
        number < field_modulus(bit_count as nat) ==> r == wrap(
            signed(number as int, field_modulus(bit_count as nat)),
        ),
{
    let ghost modulus = field_modulus(bit_count as nat);
    proof {
        lemma_sign_extend_keeps_value(number, bit_count as nat);
        if number < modulus {
            lemma_small_mod(number as nat, modulus as nat);
        }
    }
    if bit_count < 16 {
        let ghost w: u16 = bit_count as u16;
        let ghost p: u16 = 1u16 << w;
        let ghost top: u16 = (bit_count - 1) as u16;
        proof {
            lemma_u16_pow2_no_overflow(w as nat);
            lemma_u16_shl_is_mul(1, w);
            lemma_field_modulus_is_pow2(bit_count as nat);
            assert(p == modulus);
            assert({
                &&& ((number >> top) & 1) > 0 <==> 2 * (number % p) >= p
                &&& (number | (0xFFFFu16 << w)) == (number % p) + 0x1_0000 - p
            }) by (bit_vector)
                requires
                    1 <= w < 16,
                    top + 1 == w,
                    p == 1u16 << w,
            ;
            assert(number as int % modulus == (number % p) as int);
        }
        if ((number >> (bit_count - 1)) & 1) > 0 {
            number | (0xFFFF << bit_count)
        } else {
            number
        }
    } else {
        number
    }
}

/// Sign extension turns a field into the word of the number that the field
/// stands for: for every word `n` and every width `w` from 1 to 16, the low
/// `w` bits of `n`, sign-extended, read as a 16-bit two's-complement number,
/// are what they were as a `w`-bit two's-complement number. At width 16 the
/// word comes back unchanged.
pub proof fn lemma_sign_extend_keeps_value(n: u16, w: nat)
    requires
        1 <= w <= 16,
    ensures
        w == 16 ==> sign_extend_spec(n, w) == n,
        ({
            let field = (n as int % field_modulus(w)) as u16;
            &&& signed(sign_extend_spec(field, w) as int, 0x1_0000) == signed(
                field as int,
                field_modulus(w),
            )
            &&& sign_extend_spec(field, w) == wrap(signed(field as int, field_modulus(w)))
        }),
{
    let p = field_modulus(w);
    assert(2 <= p <= 0x1_0000);
    let f = n as int % p;
    assert(0 <= f < p) by {
        lemma_mod_pos_bound(n as int, p);
    }
    assert(f % p == f) by {
        lemma_small_mod(f as nat, p as nat);
    }
    if w == 16 {
        assert(n as int % p == n as int) by {
            lemma_small_mod(n as nat, p as nat);
        }
    }
}

/// Adding the word of a number, with wrap-around, adds the number modulo 65536.
pub proof fn lemma_wrapping_add(a: u16, i: int)
    ensures
        vstd::wrapping::u16_specs::wrapping_add(a, wrap(i)) == wrap(a + i),
{
}

/// Sets the condition register to the flag of `register_value`: zero for 0,
/// negative for a word with its highest bit set, positive for any other.
/// Nothing else changes. Never fails.
pub fn update_flags(vm: &mut VMState, register_value: u16) -> (r: Result<(), VMError>)
    ensures
        r is Ok,
        final(vm)@ == old(vm)@.set_reg(9, Flag::of(register_value).bits()),
        final(vm)@.cond() == Flag::Zro.bits() <==> register_value == 0,
        final(vm)@.cond() == Flag::Neg.bits() <==> register_value >= 0x8000,
        final(vm)@.cond() == Flag::Pos.bits() <==> 0 < register_value < 0x8000,
{
    assert((register_value >> 15) > 0 <==> register_value >= 0x8000) by (bit_vector);
    if register_value == 0 {
        vm.registers[Register::Cond.usize()] = Flag::Zro.try_into()?;
    } else if (register_value >> 15) > 0 {
        vm.registers[Register::Cond.usize()] = Flag::Neg.try_into()?;
    } else {
        vm.registers[Register::Cond.usize()] = Flag::Pos.try_into()?;
    }
    Ok(())
}

} // verus!
