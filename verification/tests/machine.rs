use lc3_vm::error::VMError;
use lc3_vm::flags::Flag;
use lc3_vm::opcodes::Opcode;
use lc3_vm::operations::add::handle_add;
use lc3_vm::operations::and::handle_and;
use lc3_vm::operations::br::handle_br;
use lc3_vm::operations::jmp::handle_jmp;
use lc3_vm::operations::jsr::handle_jsr;
use lc3_vm::operations::ld::handle_ld;
use lc3_vm::operations::ldi::handle_ldi;
use lc3_vm::operations::ldr::handle_ldr;
use lc3_vm::operations::lea::handle_lea;
use lc3_vm::operations::not::handle_not;
use lc3_vm::operations::st::handle_st;
use lc3_vm::operations::sti::handle_sti;
use lc3_vm::operations::str::handle_str;
use lc3_vm::operations::utils::{sign_extend, update_flags};
use lc3_vm::registers::{MemoryRegister, Register};
use lc3_vm::vm::MEMORY_MAX;
use lc3_vm::VMState;

const R0: usize = 0;
const R1: usize = 1;
const R2: usize = 2;
const R3: usize = 3;
const R7: usize = 7;
const PC: usize = 8;
const COND: usize = 9;

const POS: u16 = 1;
const ZRO: u16 = 2;
const NEG: u16 = 4;

const KBSR: u16 = 0xFE00;
const KBDR: u16 = 0xFE02;

#[test]
fn init_gives_an_empty_machine_at_the_default_origin() {
    let vm = VMState::init().unwrap();
    assert_eq!(MEMORY_MAX, 65536);
    assert!(vm.memory.iter().all(|cell| *cell == 0));
    assert_eq!(vm.registers, [0, 0, 0, 0, 0, 0, 0, 0, 0x3000, ZRO]);
    assert!(vm.keyboard.is_empty());
    assert!(vm.display.is_empty());
}

#[test]
fn registers_are_numbered_in_file_order() {
    assert_eq!(Register::R0.usize(), 0);
    assert_eq!(Register::R1.usize(), 1);
    assert_eq!(Register::R2.usize(), 2);
    assert_eq!(Register::R3.usize(), 3);
    assert_eq!(Register::R4.usize(), 4);
    assert_eq!(Register::R5.usize(), 5);
    assert_eq!(Register::R6.usize(), 6);
    assert_eq!(Register::R7.usize(), 7);
    assert_eq!(Register::PC.usize(), 8);
    assert_eq!(Register::Cond.usize(), 9);
    assert_eq!(Register::COUNT, 10);
}

#[test]
fn keyboard_cells_have_their_addresses() {
    let status: u16 = MemoryRegister::Kbsr.try_into().unwrap();
    let data: u16 = MemoryRegister::Kbdr.try_into().unwrap();
    assert_eq!(status, 0xFE00);
    assert_eq!(data, 0xFE02);
    assert_eq!(MemoryRegister::Kbsr.usize(), 0xFE00);
    assert_eq!(MemoryRegister::Kbdr.usize(), 0xFE02);
}

#[test]
fn flags_have_one_bit_each() {
    let pos: u16 = Flag::Pos.try_into().unwrap();
    let zro: u16 = Flag::Zro.try_into().unwrap();
    let neg: u16 = Flag::Neg.try_into().unwrap();
    assert_eq!(pos, 1);
    assert_eq!(zro, 2);
    assert_eq!(neg, 4);
}

#[test]
fn every_four_bit_number_is_an_opcode() {
    let all = [
        Opcode::OpBR,
        Opcode::OpADD,
        Opcode::OpLD,
        Opcode::OpST,
        Opcode::OpJSR,
        Opcode::OpAND,
        Opcode::OpLDR,
        Opcode::OpSTR,
        Opcode::OpRTI,
        Opcode::OpNOT,
        Opcode::OpLDI,
        Opcode::OpSTI,
        Opcode::OpJMP,
        Opcode::OpRES,
        Opcode::OpLEA,
        Opcode::OpTRAP,
    ];
    for (bits, opcode) in all.iter().enumerate() {
        assert_eq!(Opcode::try_from(bits as u16), Ok(*opcode));
        let back: u16 = (*opcode).try_into().unwrap();
        assert_eq!(back, bits as u16);
    }
}

#[test]
fn a_number_above_fifteen_is_no_opcode() {
    assert_eq!(Opcode::try_from(16), Err(VMError::UnrecognizedOpcode(16)));
    assert_eq!(Opcode::try_from(0xF000), Err(VMError::UnrecognizedOpcode(0xF000)));
}

#[test]
fn sign_extend_exact_values() {
    assert_eq!(sign_extend(0x14, 5), 0xFFF4);
    assert_eq!(sign_extend(0x0A, 5), 0x000A);
    assert_eq!(sign_extend(0x1F, 5), 0xFFFF);
    assert_eq!(sign_extend(0x10, 5), 0xFFF0);
    assert_eq!(sign_extend(0x0F, 5), 0x000F);
    assert_eq!(sign_extend(0x20, 6), 0xFFE0);
    assert_eq!(sign_extend(0x1F, 6), 0x001F);
    assert_eq!(sign_extend(0x1FF, 9), 0xFFFF);
    assert_eq!(sign_extend(0x100, 9), 0xFF00);
    assert_eq!(sign_extend(0x0FF, 9), 0x00FF);
    assert_eq!(sign_extend(0x7EC, 11), 0xFFEC);
    assert_eq!(sign_extend(0x400, 11), 0xFC00);
    assert_eq!(sign_extend(0x3FF, 11), 0x03FF);
}

#[test]
fn sign_extend_at_the_narrowest_and_the_widest_field() {
    assert_eq!(sign_extend(1, 1), 0xFFFF);
    assert_eq!(sign_extend(0, 1), 0);
    assert_eq!(sign_extend(0x8000, 16), 0x8000);
    assert_eq!(sign_extend(0x7FFF, 16), 0x7FFF);
    assert_eq!(sign_extend(0xFFFF, 16), 0xFFFF);
    assert_eq!(sign_extend(0x4000, 15), 0xC000);
}

#[test]
fn sign_extend_keeps_the_bits_above_a_positive_field() {
    // Low five bits 0x04: the field is positive, the word stays.
    assert_eq!(sign_extend(0x24, 5), 0x24);
    // Low five bits 0x14: the field is negative, every bit above it is set.
    assert_eq!(sign_extend(0x34, 5), 0xFFF4);
}

#[test]
fn sign_extend_preserves_the_value_of_every_field() {
    for width in 1..=16usize {
        let modulus: i32 = 1 << width;
        for n in 0..=u16::MAX {
            let field = (n as i32) % modulus;
            let value = if field >= modulus / 2 { field - modulus } else { field };
            let extended = sign_extend(field as u16, width);
            assert_eq!(extended as i16 as i32, value);
        }
    }
}

#[test]
fn sign_extend_of_a_whole_word_is_the_word() {
    for n in 0..=u16::MAX {
        assert_eq!(sign_extend(n, 16), n);
    }
}

#[test]
fn update_flags_tells_zero_negative_and_positive_apart() {
    let mut vm = VMState::init().unwrap();
    assert!(update_flags(&mut vm, 0).is_ok());
    assert_eq!(vm.registers[COND], ZRO);
    assert!(update_flags(&mut vm, 1).is_ok());
    assert_eq!(vm.registers[COND], POS);
    assert!(update_flags(&mut vm, 0x7FFF).is_ok());
    assert_eq!(vm.registers[COND], POS);
    assert!(update_flags(&mut vm, 0x8000).is_ok());
    assert_eq!(vm.registers[COND], NEG);
    assert!(update_flags(&mut vm, 0xFFFF).is_ok());
    assert_eq!(vm.registers[COND], NEG);
}

#[test]
fn update_flags_changes_nothing_but_the_condition_register() {
    let mut vm = VMState::init().unwrap();
    vm.registers[R3] = 77;
    vm.memory[0x1234] = 5;
    update_flags(&mut vm, 0x9000).unwrap();
    assert_eq!(vm.registers, [0, 0, 0, 77, 0, 0, 0, 0, 0x3000, NEG]);
    assert_eq!(vm.memory[0x1234], 5);
}

fn expected_flag(value: u16) -> u16 {
    if value == 0 {
        ZRO
    } else if value >> 15 == 1 {
        NEG
    } else {
        POS
    }
}

#[test]
fn flags_follow_the_destination_of_every_loading_instruction() {
    for value in [0u16, 1, 0x7FFF, 0x8000, 0xFFFF, 0x1234, 0xABCD] {
        // ADD R2, R1, R0 with R0 = 0
        let mut vm = VMState::init().unwrap();
        vm.registers[R1] = value;
        handle_add(0x1440, &mut vm).unwrap();
        assert_eq!(vm.registers[R2], value);
        assert_eq!(vm.registers[COND], expected_flag(value));

        // AND R2, R1, R1
        let mut vm = VMState::init().unwrap();
        vm.registers[R1] = value;
        handle_and(0x5441, &mut vm).unwrap();
        assert_eq!(vm.registers[R2], value);
        assert_eq!(vm.registers[COND], expected_flag(value));

        // NOT R2, R1
        let mut vm = VMState::init().unwrap();
        vm.registers[R1] = !value;
        handle_not(0x947F, &mut vm).unwrap();
        assert_eq!(vm.registers[R2], value);
        assert_eq!(vm.registers[COND], expected_flag(value));

        // LD R2, #1
        let mut vm = VMState::init().unwrap();
        vm.memory[0x3001] = value;
        handle_ld(0x2401, &mut vm).unwrap();
        assert_eq!(vm.registers[R2], value);
        assert_eq!(vm.registers[COND], expected_flag(value));

        // LDI R2, #1
        let mut vm = VMState::init().unwrap();
        vm.memory[0x3001] = 0x5000;
        vm.memory[0x5000] = value;
        handle_ldi(0xA401, &mut vm).unwrap();
        assert_eq!(vm.registers[R2], value);
        assert_eq!(vm.registers[COND], expected_flag(value));

        // LDR R2, R1, #1
        let mut vm = VMState::init().unwrap();
        vm.registers[R1] = 0x5000;
        vm.memory[0x5001] = value;
        handle_ldr(0x6441, &mut vm).unwrap();
        assert_eq!(vm.registers[R2], value);
        assert_eq!(vm.registers[COND], expected_flag(value));

        // LEA R2, #0 with the program counter at `value`
        let mut vm = VMState::init().unwrap();
        vm.registers[PC] = value;
        handle_lea(0xE400, &mut vm).unwrap();
        assert_eq!(vm.registers[R2], value);
        assert_eq!(vm.registers[COND], expected_flag(value));
    }
}

#[test]
fn add_wraps_around() {
    let mut vm = VMState::init().unwrap();
    vm.registers[R1] = 0xFFFF;
    // ADD R0, R1, #1
    handle_add(0x1061, &mut vm).unwrap();
    assert_eq!(vm.registers[R0], 0);
    assert_eq!(vm.registers[COND], ZRO);

    vm.registers[R1] = 0x8000;
    vm.registers[R2] = 0x8001;
    // ADD R0, R1, R2
    handle_add(0x1042, &mut vm).unwrap();
    assert_eq!(vm.registers[R0], 1);
    assert_eq!(vm.registers[COND], POS);
}

#[test]
fn add_with_the_smallest_and_the_largest_immediate() {
    let mut vm = VMState::init().unwrap();
    vm.registers[R1] = 100;
    // ADD R0, R1, #-16
    handle_add(0x1070, &mut vm).unwrap();
    assert_eq!(vm.registers[R0], 84);
    // ADD R0, R1, #15
    handle_add(0x106F, &mut vm).unwrap();
    assert_eq!(vm.registers[R0], 115);
    // ADD R0, R1, #-1 from zero goes below zero
    vm.registers[R1] = 0;
    handle_add(0x107F, &mut vm).unwrap();
    assert_eq!(vm.registers[R0], 0xFFFF);
    assert_eq!(vm.registers[COND], NEG);
}

#[test]
fn add_may_name_one_register_three_times() {
    let mut vm = VMState::init().unwrap();
    vm.registers[R1] = 21;
    // ADD R1, R1, R1
    handle_add(0x1241, &mut vm).unwrap();
    assert_eq!(vm.registers[R1], 42);
    assert_eq!(vm.registers[COND], POS);
}

#[test]
fn and_with_a_negative_immediate_keeps_the_high_bits() {
    let mut vm = VMState::init().unwrap();
    vm.registers[R1] = 0xABCD;
    // AND R0, R1, #-1
    handle_and(0x507F, &mut vm).unwrap();
    assert_eq!(vm.registers[R0], 0xABCD);
    assert_eq!(vm.registers[COND], NEG);
    // AND R0, R1, #0
    handle_and(0x5060, &mut vm).unwrap();
    assert_eq!(vm.registers[R0], 0);
    assert_eq!(vm.registers[COND], ZRO);
    // AND R0, R1, #-16
    handle_and(0x5070, &mut vm).unwrap();
    assert_eq!(vm.registers[R0], 0xABC0);
}

#[test]
fn not_complements_every_bit() {
    let mut vm = VMState::init().unwrap();
    vm.registers[R1] = 0x0F0F;
    // NOT R0, R1
    handle_not(0x907F, &mut vm).unwrap();
    assert_eq!(vm.registers[R0], 0xF0F0);
    assert_eq!(vm.registers[COND], NEG);
    vm.registers[R1] = 0xFFFF;
    handle_not(0x907F, &mut vm).unwrap();
    assert_eq!(vm.registers[R0], 0);
    assert_eq!(vm.registers[COND], ZRO);
}

#[test]
fn branch_on_zero_is_not_taken_under_the_negative_flag() {
    let mut vm = VMState::init().unwrap();
    vm.registers[COND] = NEG;
    handle_br(0x040A, &mut vm).unwrap();
    assert_eq!(vm.registers[PC], 0x3000);
}

#[test]
fn branch_without_condition_bits_is_never_taken() {
    for flag in [POS, ZRO, NEG] {
        let mut vm = VMState::init().unwrap();
        vm.registers[COND] = flag;
        handle_br(0x000A, &mut vm).unwrap();
        assert_eq!(vm.registers[PC], 0x3000);
    }
}

#[test]
fn branch_with_all_condition_bits_is_always_taken() {
    for flag in [POS, ZRO, NEG] {
        let mut vm = VMState::init().unwrap();
        vm.registers[COND] = flag;
        handle_br(0x0E0A, &mut vm).unwrap();
        assert_eq!(vm.registers[PC], 0x300A);
    }
}

#[test]
fn branch_backwards_and_around_the_end_of_memory() {
    let mut vm = VMState::init().unwrap();
    // BRz #-1
    handle_br(0x05FF, &mut vm).unwrap();
    assert_eq!(vm.registers[PC], 0x2FFF);
    // BRz #-256 from 0x0010 wraps around
    vm.registers[PC] = 0x0010;
    handle_br(0x0500, &mut vm).unwrap();
    assert_eq!(vm.registers[PC], 0xFF10);
    // BRz #255 from 0xFFFF wraps around
    vm.registers[PC] = 0xFFFF;
    handle_br(0x04FF, &mut vm).unwrap();
    assert_eq!(vm.registers[PC], 0x00FE);
}

#[test]
fn branch_changes_nothing_but_the_program_counter() {
    let mut vm = VMState::init().unwrap();
    vm.registers[R1] = 9;
    handle_br(0x040A, &mut vm).unwrap();
    assert_eq!(vm.registers, [0, 9, 0, 0, 0, 0, 0, 0, 0x300A, ZRO]);
}

#[test]
fn jump_through_r7_returns() {
    let mut vm = VMState::init().unwrap();
    vm.registers[R7] = 0x4321;
    // RET
    handle_jmp(0xC1C0, &mut vm).unwrap();
    assert_eq!(vm.registers[PC], 0x4321);
    assert_eq!(vm.registers[COND], ZRO);
}

#[test]
fn jsr_with_the_farthest_offsets() {
    let mut vm = VMState::init().unwrap();
    // JSR #1023
    handle_jsr(0x4BFF, &mut vm).unwrap();
    assert_eq!(vm.registers[PC], 0x33FF);
    assert_eq!(vm.registers[R7], 0x3000);
    // JSR #-1024
    handle_jsr(0x4C00, &mut vm).unwrap();
    assert_eq!(vm.registers[PC], 0x2FFF);
    assert_eq!(vm.registers[R7], 0x33FF);
}

#[test]
fn jsrr_through_r7_stays_where_it_is() {
    let mut vm = VMState::init().unwrap();
    vm.registers[R7] = 0x5000;
    // JSRR R7
    handle_jsr(0x41C0, &mut vm).unwrap();
    assert_eq!(vm.registers[R7], 0x3000);
    assert_eq!(vm.registers[PC], 0x3000);
}

#[test]
fn loads_with_negative_offsets() {
    let mut vm = VMState::init().unwrap();
    vm.memory[0x2FFF] = 11;
    vm.memory[0x2F00] = 22;
    // LD R1, #-1
    handle_ld(0x23FF, &mut vm).unwrap();
    assert_eq!(vm.registers[R1], 11);
    // LD R1, #-256
    handle_ld(0x2300, &mut vm).unwrap();
    assert_eq!(vm.registers[R1], 22);
    // LDR R1, R2, #-32
    vm.registers[R2] = 0x4020;
    vm.memory[0x4000] = 33;
    handle_ldr(0x62A0, &mut vm).unwrap();
    assert_eq!(vm.registers[R1], 33);
    // LDR R1, R2, #31
    vm.memory[0x403F] = 44;
    handle_ldr(0x629F, &mut vm).unwrap();
    assert_eq!(vm.registers[R1], 44);
    // LEA R1, #-2
    handle_lea(0xE3FE, &mut vm).unwrap();
    assert_eq!(vm.registers[R1], 0x2FFE);
}

#[test]
fn stores_with_negative_offsets() {
    let mut vm = VMState::init().unwrap();
    vm.registers[R1] = 0xBEEF;
    // ST R1, #-1
    handle_st(0x33FF, &mut vm).unwrap();
    assert_eq!(vm.memory[0x2FFF], 0xBEEF);
    // STR R1, R2, #-1
    vm.registers[R2] = 0;
    handle_str(0x72BF, &mut vm).unwrap();
    assert_eq!(vm.memory[0xFFFF], 0xBEEF);
    // Stores leave the flags alone.
    assert_eq!(vm.registers[COND], ZRO);
}

#[test]
fn store_indirect_goes_through_the_pointer() {
    let mut vm = VMState::init().unwrap();
    vm.registers[R1] = 0x1111;
    vm.memory[0x3009] = 0x1234;
    // STI R1, #9
    handle_sti(0xB209, &mut vm).unwrap();
    assert_eq!(vm.memory[0x1234], 0x1111);
    assert_eq!(vm.memory[0x3009], 0x1234);
}

#[test]
fn a_program_may_overwrite_itself() {
    let mut vm = VMState::init().unwrap();
    vm.memory[0x3000] = 0xF025;
    vm.registers[R1] = 0x1021;
    // ST R1, #0
    handle_st(0x3200, &mut vm).unwrap();
    assert_eq!(vm.memory[0x3000], 0x1021);
}

#[test]
fn write_then_read_returns_the_value_at_every_other_address() {
    let mut vm = VMState::init().unwrap();
    for address in 0..=u16::MAX {
        if address == KBSR {
            continue;
        }
        let value = address ^ 0x5A5A;
        vm.mem_write(address, value);
        assert_eq!(vm.mem_read(address), Ok(value));
        assert_eq!(vm.memory[address as usize], value);
    }
    assert!(vm.keyboard.is_empty());
    assert!(vm.display.is_empty());
    assert_eq!(vm.registers, [0, 0, 0, 0, 0, 0, 0, 0, 0x3000, ZRO]);
}

#[test]
fn write_changes_one_cell() {
    let mut vm = VMState::init().unwrap();
    vm.mem_write(0x4000, 7);
    vm.mem_write(0x4001, 8);
    vm.mem_write(0x4000, 9);
    assert_eq!(vm.memory[0x4000], 9);
    assert_eq!(vm.memory[0x4001], 8);
    assert_eq!(vm.memory[0x3FFF], 0);
    assert_eq!(vm.memory.iter().filter(|cell| **cell != 0).count(), 2);
}

#[test]
fn keyboard_status_written_is_not_what_is_read() {
    let mut vm = VMState::init().unwrap();
    vm.mem_write(KBSR, 0x1234);
    assert_eq!(vm.memory[KBSR as usize], 0x1234);
    assert_eq!(vm.mem_read(KBSR), Ok(0));
    assert_eq!(vm.memory[KBSR as usize], 0);
}

#[test]
fn keyboard_status_is_clear_while_no_key_is_waiting() {
    let mut vm = VMState::init().unwrap();
    vm.memory[KBDR as usize] = 0x0061;
    vm.memory[KBSR as usize] = 0x8000;
    assert_eq!(vm.mem_read(KBSR), Ok(0));
    assert_eq!(vm.memory[KBSR as usize], 0);
    assert_eq!(vm.memory[KBDR as usize], 0x0061);
    assert!(vm.keyboard.is_empty());
}

#[test]
fn keyboard_status_is_ready_when_a_key_is_waiting() {
    let mut vm = VMState::init().unwrap();
    vm.keyboard.push_back(Ok(0x61));
    vm.keyboard.push_back(Ok(0x62));
    assert_eq!(vm.mem_read(KBSR), Ok(0x8000));
    assert_eq!(vm.memory[KBSR as usize], 0x8000);
    assert_eq!(vm.memory[KBDR as usize], 0x0061);
    assert_eq!(vm.keyboard.len(), 1);
    // Reading the data cell asks the keyboard for nothing.
    assert_eq!(vm.mem_read(KBDR), Ok(0x0061));
    assert_eq!(vm.keyboard.len(), 1);
    // Every read of the status cell asks again.
    assert_eq!(vm.mem_read(KBSR), Ok(0x8000));
    assert_eq!(vm.memory[KBDR as usize], 0x0062);
    assert_eq!(vm.mem_read(KBSR), Ok(0));
    assert_eq!(vm.memory[KBDR as usize], 0x0062);
}

#[test]
fn a_null_key_counts_as_no_key() {
    let mut vm = VMState::init().unwrap();
    vm.memory[KBDR as usize] = 0x0061;
    vm.keyboard.push_back(Ok(0));
    vm.keyboard.push_back(Ok(0x62));
    assert_eq!(vm.mem_read(KBSR), Ok(0));
    assert_eq!(vm.memory[KBDR as usize], 0x0061);
    assert_eq!(vm.keyboard.len(), 1);
}

#[test]
fn load_from_the_keyboard_status_cell_asks_the_keyboard() {
    let mut vm = VMState::init().unwrap();
    vm.keyboard.push_back(Ok(0x7A));
    vm.registers[R2] = KBSR;
    // LDR R1, R2, #0
    handle_ldr(0x6280, &mut vm).unwrap();
    assert_eq!(vm.registers[R1], 0x8000);
    assert_eq!(vm.registers[COND], NEG);
    assert_eq!(vm.memory[KBDR as usize], 0x007A);
    // LDR R1, R2, #2
    handle_ldr(0x6282, &mut vm).unwrap();
    assert_eq!(vm.registers[R1], 0x007A);
    assert_eq!(vm.registers[COND], POS);
}

#[test]
fn load_indirect_through_the_keyboard_status_cell() {
    let mut vm = VMState::init().unwrap();
    vm.keyboard.push_back(Ok(0x7A));
    vm.registers[PC] = KBSR;
    vm.memory[0x8000] = 0x0042;
    // LDI R1, #0: the pointer is the status cell, which reads as ready.
    handle_ldi(0xA200, &mut vm).unwrap();
    assert_eq!(vm.registers[R1], 0x0042);
    assert_eq!(vm.memory[KBDR as usize], 0x007A);
    assert!(vm.keyboard.is_empty());
}

#[test]
fn image_with_a_byte_left_over() {
    let mut vm = VMState::init().unwrap();
    vm.write_ixs_to_mem(vec![0x40, 0x00, 0x12, 0x34, 0x56]);
    assert_eq!(vm.memory[0x4000], 0x1234);
    assert_eq!(vm.memory[0x4001], 0);
    assert_eq!(vm.memory.iter().filter(|cell| **cell != 0).count(), 1);
}

#[test]
fn image_with_nothing_but_an_origin() {
    let mut vm = VMState::init().unwrap();
    vm.write_ixs_to_mem(vec![0x30, 0x00]);
    assert!(vm.memory.iter().all(|cell| *cell == 0));
    vm.write_ixs_to_mem(vec![0x30, 0x00, 0xFF]);
    assert!(vm.memory.iter().all(|cell| *cell == 0));
}

#[test]
fn image_leaves_registers_and_console_alone() {
    let mut vm = VMState::init().unwrap();
    vm.keyboard.push_back(Ok(1));
    vm.display.push(2);
    vm.write_ixs_to_mem(vec![0x40, 0x00, 0x12, 0x34]);
    assert_eq!(vm.registers, [0, 0, 0, 0, 0, 0, 0, 0, 0x3000, ZRO]);
    assert_eq!(vm.keyboard.len(), 1);
    assert_eq!(vm.display, vec![2]);
}

#[test]
fn image_wraps_around_the_end_of_memory() {
    let mut vm = VMState::init().unwrap();
    vm.write_ixs_to_mem(vec![0xFF, 0xFF, 0x00, 0x01, 0x00, 0x02, 0x00, 0x03]);
    assert_eq!(vm.memory[0xFFFF], 1);
    assert_eq!(vm.memory[0x0000], 2);
    assert_eq!(vm.memory[0x0001], 3);
}

#[test]
fn image_longer_than_memory_keeps_the_last_word_of_each_cell() {
    let mut vm = VMState::init().unwrap();
    let mut image = vec![0x00, 0x10];
    for k in 0..65538u32 {
        let word = (k % 65521) as u16;
        image.extend_from_slice(&word.to_be_bytes());
    }
    vm.write_ixs_to_mem(image);
    // Words 65536 and 65537 land on the cells of words 0 and 1.
    assert_eq!(vm.memory[0x0010], 15);
    assert_eq!(vm.memory[0x0011], 16);
    assert_eq!(vm.memory[0x0012], 2);
    assert_eq!(vm.memory[0x000F], 65535 % 65521);
}

#[test]
fn image_overwrites_what_was_there() {
    let mut vm = VMState::init().unwrap();
    vm.memory[0x3000] = 0xAAAA;
    vm.memory[0x3001] = 0xBBBB;
    vm.memory[0x3002] = 0xCCCC;
    vm.write_ixs_to_mem(vec![0x30, 0x00, 0x00, 0x00, 0x00, 0x01]);
    assert_eq!(vm.memory[0x3000], 0);
    assert_eq!(vm.memory[0x3001], 1);
    assert_eq!(vm.memory[0x3002], 0xCCCC);
}

#[test]
fn keyboard_failure_fails_the_read_of_the_status_cell() {
    let mut vm = VMState::init().unwrap();
    vm.memory[KBSR as usize] = 0x8000;
    vm.memory[KBDR as usize] = 0x0061;
    vm.keyboard.push_back(Err(String::from("keyboard unplugged")));
    // No other cell is affected by the failure.
    assert_eq!(vm.mem_read(KBDR), Ok(0x0061));
    assert_eq!(vm.mem_read(0x3000), Ok(0));
    assert_eq!(vm.keyboard.len(), 1);
    assert_eq!(
        vm.mem_read(KBSR),
        Err(VMError::CouldNotReadChar(String::from("keyboard unplugged")))
    );
    assert_eq!(vm.memory[KBSR as usize], 0x8000);
    assert_eq!(vm.memory[KBDR as usize], 0x0061);
    assert_eq!(vm.registers, [0, 0, 0, 0, 0, 0, 0, 0, 0x3000, ZRO]);
    // The failure is reported once.
    assert!(vm.keyboard.is_empty());
    assert_eq!(vm.mem_read(KBSR), Ok(0));
}

#[test]
fn keyboard_failure_is_met_after_the_keys_before_it() {
    let mut vm = VMState::init().unwrap();
    vm.keyboard.push_back(Ok(0x61));
    vm.keyboard.push_back(Err(String::from("end of input")));
    assert_eq!(vm.mem_read(KBSR), Ok(0x8000));
    assert_eq!(vm.memory[KBDR as usize], 0x0061);
    assert_eq!(
        vm.mem_read(KBSR),
        Err(VMError::CouldNotReadChar(String::from("end of input")))
    );
    assert_eq!(vm.memory[KBSR as usize], 0x8000);
    assert_eq!(vm.memory[KBDR as usize], 0x0061);
}

#[test]
fn loads_fail_when_the_keyboard_has_failed() {
    let gone = || Err(VMError::CouldNotReadChar(String::from("gone")));

    // LD R1, #0 with the program counter at the status cell
    let mut vm = VMState::init().unwrap();
    vm.keyboard.push_back(Err(String::from("gone")));
    vm.registers[PC] = KBSR;
    vm.registers[R1] = 7;
    assert_eq!(handle_ld(0x2200, &mut vm), gone());
    assert_eq!(vm.registers, [0, 7, 0, 0, 0, 0, 0, 0, KBSR, ZRO]);

    // LDR R1, R2, #0 with R2 at the status cell
    let mut vm = VMState::init().unwrap();
    vm.keyboard.push_back(Err(String::from("gone")));
    vm.registers[R2] = KBSR;
    assert_eq!(handle_ldr(0x6280, &mut vm), gone());
    assert_eq!(vm.registers, [0, 0, KBSR, 0, 0, 0, 0, 0, 0x3000, ZRO]);

    // LDI R1, #0: the pointer is the status cell
    let mut vm = VMState::init().unwrap();
    vm.keyboard.push_back(Err(String::from("gone")));
    vm.registers[PC] = KBSR;
    assert_eq!(handle_ldi(0xA200, &mut vm), gone());
    assert_eq!(vm.registers[R1], 0);

    // LDI R1, #0: the pointer points to the status cell
    let mut vm = VMState::init().unwrap();
    vm.keyboard.push_back(Err(String::from("gone")));
    vm.memory[0x3000] = KBSR;
    assert_eq!(handle_ldi(0xA200, &mut vm), gone());
    assert_eq!(vm.registers[R1], 0);

    // STI R1, #0: the pointer is the status cell
    let mut vm = VMState::init().unwrap();
    vm.keyboard.push_back(Err(String::from("gone")));
    vm.registers[PC] = KBSR;
    vm.registers[R1] = 0x1111;
    assert_eq!(handle_sti(0xB200, &mut vm), gone());
    assert!(vm.memory.iter().all(|cell| *cell == 0));
}

#[test]
fn loads_elsewhere_do_not_meet_the_failure_of_the_keyboard() {
    let mut vm = VMState::init().unwrap();
    vm.keyboard.push_back(Err(String::from("gone")));
    vm.memory[0x3001] = 5;
    assert_eq!(handle_ld(0x2201, &mut vm), Ok(()));
    assert_eq!(vm.registers[R1], 5);
    assert_eq!(vm.keyboard.len(), 1);
}
