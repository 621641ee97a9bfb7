use vstd::prelude::*;
use crate::error::VMError;
use crate::flags::Flag;

verus! {

/// Address of the keyboard status cell.
pub const KBSR: u16 = 0xFE00;

/// Address of the keyboard data cell.
pub const KBDR: u16 = 0xFE02;

/// What the keyboard status cell holds when a key is ready: its highest bit.
pub const KEY_READY: u16 = 0x8000;

/// The word that stands for the integer `i`: its residue modulo 65536.
/// All address and register arithmetic of the machine goes through it.
pub open spec fn wrap(i: int) -> u16 {
    (i % 0x1_0000) as u16
}

/// The value of `field`, a number below `modulus`, read as a two's-complement
/// number of as many bits as `modulus` is a power of two.
pub open spec fn signed(field: int, modulus: int) -> int {
    if 2 * field >= modulus {
        field - modulus
    } else {
        field
    }
}

/// The error of a service that needs a key while the keyboard has delivered
/// nothing: `CouldNotReadChar`, with the words "no key is waiting".
pub open spec fn is_no_key_error(e: VMError) -> bool {
    e matches VMError::CouldNotReadChar(cause) && cause@ == "no key is waiting"@
}

/// The mathematical state of the machine: the memory, the register file,
/// what the keyboard has delivered and the machine has not yet consumed
/// (oldest first: a key, or the cause for which the keyboard failed), and the
/// characters that were written and not yet taken away (oldest first).
pub struct Machine {
    pub memory: Seq<u16>,
    pub registers: Seq<u16>,
    pub keyboard: Seq<Result<u8, String>>,
    pub display: Seq<u8>,
}

impl Machine {
    /// The memory has 65536 cells and the register file ten registers.
    pub open spec fn wf(self) -> bool {
        &&& self.memory.len() == 0x1_0000
        &&& self.registers.len() == 10
    }

    /// The content of register `r` (0 to 7 general, 8 the program counter, 9 the condition register).
    pub open spec fn reg(self, r: int) -> u16 {
        self.registers[r]
    }

    /// The program counter.
    pub open spec fn pc(self) -> u16 {
        self.registers[8]
    }

    /// The condition register.
    pub open spec fn cond(self) -> u16 {
        self.registers[9]
    }

    /// The machine with `value` in register `r`, flags untouched.
    pub open spec fn set_reg(self, r: int, value: u16) -> Machine {
        Machine { registers: self.registers.update(r, value), ..self }
    }

    /// The machine with the program counter at `value`.
    pub open spec fn set_pc(self, value: u16) -> Machine {
        self.set_reg(8, value)
    }

    /// The machine with `value` in the general-purpose register `r` and the
    /// condition register set to the flag of `value`.
    pub open spec fn load(self, r: int, value: u16) -> Machine {
        self.set_reg(r, value).set_reg(9, Flag::of(value).bits())
    }

    /// The condition register holds exactly one of the three flags.
    pub open spec fn one_flag(self) -> bool {
        self.cond() == Flag::Pos.bits() || self.cond() == Flag::Zro.bits() || self.cond()
            == Flag::Neg.bits()
    }

    /// The condition register holds the flag of what register `r` holds.
    pub open spec fn flag_reflects(self, r: int) -> bool {
        &&& self.cond() == Flag::Zro.bits() <==> self.reg(r) == 0
        &&& self.cond() == Flag::Neg.bits() <==> self.reg(r) >= 0x8000
        &&& self.cond() == Flag::Pos.bits() <==> 0 < self.reg(r) < 0x8000
    }

    /// The machine with `value` in the memory cell at `address`.
    pub open spec fn write(self, address: u16, value: u16) -> Machine {
        Machine { memory: self.memory.update(address as int, value), ..self }
    }

    /// The keyboard has delivered a key that waits to be consumed.
    pub open spec fn key_waiting(self) -> bool {
        self.keyboard.len() > 0 && self.keyboard[0] is Ok
    }

    /// The key that waits to be consumed.
    pub open spec fn key(self) -> u8 {
        self.keyboard[0]->Ok_0
    }

    /// A key is waiting, and it is not the null character.
    pub open spec fn key_ready(self) -> bool {
        self.key_waiting() && self.key() != 0
    }

    /// The keyboard has failed, and every key that it delivered before has
    /// been consumed.
    pub open spec fn keyboard_failed(self) -> bool {
        self.keyboard.len() > 0 && self.keyboard[0] is Err
    }

    /// The keyboard has not failed: all that it has delivered are keys.
    pub open spec fn keyboard_works(self) -> bool {
        forall|i: int| 0 <= i < self.keyboard.len() ==> (#[trigger] self.keyboard[i]) is Ok
    }

    /// The error with which the machine gives up when it meets the failure of
    /// the keyboard: it carries the cause that the keyboard gave.
    pub open spec fn failure(self) -> VMError {
        VMError::CouldNotReadChar(self.keyboard[0]->Err_0)
    }

    /// The machine with the oldest delivery of the keyboard taken away.
    pub open spec fn drop_key(self) -> Machine {
        Machine { keyboard: self.keyboard.drop_first(), ..self }
    }

    /// The machine after the keyboard was asked for a key. What the keyboard
    /// delivered first is consumed. If it is a key other than the null
    /// character, the status cell is set to ready and the data cell holds the
    /// key. If it is the null character, or if nothing waits, the status cell
    /// is cleared and the data cell keeps what it held. If it is the failure
    /// of the keyboard, the memory stays as it was.
    pub open spec fn poll(self) -> Machine {
        if self.key_ready() {
            Machine {
                memory: self.memory.update(KBSR as int, KEY_READY).update(
                    KBDR as int,
                    self.key() as u16,
                ),
                ..self.drop_key()
            }
        } else if self.key_waiting() {
            Machine { memory: self.memory.update(KBSR as int, 0), ..self.drop_key() }
        } else if self.keyboard_failed() {
            self.drop_key()
        } else {
            Machine { memory: self.memory.update(KBSR as int, 0), ..self }
        }
    }

    /// Reading the cell at `address` fails: it is the keyboard status cell and
    /// the keyboard has failed.
    pub open spec fn read_fails(self, address: u16) -> bool {
        address == KBSR && self.keyboard_failed()
    }

    /// The machine after the cell at `address` was read: reading the keyboard
    /// status cell asks the keyboard for a key, reading any other cell changes
    /// nothing.
    pub open spec fn read(self, address: u16) -> Machine {
        if address == KBSR {
            self.poll()
        } else {
            self
        }
    }

    /// What reading the cell at `address` yields where it does not fail: for
    /// the keyboard status cell the status after the keyboard was asked, for
    /// any other cell its content.
    pub open spec fn read_value(self, address: u16) -> u16 {
        if address == KBSR {
            if self.key_ready() {
                KEY_READY
            } else {
                0
            }
        } else {
            self.memory[address as int]
        }
    }

    /// What reading the cell at `address` returns: the word read, or the
    /// failure of the keyboard.
    pub open spec fn read_result(self, address: u16) -> Result<u16, VMError> {
        if self.read_fails(address) {
            Err(self.failure())
        } else {
            Ok(self.read_value(address))
        }
    }

    /// What an instruction returns that does no more than read the cell at
    /// `address` and use the word: success, or the failure of the keyboard.
    pub open spec fn read_outcome(self, address: u16) -> Result<(), VMError> {
        if self.read_fails(address) {
            Err(self.failure())
        } else {
            Ok(())
        }
    }

    /// The machine after `byte` was written to the console.
    pub open spec fn emit(self, byte: u8) -> Machine {
        Machine { display: self.display.push(byte), ..self }
    }

    /// The machine after all of `bytes` were written to the console, in order.
    pub open spec fn emit_all(self, bytes: Seq<u8>) -> Machine {
        Machine { display: self.display + bytes, ..self }
    }
}

/// Writing a word and reading the same cell back yields that word, for every
/// cell but the keyboard status cell, and the read changes nothing.
pub proof fn lemma_write_then_read(m: Machine, address: u16, value: u16)
    requires
        m.wf(),
        address != KBSR,
    ensures
        m.write(address, value).read_result(address) == Ok::<u16, VMError>(value),
        m.write(address, value).read(address) == m.write(address, value),
{
}

/// Reading the keyboard status cell while no key is ready and the keyboard
/// has not failed yields the cleared status, stores it in the status cell and
/// leaves the keyboard data cell as it was.
pub proof fn lemma_idle_keyboard_reads_clear(m: Machine)
    requires
        m.wf(),
        !m.key_ready(),
        !m.keyboard_failed(),
    ensures
        m.read_result(KBSR) == Ok::<u16, VMError>(0),
        m.read(KBSR).memory[KBSR as int] == 0,
        m.read(KBSR).memory[KBDR as int] == m.memory[KBDR as int],
        m.read(KBSR).registers == m.registers,
        m.read(KBSR).display == m.display,
{
}

/// Reading the keyboard status cell while a key is ready yields the ready
/// status, puts the key into the keyboard data cell and consumes it.
pub proof fn lemma_ready_keyboard_reads_key(m: Machine)
    requires
        m.wf(),
        m.key_ready(),
    ensures
        m.read_result(KBSR) == Ok::<u16, VMError>(KEY_READY),
        m.read(KBSR).memory[KBSR as int] == KEY_READY,
        m.read(KBSR).memory[KBDR as int] == m.key() as u16,
        m.read(KBSR).keyboard == m.keyboard.drop_first(),
{
}

/// Reading the keyboard status cell after the keyboard has failed fails with
/// the cause that the keyboard gave, and changes neither memory nor registers
/// nor console. No other read fails.
pub proof fn lemma_failed_keyboard_fails_read(m: Machine, address: u16)
    ensures
        m.read_result(address) is Err <==> address == KBSR && m.keyboard_failed(),
        m.read_result(address) is Err ==> {
            &&& m.read_result(address) == Err::<u16, VMError>(
                VMError::CouldNotReadChar(m.keyboard[0]->Err_0),
            )
            &&& m.read(address).memory == m.memory
            &&& m.read(address).registers == m.registers
            &&& m.read(address).display == m.display
        },
{
}

/// While the keyboard works, what it delivered first is a key, and with
/// that key consumed the keyboard still works.
pub proof fn lemma_drop_key_keeps_keyboard_working(m: Machine)
    requires
        m.keyboard_works(),
        m.keyboard.len() > 0,
    ensures
        m.key_waiting(),
        m.drop_key().keyboard_works(),
{
    assert(m.keyboard[0] is Ok);
    assert forall|i: int| 0 <= i < m.keyboard.drop_first().len() implies (
    #[trigger] m.keyboard.drop_first()[i]) is Ok by {
        assert(m.keyboard[i + 1] is Ok);
    }
}

/// While the keyboard works no read fails, and the keyboard works afterwards.
pub proof fn lemma_read_keeps_keyboard_working(m: Machine, address: u16)
    requires
        m.keyboard_works(),
    ensures
        !m.read_fails(address),
        m.read(address).keyboard_works(),
{
    if m.keyboard.len() > 0 {
        lemma_drop_key_keeps_keyboard_working(m);
    }
}

/// What a read yields is what the cell holds once the read is done.
pub proof fn lemma_read_value_is_cell(m: Machine, address: u16)
    requires
        m.wf(),
        !m.read_fails(address),
    ensures
        m.read_value(address) == m.read(address).memory[address as int],
        m.read(address).wf(),
{
}

/// Writing a general-purpose register through `load` leaves the condition
/// register with the flag of the value written: zero exactly for 0, negative
/// exactly for a word with its highest bit set, positive for every other word.
pub proof fn lemma_load_sets_flag(m: Machine, r: int, value: u16)
    requires
        m.wf(),
        0 <= r < 8,
    ensures
        m.load(r, value).reg(r) == value,
        m.load(r, value).flag_reflects(r),
        m.load(r, value).one_flag(),
        m.load(r, value).wf(),
{
}

} // verus!
