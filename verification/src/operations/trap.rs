use vstd::prelude::*;
use vstd::std_specs::convert::TryFromSpecImpl;
use vstd::std_specs::convert::TryIntoSpecImpl;
use crate::error::VMError;
use crate::machine::{
    is_no_key_error,
    lemma_read_keeps_keyboard_working,
    wrap,
    Machine,
    KBSR,
};
use crate::operations::utils::{high_byte, lemma_fields, low_byte, trap_vector, update_flags};
use crate::registers::Register;
use crate::vm::VMState;

verus! {

/// The six services that a TRAP instruction can ask for.
#[derive(Clone, Copy, Debug, PartialEq, Eq)]
pub enum TrapCode {
    /// Read one key into R0, without echo.
    Getc,
    /// Write the character in the low byte of R0.
    Out,
    /// Write the string that starts at the address in R0, one character per cell.
    Puts,
    /// Prompt for a key, read it into R0 and echo it.
    In,
    /// Write the string that starts at the address in R0, two characters per cell.
    PutSp,
    /// Stop the machine.
    Halt,
}

impl TrapCode {
    /// The trap vector that asks for this service.
    pub open spec fn vector(self) -> u16 {
        match self {
            TrapCode::Getc => 0x20,
            TrapCode::Out => 0x21,
            TrapCode::Puts => 0x22,
            TrapCode::In => 0x23,
            TrapCode::PutSp => 0x24,
            TrapCode::Halt => 0x25,
        }
    }

    /// The service that `vector` asks for, if it asks for one.
    pub open spec fn of(vector: u16) -> Option<TrapCode> {
        if vector == 0x20 {
            Some(TrapCode::Getc)
        } else if vector == 0x21 {
            Some(TrapCode::Out)
        } else if vector == 0x22 {
            Some(TrapCode::Puts)
        } else if vector == 0x23 {
            Some(TrapCode::In)
        } else if vector == 0x24 {
            Some(TrapCode::PutSp)
        } else if vector == 0x25 {
            Some(TrapCode::Halt)
        } else {
            None
        }
    }

    /// This service reads a key and cannot go on without one.
    pub open spec fn reads_key(self) -> bool {
        self == TrapCode::Getc || self == TrapCode::In
    }
}

impl TryInto<u16> for TrapCode {
    type Error = VMError;

    fn try_into(self) -> (r: Result<u16, Self::Error>) {
        Ok(
            match self {
                TrapCode::Getc => 0x20,
                TrapCode::Out => 0x21,
                TrapCode::Puts => 0x22,
                TrapCode::In => 0x23,
                TrapCode::PutSp => 0x24,
                TrapCode::Halt => 0x25,
            },
        )
    }
}

impl TryIntoSpecImpl<u16> for TrapCode {
    open spec fn obeys_try_into_spec() -> bool {
        true
    }

    open spec fn try_into_spec(self) -> Result<u16, Self::Error> {
        Ok(self.vector())
    }
}

impl TryFrom<u16> for TrapCode {
    type Error = VMError;

    fn try_from(value: u16) -> (r: Result<Self, Self::Error>) {
        let result = match value {
            0x20 => TrapCode::Getc,
            0x21 => TrapCode::Out,
            0x22 => TrapCode::Puts,
            0x23 => TrapCode::In,
            0x24 => TrapCode::PutSp,
            0x25 => TrapCode::Halt,
            _ => return Err(VMError::UnrecognizedTrapCode(value)),
        };
        Ok(result)
    }
}

impl TryFromSpecImpl<u16> for TrapCode {
    open spec fn obeys_try_from_spec() -> bool {
        true
    }

    open spec fn try_from_spec(value: u16) -> Result<Self, Self::Error> {
        match TrapCode::of(value) {
            Some(code) => Ok(code),
            None => Err(VMError::UnrecognizedTrapCode(value)),
        }
    }
}

/// The prompt of the IN service: a line break, the words "Enter a character: "
/// in ASCII, a line break.
pub open spec fn prompt() -> Seq<u8> {
    seq![
        0x0Au8, 0x45, 0x6E, 0x74, 0x65, 0x72, 0x20, 0x61, 0x20, 0x63, 0x68, 0x61, 0x72, 0x61, 0x63,
        0x74, 0x65, 0x72, 0x3A, 0x20, 0x0A,
    ]
}

/// How many cells lie between `address` and the keyboard status cell, going upwards.
pub open spec fn kbsr_distance(address: u16) -> nat {
    ((KBSR - address) % 0x1_0000) as nat
}

/// The low bytes of the `count` cells from `address` upwards.
pub open spec fn string_at(memory: Seq<u16>, address: u16, count: nat) -> Seq<u8> {
    Seq::new(count, |k: int| low_byte(memory[wrap(address + k) as int]))
}

/// Both bytes of each of the `count` cells from `address` upwards, the low
/// byte of a cell before its high byte; then, where the cell after them has a
/// low byte that is not zero, that byte.
pub open spec fn packed_string_at(memory: Seq<u16>, address: u16, count: nat) -> Seq<u8> {
    let pairs = Seq::new(
        2 * count,
        |i: int|
            if i % 2 == 0 {
                low_byte(memory[wrap(address + i / 2) as int])
            } else {
                high_byte(memory[wrap(address + i / 2) as int])
            },
    );
    let last = low_byte(memory[wrap(address + count) as int]);
    if last == 0 {
        pairs
    } else {
        pairs.push(last)
    }
}

impl Machine {
    /// What GETC and IN return once the keyboard has delivered something:
    /// success for a key, the failure of the keyboard for its failure.
    pub open spec fn key_outcome(self) -> Result<(), VMError> {
        if self.keyboard_failed() {
            Err(self.failure())
        } else {
            Ok(())
        }
    }

    /// The machine after GETC. A waiting key is consumed, R0 holds it and the
    /// flags follow it. The failure of the keyboard is consumed and nothing
    /// else changes. With nothing delivered nothing changes.
    pub open spec fn trap_getc(self) -> Machine {
        if self.key_waiting() {
            self.drop_key().load(0, self.key() as u16)
        } else if self.keyboard_failed() {
            self.drop_key()
        } else {
            self
        }
    }

    /// The machine after OUT: the low byte of R0 was written to the console.
    pub open spec fn trap_out(self) -> Machine {
        self.emit(low_byte(self.reg(0)))
    }

    /// The machine after the cells from `address` upwards were written to the
    /// console, the low byte of each, up to the first cell that reads as zero
    /// or fails to be read. Addresses wrap around, and reading the keyboard
    /// status cell on the way asks the keyboard for a key as any read of it does.
    #[verifier::opaque]
    pub open spec fn puts_from(self, address: u16) -> Machine
        decreases self.keyboard.len(), kbsr_distance(address),
    {
        let cell = self.read_value(address);
        if self.read_fails(address) || cell == 0 {
            self.read(address)
        } else {
            self.read(address).emit(low_byte(cell)).puts_from(wrap(address + 1))
        }
    }

    /// What writing the string at `address` returns: the failure of the
    /// keyboard if the string runs into it, success otherwise.
    #[verifier::opaque]
    pub open spec fn puts_result(self, address: u16) -> Result<(), VMError>
        decreases self.keyboard.len(), kbsr_distance(address),
    {
        let cell = self.read_value(address);
        if self.read_fails(address) {
            Err(self.failure())
        } else if cell == 0 {
            Ok(())
        } else {
            self.read(address).emit(low_byte(cell)).puts_result(wrap(address + 1))
        }
    }

    /// The machine after PUTS: the string that starts at the address in R0 was written.
    pub open spec fn trap_puts(self) -> Machine {
        self.puts_from(self.reg(0))
    }

    /// The machine after the cells from `address` upwards were written to the
    /// console, two characters per cell, the low byte before the high byte.
    /// The string ends before a cell whose low byte is zero or that fails to
    /// be read, and after the low byte of a cell whose high byte is zero.
    #[verifier::opaque]
    pub open spec fn putsp_from(self, address: u16) -> Machine
        decreases kbsr_distance(address),
    {
        let cell = self.read_value(address);
        if self.read_fails(address) || low_byte(cell) == 0 {
            self.read(address)
        } else if high_byte(cell) == 0 {
            self.read(address).emit(low_byte(cell))
        } else {
            self.read(address).emit(low_byte(cell)).emit(high_byte(cell)).putsp_from(
                wrap(address + 1),
            )
        }
    }

    /// What writing the packed string at `address` returns: the failure of
    /// the keyboard if the string runs into it, success otherwise.
    #[verifier::opaque]
    pub open spec fn putsp_result(self, address: u16) -> Result<(), VMError>
        decreases kbsr_distance(address),
    {
        let cell = self.read_value(address);
        if self.read_fails(address) {
            Err(self.failure())
        } else if low_byte(cell) == 0 || high_byte(cell) == 0 {
            Ok(())
        } else {
            self.read(address).emit(low_byte(cell)).emit(high_byte(cell)).putsp_result(
                wrap(address + 1),
            )
        }
    }

    /// The machine after PUTSP: the packed string that starts at the address in R0 was written.
    pub open spec fn trap_putsp(self) -> Machine {
        self.putsp_from(self.reg(0))
    }

    /// The machine after the part of IN that follows the prompt. A waiting
    /// key is consumed, R0 holds it, it was echoed to the console, and the
    /// flags follow it. The failure of the keyboard is consumed and nothing
    /// else changes. With nothing delivered nothing changes.
    pub open spec fn read_echoed(self) -> Machine {
        if self.key_waiting() {
            self.drop_key().load(0, self.key() as u16).emit(self.key())
        } else if self.keyboard_failed() {
            self.drop_key()
        } else {
            self
        }
    }

    /// The machine after IN: the prompt was written, then the key was read and echoed.
    pub open spec fn trap_in(self) -> Machine {
        self.emit_all(prompt()).read_echoed()
    }

    /// The machine after the TRAP instruction `ix`. HALT and a vector that
    /// asks for no service leave it as it is.
    pub open spec fn op_trap(self, ix: u16) -> Machine {
        match TrapCode::of(trap_vector(ix)) {
            Some(TrapCode::Getc) => self.trap_getc(),
            Some(TrapCode::Out) => self.trap_out(),
            Some(TrapCode::Puts) => self.trap_puts(),
            Some(TrapCode::In) => self.trap_in(),
            Some(TrapCode::PutSp) => self.trap_putsp(),
            Some(TrapCode::Halt) => self,
            None => self,
        }
    }

    /// The TRAP instruction `ix` asks for a key while the keyboard has
    /// delivered nothing.
    pub open spec fn trap_lacks_key(self, ix: u16) -> bool {
        &&& TrapCode::of(trap_vector(ix)) matches Some(code)
        &&& code.reads_key()
        &&& self.keyboard.len() == 0
    }

    /// What the TRAP instruction `ix` returns, unless it lacks a key: an
    /// error for a vector that names no service, the failure of the keyboard
    /// where the service meets it, success otherwise.
    pub open spec fn op_trap_result(self, ix: u16) -> Result<(), VMError> {
        match TrapCode::of(trap_vector(ix)) {
            Some(TrapCode::Getc) => self.key_outcome(),
            Some(TrapCode::Out) => Ok(()),
            Some(TrapCode::Puts) => self.puts_result(self.reg(0)),
            Some(TrapCode::In) => self.key_outcome(),
            Some(TrapCode::PutSp) => self.putsp_result(self.reg(0)),
            Some(TrapCode::Halt) => Ok(()),
            None => Err(VMError::UnrecognizedTrapCode(trap_vector(ix))),
        }
    }

    /// A string of `count` characters stands at `address`, one per cell, and
    /// ends with a zero cell before it reaches the keyboard status cell.
    pub open spec fn holds_string(self, address: u16, count: nat) -> bool {
        &&& forall|k: int| 0 <= k <= count ==> #[trigger] wrap(address + k) != KBSR
        &&& forall|k: int| 0 <= k < count ==> self.memory[#[trigger] wrap(address + k) as int] != 0
        &&& self.memory[wrap(address + count) as int] == 0
    }

    /// A packed string stands at `address`: `count` cells with two characters
    /// each, then a cell that ends it, with a zero low byte or a zero high
    /// byte, before the string reaches the keyboard status cell.
    pub open spec fn holds_packed_string(self, address: u16, count: nat) -> bool {
        &&& forall|k: int| 0 <= k <= count ==> #[trigger] wrap(address + k) != KBSR
        &&& forall|k: int|
            0 <= k < count ==> low_byte(self.memory[#[trigger] wrap(address + k) as int]) != 0
                && high_byte(self.memory[wrap(address + k) as int]) != 0
        &&& low_byte(self.memory[wrap(address + count) as int]) == 0 || high_byte(
            self.memory[wrap(address + count) as int],
        ) == 0
    }
}

/// A string that ends before the keyboard status cell is written as it
/// stands in memory, without fail, and nothing else changes.
pub proof fn lemma_puts_writes_string(m: Machine, address: u16, count: nat)
    requires
        m.holds_string(address, count),
    ensures
        m.puts_from(address) == m.emit_all(string_at(m.memory, address, count)),
        m.puts_result(address) == Ok::<(), VMError>(()),
    decreases count,
{
    reveal(Machine::puts_from);
    reveal(Machine::puts_result);
    assert(wrap(address + 0) == address);
    if count == 0 {
        assert(m.display + string_at(m.memory, address, 0) =~= m.display);
    } else {
        let cell = m.memory[address as int];
        let next = m.emit(low_byte(cell));
        let rest = (count - 1) as nat;
        assert forall|k: int| 0 <= k <= rest implies #[trigger] wrap(wrap(address + 1) + k)
            != KBSR by {
            assert(wrap(wrap(address + 1) + k) == wrap(address + (k + 1)));
        }
        assert forall|k: int| 0 <= k < rest implies next.memory[#[trigger] wrap(
            wrap(address + 1) + k,
        ) as int] != 0 by {
            assert(wrap(wrap(address + 1) + k) == wrap(address + (k + 1)));
        }
        assert(wrap(wrap(address + 1) + rest) == wrap(address + count));
        lemma_puts_writes_string(next, wrap(address + 1), rest);
        let tail = string_at(m.memory, wrap(address + 1), rest);
        let whole = string_at(m.memory, address, count);
        assert forall|k: int| 0 <= k < rest implies tail[k] == whole[k + 1] by {
            assert(wrap(wrap(address + 1) + k) == wrap(address + (k + 1)));
        }
        assert(m.display.push(low_byte(cell)) + tail =~= m.display + whole);
    }
}

/// A packed string that ends before the keyboard status cell is written as
/// it stands in memory, without fail, and nothing else changes.
pub proof fn lemma_putsp_writes_string(m: Machine, address: u16, count: nat)
    requires
        m.holds_packed_string(address, count),
    ensures
        m.putsp_from(address) == m.emit_all(packed_string_at(m.memory, address, count)),
        m.putsp_result(address) == Ok::<(), VMError>(()),
    decreases count,
{
    reveal(Machine::putsp_from);
    reveal(Machine::putsp_result);
    assert(wrap(address + 0) == address);
    let cell = m.memory[address as int];
    if count == 0 {
        let whole = packed_string_at(m.memory, address, 0);
        if low_byte(cell) == 0 {
            assert(m.display + whole =~= m.display);
        } else {
            assert(m.display + whole =~= m.display.push(low_byte(cell)));
        }
    } else {
        let next = m.emit(low_byte(cell)).emit(high_byte(cell));
        let rest = (count - 1) as nat;
        assert forall|k: int| 0 <= k <= rest implies #[trigger] wrap(wrap(address + 1) + k)
            != KBSR by {
            assert(wrap(wrap(address + 1) + k) == wrap(address + (k + 1)));
        }
        assert forall|k: int| 0 <= k < rest implies low_byte(
            next.memory[#[trigger] wrap(wrap(address + 1) + k) as int],
        ) != 0 && high_byte(next.memory[wrap(wrap(address + 1) + k) as int]) != 0 by {
            assert(wrap(wrap(address + 1) + k) == wrap(address + (k + 1)));
        }
        assert(wrap(wrap(address + 1) + rest) == wrap(address + count));
        lemma_putsp_writes_string(next, wrap(address + 1), rest);
        let tail = packed_string_at(m.memory, wrap(address + 1), rest);
        let whole = packed_string_at(m.memory, address, count);
        assert(whole.len() == tail.len() + 2);
        assert forall|i: int| 0 <= i < tail.len() implies tail[i] == whole[i + 2] by {
            assert(wrap(wrap(address + 1) + i / 2) == wrap(address + (i / 2 + 1)));
            assert((i + 2) / 2 == i / 2 + 1);
            assert(wrap(wrap(address + 1) + rest) == wrap(address + count));
        }
        assert(m.display.push(low_byte(cell)).push(high_byte(cell)) + tail =~= m.display
            + whole);
    }
}

/// One round of PUTS: a cell that fails to be read or reads as zero ends the
/// string; any other cell is written, and the rest of the string starts one
/// cell further, with less delivered by the keyboard or nearer to the keyboard
/// status cell.
pub proof fn lemma_puts_unfold(m: Machine, address: u16)
    ensures
        m.read_fails(address) ==> m.puts_from(address) == m.read(address) && m.puts_result(
            address,
        ) == Err::<(), VMError>(m.failure()),
        !m.read_fails(address) && m.read_value(address) == 0 ==> m.puts_from(address) == m.read(
            address,
        ) && m.puts_result(address) == Ok::<(), VMError>(()),
        !m.read_fails(address) && m.read_value(address) != 0 ==> {
            let next = m.read(address).emit(low_byte(m.read_value(address)));
            &&& m.puts_from(address) == next.puts_from(wrap(address + 1))
            &&& m.puts_result(address) == next.puts_result(wrap(address + 1))
            &&& (next.keyboard.len() < m.keyboard.len() || (next.keyboard.len()
                == m.keyboard.len() && kbsr_distance(wrap(address + 1)) < kbsr_distance(address)))
        },
{
    reveal(Machine::puts_from);
    reveal(Machine::puts_result);
}

/// One round of PUTSP: a cell that fails to be read or whose low byte is zero
/// ends the string, a cell whose high byte is zero ends it after the low
/// byte; any other cell is written, and the rest of the string starts one
/// cell further, nearer to the keyboard status cell.
pub proof fn lemma_putsp_unfold(m: Machine, address: u16)
    ensures
        m.read_fails(address) ==> m.putsp_from(address) == m.read(address) && m.putsp_result(
            address,
        ) == Err::<(), VMError>(m.failure()),
        !m.read_fails(address) && low_byte(m.read_value(address)) == 0 ==> m.putsp_from(address)
            == m.read(address) && m.putsp_result(address) == Ok::<(), VMError>(()),
        !m.read_fails(address) && low_byte(m.read_value(address)) != 0 && high_byte(
            m.read_value(address),
        ) == 0 ==> m.putsp_from(address) == m.read(address).emit(low_byte(m.read_value(address)))
            && m.putsp_result(address) == Ok::<(), VMError>(()),
        !m.read_fails(address) && low_byte(m.read_value(address)) != 0 && high_byte(
            m.read_value(address),
        ) != 0 ==> {
            let cell = m.read_value(address);
            let next = m.read(address).emit(low_byte(cell)).emit(high_byte(cell));
            &&& m.putsp_from(address) == next.putsp_from(wrap(address + 1))
            &&& m.putsp_result(address) == next.putsp_result(wrap(address + 1))
            &&& kbsr_distance(wrap(address + 1)) < kbsr_distance(address)
        },
{
    reveal(Machine::putsp_from);
    reveal(Machine::putsp_result);
}

/// Writing a string, packed or not, changes no register and keeps the memory
/// at its size, wherever the string starts and whatever it runs through.
pub proof fn lemma_strings_keep_registers(m: Machine, address: u16)
    requires
        m.wf(),
    ensures
        m.puts_from(address).registers == m.registers,
        m.puts_from(address).wf(),
        m.putsp_from(address).registers == m.registers,
        m.putsp_from(address).wf(),
    decreases m.keyboard.len(), kbsr_distance(address),
{
    reveal(Machine::puts_from);
    reveal(Machine::putsp_from);
    let cell = m.read_value(address);
    if !m.read_fails(address) {
        if cell != 0 {
            lemma_strings_keep_registers(m.read(address).emit(low_byte(cell)), wrap(address + 1));
        }
        if low_byte(cell) != 0 && high_byte(cell) != 0 {
            lemma_strings_keep_registers(
                m.read(address).emit(low_byte(cell)).emit(high_byte(cell)),
                wrap(address + 1),
            );
        }
    }
}

/// While the keyboard works, writing a string, packed or not, does not fail,
/// and the keyboard works afterwards.
pub proof fn lemma_strings_never_fail(m: Machine, address: u16)
    requires
        m.keyboard_works(),
    ensures
        m.puts_result(address) == Ok::<(), VMError>(()),
        m.puts_from(address).keyboard_works(),
        m.putsp_result(address) == Ok::<(), VMError>(()),
        m.putsp_from(address).keyboard_works(),
    decreases m.keyboard.len(), kbsr_distance(address),
{
    reveal(Machine::puts_from);
    reveal(Machine::puts_result);
    reveal(Machine::putsp_from);
    reveal(Machine::putsp_result);
    lemma_read_keeps_keyboard_working(m, address);
    let cell = m.read_value(address);
    if cell != 0 {
        lemma_strings_never_fail(m.read(address).emit(low_byte(cell)), wrap(address + 1));
    }
    if low_byte(cell) != 0 && high_byte(cell) != 0 {
        lemma_strings_never_fail(
            m.read(address).emit(low_byte(cell)).emit(high_byte(cell)),
            wrap(address + 1),
        );
    }
}

/// Writes one character to the console.
fn print_char(vm: &mut VMState, byte: u8)
    ensures
        final(vm)@ == old(vm)@.emit(byte),
{
    vm.display.push(byte);
}

/// Takes what the keyboard delivered first: a key, or its failure, which
/// becomes the error. With nothing delivered there is nothing to take, which
/// is an error too.
fn take_key(vm: &mut VMState) -> (r: Result<u8, VMError>)
    ensures
        old(vm)@.keyboard.len() > 0 ==> final(vm)@ == old(vm)@.drop_key(),
        old(vm)@.keyboard.len() == 0 ==> final(vm)@ == old(vm)@,
        old(vm)@.key_waiting() ==> r == Ok::<u8, VMError>(old(vm)@.key()),
        old(vm)@.keyboard_failed() ==> r == Err::<u8, VMError>(old(vm)@.failure()),
        old(vm)@.keyboard.len() == 0 ==> r is Err && is_no_key_error(r->Err_0),
{
    match vm.keyboard.pop_front() {
        Some(Ok(key)) => {
            assert(vm.keyboard@ =~= old(vm)@.keyboard.drop_first());
            Ok(key)
        },
        Some(Err(cause)) => {
            assert(vm.keyboard@ =~= old(vm)@.keyboard.drop_first());
            Err(VMError::CouldNotReadChar(cause))
        },
        None => Err(VMError::CouldNotReadChar("no key is waiting".to_owned())),
    }
}

/// GETC: takes the oldest waiting key into R0 and sets the flags from it.
/// Nothing is written to the console. Fails with the failure of the
/// keyboard, which it consumes, where that is what the keyboard delivered
/// first, and fails, changing nothing, where the keyboard has delivered nothing.
pub fn handle_getc(vm: &mut VMState) -> (r: Result<(), VMError>)
    ensures
        final(vm)@ == old(vm)@.trap_getc(),
        r is Ok <==> old(vm)@.key_waiting(),
        old(vm)@.keyboard.len() > 0 ==> r == old(vm)@.key_outcome(),
        old(vm)@.keyboard.len() == 0 ==> r is Err && is_no_key_error(r->Err_0),
        r is Ok ==> final(vm)@.flag_reflects(0) && final(vm)@.reg(0) == old(vm)@.key(),
{
    let key = take_key(vm)?;
    vm.registers[Register::R0.usize()] = key as u16;
    update_flags(vm, key as u16)?;
    Ok(())
}

/// OUT: writes the low byte of R0 to the console. Never fails.
pub fn handle_out(vm: &mut VMState) -> (r: Result<(), VMError>)
    ensures
        r is Ok,
        final(vm)@ == old(vm)@.trap_out(),
{
    proof {
        lemma_fields(vm.registers[0]);
    }
    let byte = (vm.registers[Register::R0.usize()] & 0xFF) as u8;
    print_char(vm, byte);
    Ok(())
}

/// PUTS: writes the string that starts at the address in R0, one character
/// per cell, up to the first cell that reads as zero. Where the string ends
/// before the keyboard status cell, nothing but the console changes and the
/// service succeeds. Fails only where the string runs into the keyboard
/// status cell after the keyboard has failed; what came before that cell has
/// been written by then.
#[verifier::spinoff_prover]
#[verifier::rlimit(50)]
pub fn handle_puts(vm: &mut VMState) -> (r: Result<(), VMError>)
    ensures
        final(vm)@ == old(vm)@.trap_puts(),
        r == old(vm)@.puts_result(old(vm)@.reg(0)),
        forall|count: nat| #[trigger]
            old(vm)@.holds_string(old(vm)@.reg(0), count) ==> r is Ok && final(vm)@ == old(
                vm,
            )@.emit_all(string_at(old(vm)@.memory, old(vm)@.reg(0), count)),
{
    proof {
        assert forall|count: nat| #[trigger]
            vm@.holds_string(vm@.reg(0), count) implies vm@.puts_result(vm@.reg(0)) is Ok
            && vm@.trap_puts() == vm@.emit_all(string_at(vm@.memory, vm@.reg(0), count)) by {
            lemma_puts_writes_string(vm@, vm@.reg(0), count);
        }
    }
    let mut memory_address = vm.registers[Register::R0.usize()];
    let ghost mut before = vm@;
    proof {
        lemma_puts_unfold(before, memory_address);
    }
    let mut content = vm.mem_read(memory_address)?;
    while content != 0
        invariant
            !before.read_fails(memory_address),
            vm@ == before.read(memory_address),
            content == before.read_value(memory_address),
            old(vm)@.trap_puts() == before.puts_from(memory_address),
            old(vm)@.puts_result(old(vm)@.reg(0)) == before.puts_result(memory_address),
            content == 0 ==> before.puts_from(memory_address) == before.read(memory_address)
                && before.puts_result(memory_address) == Ok::<(), VMError>(()),
            forall|count: nat| #[trigger]
                old(vm)@.holds_string(old(vm)@.reg(0), count) ==> old(vm)@.puts_result(
                    old(vm)@.reg(0),
                ) is Ok && old(vm)@.trap_puts() == old(vm)@.emit_all(
                    string_at(old(vm)@.memory, old(vm)@.reg(0), count),
                ),
        decreases before.keyboard.len(), kbsr_distance(memory_address),
    {
        proof {
            lemma_fields(content);
            lemma_puts_unfold(before, memory_address);
        }
        print_char(vm, (content & 0xFF) as u8);
        memory_address = memory_address.wrapping_add(1);
        proof {
            before = vm@;
            lemma_puts_unfold(before, memory_address);
        }
        content = vm.mem_read(memory_address)?;
    }
    Ok(())
}

/// PUTSP: writes the string that starts at the address in R0, two characters
/// per cell, the low byte first. The string ends before a cell whose low byte
/// is zero, and after the low byte of a cell whose high byte is zero. Where it
/// ends before the keyboard status cell, nothing but the console changes and
/// the service succeeds. Fails only where the string runs into the keyboard
/// status cell after the keyboard has failed; what came before that cell has
/// been written by then.
#[verifier::spinoff_prover]
#[verifier::rlimit(50)]
pub fn handle_putsp(vm: &mut VMState) -> (r: Result<(), VMError>)
    ensures
        final(vm)@ == old(vm)@.trap_putsp(),
        r == old(vm)@.putsp_result(old(vm)@.reg(0)),
        forall|count: nat| #[trigger]
            old(vm)@.holds_packed_string(old(vm)@.reg(0), count) ==> r is Ok && final(vm)@
                == old(vm)@.emit_all(packed_string_at(old(vm)@.memory, old(vm)@.reg(0), count)),
{
    proof {
        assert forall|count: nat| #[trigger]
            vm@.holds_packed_string(vm@.reg(0), count) implies vm@.putsp_result(vm@.reg(0)) is Ok
            && vm@.trap_putsp() == vm@.emit_all(
            packed_string_at(vm@.memory, vm@.reg(0), count),
        ) by {
            lemma_putsp_writes_string(vm@, vm@.reg(0), count);
        }
    }
    let mut memory_address = vm.registers[Register::R0.usize()];
    let ghost mut before = vm@;
    proof {
        lemma_putsp_unfold(before, memory_address);
    }
    let mut content = vm.mem_read(memory_address)?;
    proof {
        lemma_fields(content);
    }
    while (content & 0xFF) != 0
        invariant
            !before.read_fails(memory_address),
            vm@ == before.read(memory_address),
            content == before.read_value(memory_address),
            content & 0xFF == low_byte(content),
            old(vm)@.trap_putsp() == before.putsp_from(memory_address),
            old(vm)@.putsp_result(old(vm)@.reg(0)) == before.putsp_result(memory_address),
            low_byte(content) == 0 ==> before.putsp_from(memory_address) == before.read(
                memory_address,
            ) && before.putsp_result(memory_address) == Ok::<(), VMError>(()),
            forall|count: nat| #[trigger]
                old(vm)@.holds_packed_string(old(vm)@.reg(0), count) ==> old(vm)@.putsp_result(
                    old(vm)@.reg(0),
                ) is Ok && old(vm)@.trap_putsp() == old(vm)@.emit_all(
                    packed_string_at(old(vm)@.memory, old(vm)@.reg(0), count),
                ),
        decreases kbsr_distance(memory_address),
    {
        proof {
            lemma_fields(content);
            lemma_putsp_unfold(before, memory_address);
        }
        print_char(vm, (content & 0xFF) as u8);
        let high = (content >> 8) as u8;
        if high == 0 {
            return Ok(());
        }
        print_char(vm, high);
        memory_address = memory_address.wrapping_add(1);
        proof {
            before = vm@;
            lemma_putsp_unfold(before, memory_address);
        }
        content = vm.mem_read(memory_address)?;
        proof {
            lemma_fields(content);
        }
    }
    Ok(())
}

/// Writes the prompt of the IN service to the console.
#[verifier::spinoff_prover]
#[verifier::rlimit(50)]
pub(crate) fn print_prompt(vm: &mut VMState)
    ensures
        final(vm)@ == old(vm)@.emit_all(prompt()),
{
    let text: [u8; 21] = [
        0x0A, 0x45, 0x6E, 0x74, 0x65, 0x72, 0x20, 0x61, 0x20, 0x63, 0x68, 0x61, 0x72, 0x61, 0x63,
        0x74, 0x65, 0x72, 0x3A, 0x20, 0x0A,
    ];
    assert(text@ =~= prompt());
    let mut i: usize = 0;
    while i < 21
        invariant
            0 <= i <= 21,
            text@ == prompt(),
            vm@ == old(vm)@.emit_all(prompt().subrange(0, i as int)),
        decreases 21 - i,
    {
        print_char(vm, text[i]);
        assert(prompt().subrange(0, i + 1) =~= prompt().subrange(0, i as int).push(
            prompt()[i as int],
        ));
        assert(vm@.display =~= old(vm)@.display + prompt().subrange(0, i + 1));
        i += 1;
    }
    assert(prompt().subrange(0, 21) =~= prompt());
}

/// The part of IN that follows the prompt: takes the oldest waiting key into
/// R0, echoes it to the console and sets the flags from it. Fails with the
/// failure of the keyboard, which it consumes, where that is what the
/// keyboard delivered first, and fails, changing nothing, where the keyboard
/// has delivered nothing.
pub fn read_echoed(vm: &mut VMState) -> (r: Result<(), VMError>)
    ensures
        final(vm)@ == old(vm)@.read_echoed(),
        r is Ok <==> old(vm)@.key_waiting(),
        old(vm)@.keyboard.len() > 0 ==> r == old(vm)@.key_outcome(),
        old(vm)@.keyboard.len() == 0 ==> r is Err && is_no_key_error(r->Err_0),
        r is Ok ==> final(vm)@.flag_reflects(0) && final(vm)@.reg(0) == old(vm)@.key(),
{
    let key = take_key(vm)?;
    vm.registers[Register::R0.usize()] = key as u16;
    print_char(vm, key);
    update_flags(vm, key as u16)?;
    assert(vm@.registers =~= old(vm)@.read_echoed().registers);
    Ok(())
}

/// IN: writes the prompt to the console, then takes the oldest waiting key
/// into R0, echoes it and sets the flags from it. Fails as GETC does; the
/// prompt has been written by then.
pub fn handle_in(vm: &mut VMState) -> (r: Result<(), VMError>)
    ensures
        final(vm)@ == old(vm)@.trap_in(),
        r is Ok <==> old(vm)@.key_waiting(),
        old(vm)@.keyboard.len() > 0 ==> r == old(vm)@.key_outcome(),
        old(vm)@.keyboard.len() == 0 ==> r is Err && is_no_key_error(r->Err_0),
        r is Ok ==> final(vm)@.flag_reflects(0) && final(vm)@.reg(0) == old(vm)@.key(),
{
    print_prompt(vm);
    read_echoed(vm)
}

/// TRAP: bits 7-0 name the service. HALT clears `running` and nothing else;
/// every other service leaves `running` as it is. Fails with
/// `UnrecognizedTrapCode`, changing nothing, exactly when the vector names
/// none of the six services, and with `CouldNotReadChar` exactly when GETC or
/// IN finds no key waiting or a service meets the failure of the keyboard.
pub fn handle_trap(instruction: u16, vm: &mut VMState, running: &mut bool) -> (r: Result<
    (),
    VMError,
>)
    ensures
        final(vm)@ == old(vm)@.op_trap(instruction),
        *final(running) == (*old(running) && TrapCode::of(trap_vector(instruction)) != Some(
            TrapCode::Halt,
        )),
        !old(vm)@.trap_lacks_key(instruction) ==> r == old(vm)@.op_trap_result(instruction),
        old(vm)@.trap_lacks_key(instruction) ==> r is Err && is_no_key_error(r->Err_0),
        TrapCode::of(trap_vector(instruction)) is None ==> r == Err::<(), VMError>(
            VMError::UnrecognizedTrapCode(trap_vector(instruction)),
        ),
        r is Ok && (TrapCode::of(trap_vector(instruction)) == Some(TrapCode::Getc)
            || TrapCode::of(trap_vector(instruction)) == Some(TrapCode::In))
            ==> final(vm)@.flag_reflects(0),
{
    proof {
        lemma_fields(instruction);
    }
    match TrapCode::try_from(instruction & 0xFF)? {
        TrapCode::Getc => handle_getc(vm)?,
        TrapCode::Out => handle_out(vm)?,
        TrapCode::PutSp => handle_putsp(vm)?,
        TrapCode::In => handle_in(vm)?,
        TrapCode::Puts => handle_puts(vm)?,
        TrapCode::Halt => {
            *running = false;
        },
    }
    Ok(())
}

} // verus!
