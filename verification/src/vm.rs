use vstd::prelude::*;
use std::collections::VecDeque;
use crate::error::VMError;
use crate::flags::Flag;
use crate::machine::{
    is_no_key_error,
    lemma_drop_key_keeps_keyboard_working,
    lemma_read_keeps_keyboard_working,
    wrap,
    Machine,
    KBDR,
    KBSR,
    KEY_READY,
};
use crate::opcodes::Opcode;
use crate::operations::add::handle_add;
use crate::operations::and::handle_and;
use crate::operations::br::handle_br;
use crate::operations::jmp::handle_jmp;
use crate::operations::jsr::handle_jsr;
use crate::operations::ld::handle_ld;
use crate::operations::ldi::handle_ldi;
use crate::operations::ldr::handle_ldr;
use crate::operations::lea::handle_lea;
use crate::operations::not::handle_not;
use crate::operations::st::handle_st;
use crate::operations::sti::handle_sti;
use crate::operations::str::handle_str;
use crate::operations::trap::{
    handle_getc,
    handle_trap,
    lemma_strings_keep_registers,
    lemma_strings_never_fail,
    print_prompt,
    prompt,
    read_echoed,
    TrapCode,
};
use crate::operations::utils::{dr, lemma_fields, opcode_bits, trap_vector};
use crate::registers::{MemoryRegister, Register, REGISTER_COUNT};

verus! {

/// Number of memory cells: every 16-bit address names one.
pub const MEMORY_MAX: usize = 1 << 16;

/// The machine: its memory and registers, and the two ends of its console.
/// The host puts the keys that were pressed at the back of `keyboard`, and
/// behind them, if the keyboard fails, the cause; it takes away what the
/// machine has written to `display`.
pub struct VMState {
    /// The memory, one 16-bit word per address.
    pub memory: [u16; MEMORY_MAX],
    /// R0 to R7, then the program counter, then the condition register.
    pub registers: [u16; REGISTER_COUNT],
    /// What the keyboard has delivered and the machine has not yet consumed,
    /// oldest first: the keys that were pressed, and, where the keyboard has
    /// failed, the cause of that.
    pub keyboard: VecDeque<Result<u8, String>>,
    /// Characters written and not yet taken away, oldest first.
    pub display: Vec<u8>,
}

/// What the host has to do after a step.
#[derive(Clone, Copy, Debug, PartialEq, Eq)]
pub enum Status {
    /// Take the next step.
    Running,
    /// The machine stands before a GETC or IN with no key waiting: wait for a
    /// key and hand it over with `key_pressed`.
    AwaitingKey,
    /// The program has halted: take no further step.
    Halted,
}

/// The instruction `ix` is the TRAP that halts the machine.
pub open spec fn halts(ix: u16) -> bool {
    opcode_bits(ix) == 15 && trap_vector(ix) == TrapCode::Halt.vector()
}

/// The word that two bytes make, the high byte first.
pub open spec fn word_of(high: u8, low: u8) -> u16 {
    (high as int * 256 + low as int) as u16
}

/// Makes a word of two bytes, the high byte first.
fn word_from(high: u8, low: u8) -> (word: u16)
    ensures
        word == word_of(high, low),
{
    (high as u16) * 256 + (low as u16)
}

/// The address at which a program image asks to be stored: its first word.
pub open spec fn image_origin(image: Seq<u8>) -> u16 {
    word_of(image[0], image[1])
}

/// The words of a program image that follow the origin. A single byte left
/// over at the end belongs to no word.
pub open spec fn image_words(image: Seq<u8>) -> Seq<u16> {
    Seq::new(
        ((image.len() - 2) / 2) as nat,
        |k: int| word_of(image[2 + 2 * k], image[3 + 2 * k]),
    )
}

/// Word `k` of a program image is made of the two bytes at `2 + 2k`, where the
/// image has them.
proof fn lemma_image_word(image: Seq<u8>, k: int)
    requires
        0 <= k,
        3 + 2 * k < image.len(),
    ensures
        k < image_words(image).len(),
        image_words(image)[k] == word_of(image[2 + 2 * k], image[3 + 2 * k]),
{
}

/// Among the first `count` words stored from some origin upwards, the index
/// of the last one that lands on the cell on which word `first` lands: the
/// addresses wrap around, so they are 65536 apart.
pub open spec fn last_on_cell(first: int, count: int) -> int {
    first + 0x1_0000 * ((count - 1 - first) / 0x1_0000)
}

/// The memory after `words` were stored from `origin` upwards, each one cell
/// after the one before it, wrapping around after the last address. A cell on
/// which no word lands keeps its content; a cell on which several land holds
/// the last of them.
#[verifier::opaque]
pub open spec fn stored(memory: Seq<u16>, origin: u16, words: Seq<u16>) -> Seq<u16> {
    Seq::new(
        0x1_0000,
        |a: int|
            {
                let first = (a - origin) % 0x1_0000;
                if first < words.len() {
                    words[last_on_cell(first, words.len() as int)]
                } else {
                    memory[a]
                }
            },
    )
}

/// Storing one more word changes the cell after the last one stored, and no other.
pub proof fn lemma_stored_push(memory: Seq<u16>, origin: u16, words: Seq<u16>, word: u16)
    requires
        memory.len() == 0x1_0000,
    ensures
        stored(memory, origin, words.push(word)) == stored(memory, origin, words).update(
            wrap(origin + words.len()) as int,
            word,
        ),
        stored(memory, origin, Seq::<u16>::empty()) == memory,
{
    reveal(stored);
    let n = words.len() as int;
    let target = wrap(origin + n) as int;
    let more = stored(memory, origin, words.push(word));
    let less = stored(memory, origin, words).update(target, word);
    assert forall|a: int| 0 <= a < 0x1_0000 implies more[a] == less[a] by {
        let first = (a - origin) % 0x1_0000;
        if a == target {
            assert(first == n % 0x1_0000);
            assert(last_on_cell(first, n + 1) == n);
        } else {
            assert(first != n % 0x1_0000);
            if first < n {
                assert((n - first) % 0x1_0000 != 0);
                assert(last_on_cell(first, n + 1) == last_on_cell(first, n));
                assert(0 <= last_on_cell(first, n) < n);
            }
        }
    }
    assert(more =~= less);
    assert(stored(memory, origin, Seq::<u16>::empty()) =~= memory);
}

/// Of an image with at most 65536 words after the origin, every word is found
/// in memory where it was stored: word `k` in the cell `k` after the origin.
pub proof fn lemma_stored_words(memory: Seq<u16>, origin: u16, words: Seq<u16>, k: int)
    requires
        words.len() <= 0x1_0000,
        0 <= k < words.len(),
    ensures
        stored(memory, origin, words)[wrap(origin + k) as int] == words[k],
{
    reveal(stored);
    let a = wrap(origin + k) as int;
    assert((a - origin) % 0x1_0000 == k);
    assert(last_on_cell(k, words.len() as int) == k);
}

impl Machine {
    /// The machine after a program image was stored in its memory.
    pub open spec fn load_image(self, image: Seq<u8>) -> Machine {
        Machine { memory: stored(self.memory, image_origin(image), image_words(image)), ..self }
    }

    /// The machine stands before a GETC or IN instruction and the keyboard
    /// has delivered nothing.
    pub open spec fn awaits_key(self) -> bool {
        &&& self.pc() != KBSR
        &&& opcode_bits(self.memory[self.pc() as int]) == 15
        &&& self.trap_lacks_key(self.memory[self.pc() as int])
    }

    /// The instruction that the next fetch yields, unless it fails.
    pub open spec fn fetched(self) -> u16 {
        self.read_value(self.pc())
    }

    /// The machine after the fetch: the cell at the program counter was read,
    /// and unless the read failed the program counter moved on by one, modulo 65536.
    pub open spec fn fetch(self) -> Machine {
        if self.read_fails(self.pc()) {
            self.read(self.pc())
        } else {
            self.read(self.pc()).set_pc(wrap(self.pc() + 1))
        }
    }

    /// The machine after the instruction `ix` was carried out. The two unused
    /// opcodes change nothing.
    pub open spec fn execute(self, ix: u16) -> Machine {
        match Opcode::of(opcode_bits(ix)) {
            Some(Opcode::OpBR) => self.op_br(ix),
            Some(Opcode::OpADD) => self.op_add(ix),
            Some(Opcode::OpLD) => self.op_ld(ix),
            Some(Opcode::OpST) => self.op_st(ix),
            Some(Opcode::OpJSR) => self.op_jsr(ix),
            Some(Opcode::OpAND) => self.op_and(ix),
            Some(Opcode::OpLDR) => self.op_ldr(ix),
            Some(Opcode::OpSTR) => self.op_str(ix),
            Some(Opcode::OpRTI) => self,
            Some(Opcode::OpNOT) => self.op_not(ix),
            Some(Opcode::OpLDI) => self.op_ldi(ix),
            Some(Opcode::OpSTI) => self.op_sti(ix),
            Some(Opcode::OpJMP) => self.op_jmp(ix),
            Some(Opcode::OpRES) => self,
            Some(Opcode::OpLEA) => self.op_lea(ix),
            Some(Opcode::OpTRAP) => self.op_trap(ix),
            None => self,
        }
    }

    /// The instruction `ix` is a GETC or IN, and the keyboard has delivered nothing.
    pub open spec fn execute_lacks_key(self, ix: u16) -> bool {
        opcode_bits(ix) == 15 && self.trap_lacks_key(ix)
    }

    /// What carrying out the instruction `ix` returns, unless it is a TRAP
    /// that lacks a key: the failure of the keyboard where a read meets it,
    /// the error of a TRAP whose vector names no service, success otherwise.
    pub open spec fn execute_result(self, ix: u16) -> Result<(), VMError> {
        match Opcode::of(opcode_bits(ix)) {
            Some(Opcode::OpLD) => self.read_outcome(self.relative_address(ix)),
            Some(Opcode::OpLDR) => self.read_outcome(self.based_address(ix)),
            Some(Opcode::OpLDI) => self.op_ldi_result(ix),
            Some(Opcode::OpSTI) => self.read_outcome(self.relative_address(ix)),
            Some(Opcode::OpTRAP) => self.op_trap_result(ix),
            _ => Ok(()),
        }
    }

    /// The machine after one step. A machine that awaits a key does not move:
    /// before IN it writes the prompt, before GETC it does nothing. Any other
    /// machine fetches an instruction and, unless the fetch failed, carries it out.
    pub open spec fn step(self) -> Machine {
        if self.awaits_key() {
            if trap_vector(self.memory[self.pc() as int]) == TrapCode::In.vector() {
                self.emit_all(prompt())
            } else {
                self
            }
        } else if self.read_fails(self.pc()) {
            self.fetch()
        } else {
            self.fetch().execute(self.fetched())
        }
    }

    /// What one step reports: that a key is awaited; the failure of the
    /// keyboard, where the fetch or the instruction met it; that the trap
    /// vector of the instruction names no service; that the program has
    /// halted; or, in every other case, that the machine runs on.
    pub open spec fn step_status(self) -> Result<Status, VMError> {
        if self.awaits_key() {
            Ok(Status::AwaitingKey)
        } else if self.read_fails(self.pc()) {
            Err(self.failure())
        } else {
            match self.fetch().execute_result(self.fetched()) {
                Err(e) => Err(e),
                Ok(_) => if halts(self.fetched()) {
                    Ok(Status::Halted)
                } else {
                    Ok(Status::Running)
                },
            }
        }
    }

    /// The machine after the host handed over a key. A machine that awaits a
    /// key finishes the instruction it stands before, without a prompt: the
    /// program counter moves on, R0 holds the key and the flags follow it, and
    /// IN echoes the key. Any other machine keeps the key for later.
    pub open spec fn key_pressed(self, key: u8) -> Machine {
        let queued = Machine { keyboard: self.keyboard.push(Ok(key)), ..self };
        if self.awaits_key() {
            let resumed = queued.set_pc(wrap(self.pc() + 1));
            if trap_vector(self.memory[self.pc() as int]) == TrapCode::Getc.vector() {
                resumed.trap_getc()
            } else {
                resumed.read_echoed()
            }
        } else {
            queued
        }
    }
}

/// Every instruction that writes a general-purpose register from a
/// computation or from memory (ADD, AND, NOT, LD, LDI, LDR, LEA) leaves the
/// condition register with the flag of what that register then holds, and so
/// do GETC and IN, for R0, unless it fails. The flag is zero
/// exactly when the register holds 0, negative exactly when its highest bit
/// is set, and positive otherwise.
pub proof fn lemma_flags_follow_destination(m: Machine, ix: u16)
    requires
        m.wf(),
        !m.trap_lacks_key(ix),
        m.execute_result(ix) is Ok,
    ensures
        ({
            let op = Opcode::of(opcode_bits(ix));
            op == Some(Opcode::OpADD) || op == Some(Opcode::OpAND) || op == Some(Opcode::OpNOT)
                || op == Some(Opcode::OpLD) || op == Some(Opcode::OpLDI) || op == Some(
                Opcode::OpLDR,
            ) || op == Some(Opcode::OpLEA)
        }) ==> m.execute(ix).flag_reflects(dr(ix)),
        Opcode::of(opcode_bits(ix)) == Some(Opcode::OpTRAP) && (TrapCode::of(trap_vector(ix))
            == Some(TrapCode::Getc) || TrapCode::of(trap_vector(ix)) == Some(TrapCode::In))
            ==> m.execute(ix).flag_reflects(0),
{
}

/// A step keeps the machine in shape: the memory and the register file keep
/// their sizes, and a condition register that holds exactly one flag holds
/// exactly one flag afterwards.
pub proof fn lemma_step_keeps_shape(m: Machine)
    requires
        m.wf(),
    ensures
        m.step().wf(),
        m.one_flag() ==> m.step().one_flag(),
{
    let fetched = m.fetch();
    let ix = m.fetched();
    assert(fetched.wf());
    assert(m.one_flag() ==> fetched.one_flag());
    lemma_strings_keep_registers(fetched, fetched.reg(0));
    assert(fetched.execute(ix).wf());
    assert(fetched.one_flag() ==> fetched.execute(ix).one_flag());
}

/// The two unused opcodes change nothing, whatever the rest of the instruction holds.
pub proof fn lemma_unused_opcodes_do_nothing(m: Machine, ix: u16)
    requires
        opcode_bits(ix) == 8 || opcode_bits(ix) == 13,
    ensures
        m.execute(ix) == m,
        m.execute_result(ix) == Ok::<(), VMError>(()),
{
}

/// While the keyboard works, a step fails in one way only: on a TRAP whose
/// vector names no service. And the keyboard still works afterwards.
pub proof fn lemma_working_keyboard_never_fails(m: Machine)
    requires
        m.wf(),
        m.keyboard_works(),
    ensures
        m.step().keyboard_works(),
        m.step_status() is Err ==> opcode_bits(m.fetched()) == 15 && TrapCode::of(
            trap_vector(m.fetched()),
        ) is None && m.step_status() == Err::<Status, VMError>(
            VMError::UnrecognizedTrapCode(trap_vector(m.fetched())),
        ),
{
    let ix = m.fetched();
    let fetched = m.fetch();
    lemma_read_keeps_keyboard_working(m, m.pc());
    lemma_read_keeps_keyboard_working(fetched, fetched.relative_address(ix));
    lemma_read_keeps_keyboard_working(fetched, fetched.based_address(ix));
    let pointed = fetched.read(fetched.relative_address(ix));
    lemma_read_keeps_keyboard_working(pointed, fetched.read_value(fetched.relative_address(ix)));
    lemma_strings_never_fail(fetched, fetched.reg(0));
    if fetched.keyboard.len() > 0 {
        lemma_drop_key_keeps_keyboard_working(fetched);
        lemma_drop_key_keeps_keyboard_working(fetched.emit_all(prompt()));
    }
}

/// Waiting for a key leaves no trace: a machine that awaited a key, took a
/// step, and was then handed the key is the machine that would have taken
/// its step with that key already waiting.
pub proof fn lemma_key_pressed_resumes(m: Machine, key: u8)
    requires
        m.wf(),
        m.awaits_key(),
    ensures
        m.step_status() == Ok::<Status, VMError>(Status::AwaitingKey),
        m.step().awaits_key(),
        m.step().key_pressed(key) == (Machine { keyboard: seq![Ok(key)], ..m }).step(),
        (Machine { keyboard: seq![Ok(key)], ..m }).step_status() == Ok::<Status, VMError>(
            Status::Running,
        ),
{
    let ready = Machine { keyboard: seq![Ok(key)], ..m };
    assert(m.keyboard.push(Ok(key)) =~= seq![Ok(key)]);
    assert(ready.keyboard.drop_first() =~= m.keyboard);
    let ix = m.memory[m.pc() as int];
    if trap_vector(ix) == TrapCode::In.vector() {
        let prompted = m.emit_all(prompt());
        assert(prompted.keyboard.push(Ok(key)) =~= seq![Ok(key)]);
        assert(m.step().key_pressed(key).display =~= ready.step().display);
        assert(m.step().key_pressed(key).registers =~= ready.step().registers);
    } else {
        assert(m.step().key_pressed(key).registers =~= ready.step().registers);
    }
}

impl View for VMState {
    type V = Machine;

    open spec fn view(&self) -> Machine {
        Machine {
            memory: self.memory@,
            registers: self.registers@,
            keyboard: self.keyboard@,
            display: self.display@,
        }
    }
}

/// Every machine has 65536 memory cells and ten registers.
pub proof fn lemma_view_wf(vm: &VMState)
    ensures
        vm@.wf(),
{
}

impl VMState {
    /// A machine with empty memory and console, all general-purpose registers
    /// at zero, the program counter at 0x3000 and the zero flag set.
    pub fn init() -> (r: Result<Self, VMError>)
        ensures
            r is Ok,
            r->Ok_0@.wf(),
            r->Ok_0@.one_flag(),
            r->Ok_0@.memory == Seq::new(0x1_0000, |a: int| 0u16),
            r->Ok_0@.registers == Seq::new(10, |i: int| 0u16).update(9, Flag::Zro.bits()).update(
                8,
                0x3000,
            ),
            r->Ok_0@.keyboard == Seq::<Result<u8, String>>::empty(),
            r->Ok_0@.display == Seq::<u8>::empty(),
    {
        let mut vm = VMState {
            memory: [0;MEMORY_MAX],
            registers: [0;REGISTER_COUNT],
            keyboard: VecDeque::new(),
            display: Vec::new(),
        };
        vm.registers[Register::Cond.usize()] = Flag::Zro.try_into()?;
        vm.registers[Register::PC.usize()] = 0x3000;
        assert(vm@.memory =~= Seq::new(0x1_0000, |a: int| 0u16));
        assert(vm@.registers =~= Seq::new(10, |i: int| 0u16).update(9, Flag::Zro.bits()).update(
            8,
            0x3000,
        ));
        Ok(vm)
    }

    /// Stores a program image: its first two bytes are the address of the
    /// first word, high byte first, and every two bytes after them are one
    /// word, high byte first, for the next cell. A single byte left over at
    /// the end is dropped. Addresses wrap around after the last one.
    #[verifier::spinoff_prover]
    #[verifier::rlimit(50)]
    pub fn write_ixs_to_mem(&mut self, parsed_file: Vec<u8>)
        requires
            parsed_file.len() >= 2,
        ensures
            final(self)@ == old(self)@.load_image(parsed_file@),
            image_words(parsed_file@).len() <= 0x1_0000 ==> forall|k: int|
                0 <= k < image_words(parsed_file@).len() ==> final(self)@.memory[#[trigger] wrap(
                    image_origin(parsed_file@) + k,
                ) as int] == image_words(parsed_file@)[k],
    {
        let mut file_index: usize = 0;
        let origin = word_from(parsed_file[file_index], parsed_file[file_index + 1]);
        file_index += 2;

        let ghost words = image_words(parsed_file@);
        let ghost mut done: int = 0;
        let mut offset = origin;
        proof {
            lemma_stored_push(self.memory@, origin, Seq::empty(), 0);
            assert(words.take(0) =~= Seq::<u16>::empty());
        }
        while parsed_file.len() - file_index >= 2
            invariant
                file_index == 2 + 2 * done,
                file_index <= parsed_file.len(),
                0 <= done <= words.len(),
                words == image_words(parsed_file@),
                offset == wrap(origin + done),
                self.memory@ == stored(old(self).memory@, origin, words.take(done)),
                self.registers@ == old(self).registers@,
                self.keyboard@ == old(self).keyboard@,
                self.display@ == old(self).display@,
            decreases parsed_file.len() - file_index,
        {
            let content = word_from(parsed_file[file_index], parsed_file[file_index + 1]);
            proof {
                lemma_image_word(parsed_file@, done);
                lemma_stored_push(old(self).memory@, origin, words.take(done), content);
                assert(words.take(done).push(content) =~= words.take(done + 1));
                done = done + 1;
            }
            self.mem_write(offset, content);
            file_index += 2;
            offset = offset.wrapping_add(1);
        }
        proof {
            assert(words.take(done) =~= words);
            if words.len() <= 0x1_0000 {
                assert forall|k: int| 0 <= k < words.len() implies self@.memory[#[trigger] wrap(
                    origin + k,
                ) as int] == words[k] by {
                    lemma_stored_words(old(self).memory@, origin, words, k);
                }
            }
        }
    }

    /// Stores `val` in the cell at `address`. Every cell can be written, the
    /// keyboard cells and cells that hold instructions as well.
    pub fn mem_write(&mut self, address: u16, val: u16)
        ensures
            final(self)@ == old(self)@.write(address, val),
            final(self)@.memory[address as int] == val,
    {
        self.memory[address as usize] = val;
    }

    /// Reads the cell at `address`. Reading the keyboard status cell first asks
    /// the keyboard for a key and consumes what it delivered first: a key
    /// other than the null character sets the status cell to ready and goes
    /// into the data cell; the null character, or nothing at all, clears the
    /// status cell. Fails, with the cause that the keyboard gave and with the
    /// memory unchanged, exactly when the cell is the keyboard status cell and
    /// what the keyboard delivered first is its failure.
    pub fn mem_read(&mut self, address: u16) -> (r: Result<u16, VMError>)
        ensures
            r == old(self)@.read_result(address),
            final(self)@ == old(self)@.read(address),
            r is Ok ==> r == Ok::<u16, VMError>(final(self)@.memory[address as int]),
            r is Err ==> final(self)@.memory == old(self)@.memory,
            address != KBSR ==> final(self)@ == old(self)@,
            address == KBSR && !old(self)@.key_ready() && !old(self)@.keyboard_failed() ==> r
                == Ok::<u16, VMError>(0) && final(self)@.memory[KBDR as int]
                == old(self)@.memory[KBDR as int],
    {
        let status: u16 = MemoryRegister::Kbsr.try_into()?;
        if address == status {
            match self.keyboard.pop_front() {
                Some(Ok(key)) => {
                    assert(old(self)@.keyboard.drop_first() =~= self.keyboard@);
                    if key != 0 {
                        self.memory[MemoryRegister::Kbsr.usize()] = 1 << 15;
                        self.memory[MemoryRegister::Kbdr.usize()] = key as u16;
                        assert(1u16 << 15 == KEY_READY) by (bit_vector);
                    } else {
                        self.memory[MemoryRegister::Kbsr.usize()] = 0;
                    }
                },
                Some(Err(cause)) => {
                    assert(old(self)@.keyboard.drop_first() =~= self.keyboard@);
                    assert(self.memory@ =~= old(self)@.memory);
                    return Err(VMError::CouldNotReadChar(cause));
                },
                None => {
                    self.memory[MemoryRegister::Kbsr.usize()] = 0;
                },
            }
        }
        Ok(self.memory[address as usize])
    }

    /// Says whether the machine stands before a GETC or IN instruction with no
    /// key waiting, so that a step would only wait.
    pub fn awaits_key(&self) -> (b: bool)
        ensures
            b == self@.awaits_key(),
    {
        let pc = self.registers[Register::PC.usize()];
        if pc == MemoryRegister::Kbsr.usize() as u16 {
            return false;
        }
        let ix = self.memory[pc as usize];
        proof {
            lemma_fields(ix);
        }
        if ix >> 12 != 15 {
            return false;
        }
        let vector = ix & 0xFF;
        (vector == 0x20 || vector == 0x23) && self.keyboard.len() == 0
    }

    /// Carries out the instruction `ix`: bits 15-12 name one of the sixteen
    /// opcodes, and the instruction goes to the handler of that opcode. The
    /// two unused opcodes have none, and change nothing. HALT clears
    /// `running`; nothing else touches it. Fails where the handler fails.
    #[verifier::spinoff_prover]
    #[verifier::rlimit(50)]
    pub fn execute(&mut self, ix: u16, running: &mut bool) -> (r: Result<(), VMError>)
        ensures
            final(self)@ == old(self)@.execute(ix),
            *final(running) == (*old(running) && !halts(ix)),
            !old(self)@.execute_lacks_key(ix) ==> r == old(self)@.execute_result(ix),
            old(self)@.execute_lacks_key(ix) ==> r is Err && is_no_key_error(r->Err_0),
    {
        proof {
            lemma_fields(ix);
        }
        let opcode = Opcode::try_from(ix >> 12)?;
        match opcode {
            Opcode::OpADD => handle_add(ix, self)?,
            Opcode::OpAND => handle_and(ix, self)?,
            Opcode::OpNOT => handle_not(ix, self)?,
            Opcode::OpBR => handle_br(ix, self)?,
            Opcode::OpJMP => handle_jmp(ix, self)?,
            Opcode::OpJSR => handle_jsr(ix, self)?,
            Opcode::OpLD => handle_ld(ix, self)?,
            Opcode::OpLDI => handle_ldi(ix, self)?,
            Opcode::OpLDR => handle_ldr(ix, self)?,
            Opcode::OpLEA => handle_lea(ix, self)?,
            Opcode::OpST => handle_st(ix, self)?,
            Opcode::OpSTI => handle_sti(ix, self)?,
            Opcode::OpSTR => handle_str(ix, self)?,
            Opcode::OpTRAP => handle_trap(ix, self, running)?,
            Opcode::OpRES => {},
            Opcode::OpRTI => {},
        }
        Ok(())
    }

    /// Takes one turn of the fetch-and-execute cycle: reads the instruction at
    /// the program counter, moves the program counter on, and carries the
    /// instruction out. A machine that awaits a key takes no turn: before IN
    /// it writes the prompt, and it reports `AwaitingKey`. Fails with
    /// `UnrecognizedTrapCode` exactly on a TRAP whose vector names no service;
    /// the instruction has been fetched by then. Fails with `CouldNotReadChar`
    /// exactly when the fetch or the instruction meets the failure of the
    /// keyboard; what it did before it met the failure stays done.
    #[verifier::spinoff_prover]
    #[verifier::rlimit(50)]
    pub fn step(&mut self) -> (r: Result<Status, VMError>)
        ensures
            final(self)@ == old(self)@.step(),
            r == old(self)@.step_status(),
    {
        if self.awaits_key() {
            let ix = self.memory[self.registers[Register::PC.usize()] as usize];
            proof {
                lemma_fields(ix);
            }
            if ix & 0xFF == 0x23 {
                print_prompt(self);
            }
            return Ok(Status::AwaitingKey);
        }
        let ix: u16 = self.mem_read(self.registers[Register::PC.usize()])?;
        self.registers[Register::PC.usize()] = self.registers[Register::PC.usize()].wrapping_add(
            1,
        );
        let mut running = true;
        self.execute(ix, &mut running)?;
        if running {
            Ok(Status::Running)
        } else {
            Ok(Status::Halted)
        }
    }

    /// Hands a key to the machine. A machine that awaits a key finishes the
    /// GETC or IN that it stands before: the program counter moves on, R0
    /// holds the key, the flags follow it, and IN echoes it. Any other machine
    /// puts the key behind the keys that are waiting.
    #[verifier::spinoff_prover]
    #[verifier::rlimit(50)]
    pub fn key_pressed(&mut self, key: u8)
        ensures
            final(self)@ == old(self)@.key_pressed(key),
    {
        if self.awaits_key() {
            let pc = self.registers[Register::PC.usize()];
            let ix = self.memory[pc as usize];
            proof {
                lemma_fields(ix);
            }
            self.registers[Register::PC.usize()] = pc.wrapping_add(1);
            self.keyboard.push_back(Ok(key));
            if ix & 0xFF == 0x20 {
                let _ = handle_getc(self);
            } else {
                let _ = read_echoed(self);
            }
        } else {
            self.keyboard.push_back(Ok(key));
        }
    }
}

} // verus!
