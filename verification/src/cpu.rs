//! The machine: registers, bus, program counter and stack pointer in one
//! owned aggregate, with the fetch and stack primitives and the execution
//! loop.

use vstd::prelude::*;
use crate::bus::{Bus, Memory, lemma_bus_is_wf};
use crate::fault::{Fault, Snapshot, State};
use crate::instructions::{execute, execute_instruction};
use crate::registers::{
    Flag,
    Register,
    RegisterState,
    Registers,
    high,
    high_byte,
    low,
    low_byte,
    make_word,
    register_8_of,
    word,
};

verus! {

/// `value` modulo 65536.
pub open spec fn wrap16(value: int) -> u16 {
    (value % 0x10000) as u16
}

/// `value` modulo 256.
pub open spec fn wrap8(value: int) -> u8 {
    (value % 0x100) as u8
}

/// The whole machine as a mathematical value.
pub struct Machine {
    pub register: RegisterState,
    pub pc: u16,
    pub sp: u16,
    pub bus: Memory,
    pub state: State,
}

impl Machine {
    /// The low nibble of `F` is zero, and every store spans its region.
    pub open spec fn wf(self) -> bool {
        self.register.wf() && self.bus.wf()
    }

    /// The machine at power-on: everything zero, the loop running.
    pub open spec fn power_on() -> Machine {
        Machine {
            register: RegisterState::zeroed(),
            pc: 0,
            sp: 0,
            bus: Memory::zeroed(),
            state: State::Running,
        }
    }

    /// The machine with the program counter moved by `n`, modulo 65536.
    pub open spec fn skip(self, n: int) -> Machine {
        Machine { pc: wrap16(self.pc + n), ..self }
    }

    /// The byte at the program counter.
    pub open spec fn fetch8(self) -> Result<u8, Fault> {
        self.bus.read(self.pc)
    }

    /// The 16-bit immediate at the program counter: low byte first.
    pub open spec fn fetch16(self) -> Result<u16, Fault> {
        match self.bus.read(self.pc) {
            Err(fault) => Err(fault),
            Ok(lo) => match self.bus.read(wrap16(self.pc + 1)) {
                Err(fault) => Err(fault),
                Ok(hi) => Ok(word(hi, lo)),
            },
        }
    }

    /// The 8-bit operand that a 3-bit field selects: a register, or for 6
    /// the byte that HL points at.
    pub open spec fn operand8(self, index: u8) -> Result<u8, Fault> {
        if index == 6 {
            self.bus.read(self.register.get_16(Register::HL))
        } else {
            Ok(self.register.get_8(register_8_of(index)))
        }
    }

    /// The machine after `value` is stored in the operand that a 3-bit
    /// field selects.
    pub open spec fn store8(self, index: u8, value: u8) -> Result<Machine, Fault> {
        if index == 6 {
            self.store(self.register.get_16(Register::HL), value)
        } else {
            Ok(Machine { register: self.register.set_8(register_8_of(index), value), ..self })
        }
    }

    /// The machine after `value` is written to memory at `addr`.
    pub open spec fn store(self, addr: u16, value: u8) -> Result<Machine, Fault> {
        match self.bus.write(addr, value) {
            Err(fault) => Err(fault),
            Ok(memory) => Ok(Machine { bus: memory, ..self }),
        }
    }

    /// The machine after a push: the high byte goes to SP - 1, the low byte
    /// to SP - 2, and SP ends two lower.
    pub open spec fn push16(self, value: u16) -> Result<Machine, Fault> {
        match self.bus.write(wrap16(self.sp - 1), high(value)) {
            Err(fault) => Err(fault),
            Ok(first) => match first.write(wrap16(self.sp - 2), low(value)) {
                Err(fault) => Err(fault),
                Ok(second) => Ok(Machine { bus: second, sp: wrap16(self.sp - 2), ..self }),
            },
        }
    }

    /// The value that a pop yields: the low byte is at SP, the high byte at
    /// SP + 1. The pop leaves SP two higher.
    pub open spec fn top16(self) -> Result<u16, Fault> {
        match self.bus.read(self.sp) {
            Err(fault) => Err(fault),
            Ok(lo) => match self.bus.read(wrap16(self.sp + 1)) {
                Err(fault) => Err(fault),
                Ok(hi) => Ok(word(hi, lo)),
            },
        }
    }

    /// The machine with the stack pointer two higher, modulo 65536.
    pub open spec fn drop16(self) -> Machine {
        Machine { sp: wrap16(self.sp + 2), ..self }
    }

    /// The machine with other registers.
    pub open spec fn with_register(self, register: RegisterState) -> Machine {
        Machine { register, ..self }
    }

    /// The machine with another program counter.
    pub open spec fn with_pc(self, pc: u16) -> Machine {
        Machine { pc, ..self }
    }

    /// The machine with another stack pointer.
    pub open spec fn with_sp(self, sp: u16) -> Machine {
        Machine { sp, ..self }
    }

    /// The registers, flags, program counter and stack pointer.
    pub open spec fn snapshot(self) -> Snapshot {
        Snapshot {
            pc: self.pc,
            sp: self.sp,
            a: self.register.a,
            b: self.register.b,
            c: self.register.c,
            d: self.register.d,
            e: self.register.e,
            h: self.register.h,
            l: self.register.l,
            f: self.register.f,
            zero: self.register.get_flag(Flag::Z),
            subtract: self.register.get_flag(Flag::N),
            half_carry: self.register.get_flag(Flag::H),
            carry: self.register.get_flag(Flag::C),
        }
    }

    /// One turn of the loop. A halted machine stays as it is. A running one
    /// fetches the opcode at the program counter and executes it; if the
    /// fetch or the instruction faults, the machine halts with that fault
    /// and is otherwise as it was before the fetch.
    pub open spec fn step(self) -> Machine {
        match self.state {
            State::Halted(_) => self,
            State::Running => match self.fetch8() {
                Err(fault) => Machine { state: State::Halted(fault), ..self },
                Ok(opcode) => match execute(self.skip(1), opcode) {
                    Err(fault) => Machine { state: State::Halted(fault), ..self },
                    Ok(next) => next,
                },
            },
        }
    }

    /// `n` turns of the loop.
    pub open spec fn run(self, n: nat) -> Machine
        decreases n,
    {
        if n == 0 {
            self
        } else {
            self.step().run((n - 1) as nat)
        }
    }
}

/// What a step of the machine must leave behind: on success the state that
/// was computed, on a fault the state it started from.
pub open spec fn outcome<T>(
    before: Machine,
    after: Machine,
    res: Result<T, Fault>,
    expected: Result<Machine, Fault>,
) -> bool {
    match expected {
        Ok(next) => res is Ok && after == next,
        Err(fault) => res == Err::<T, Fault>(fault) && after == before,
    }
}

/// What a dump of the machine shows: the registers and flags, the opcode
/// at hand and its address, the first block of video RAM and high RAM,
/// where the stack lives.
#[derive(Debug, PartialEq, Eq)]
pub struct Diagnostics {
    pub pc: u16,
    pub opcode: u8,
    pub snapshot: Snapshot,
    pub video: Vec<u8>,
    pub stack: Vec<u8>,
}

/// The window of video RAM that a dump shows.
pub const VIDEO_FIRST: u16 = 0x8000;

pub const VIDEO_LAST: u16 = 0x8800;

/// The window of high RAM that a dump shows.
pub const STACK_FIRST: u16 = 0xFF80;

pub const STACK_LAST: u16 = 0xFFFE;

/// The machine. Its parts are private and change through the methods
/// below only, each of which says what it does to the view. So a halted
/// machine stays halted, the low nibble of `F` stays zero, and what holds
/// of the bus holds of the machine, whoever the caller is.
pub struct CPU {
    register: Registers,
    pc: u16,
    sp: u16,
    bus: Bus,
    state: State,
}

impl View for CPU {
    type V = Machine;

    closed spec fn view(&self) -> Machine {
        Machine {
            register: self.register@,
            pc: self.pc,
            sp: self.sp,
            bus: self.bus@,
            state: self.state,
        }
    }
}

impl CPU {
    /// The low nibble of `F` is zero.
    pub open spec fn wf(&self) -> bool {
        self@.register.wf()
    }

    /// A machine at power-on.
    pub fn new() -> (cpu: CPU)
        ensures
            cpu@ == Machine::power_on(),
            cpu.wf(),
    {
        Self { register: Registers::new(), pc: 0, sp: 0, bus: Bus::new(), state: State::Running }
    }

    /// Whether the register file is sound: the low nibble of `F` is zero.
    pub fn verify(&self) -> (sound: bool)
        ensures
            sound == self.wf(),
    {
        self.register.get_8(&Register::F) & 0x0F == 0
    }

    /// The state of the execution loop.
    pub fn state(&self) -> (state: State)
        ensures
            state == self@.state,
    {
        self.state
    }

    /// Reads the byte at the program counter and advances it by one. On a
    /// fault nothing changes.
    pub fn fetch_n8(&mut self) -> (res: Result<u8, Fault>)
        ensures
            res == old(self)@.fetch8(),
            res is Ok ==> final(self)@ == old(self)@.skip(1),
            res is Err ==> *final(self) == *old(self),
    {
        match self.bus.read(self.pc) {
            Err(fault) => Err(fault),
            Ok(n8) => {
                self.pc = self.pc.wrapping_add(1);
                Ok(n8)
            },
        }
    }

    /// Reads a 16-bit immediate at the program counter, low byte first, and
    /// advances the program counter by two. On a fault nothing changes.
    pub fn fetch_n16(&mut self) -> (res: Result<u16, Fault>)
        ensures
            res == old(self)@.fetch16(),
            res is Ok ==> final(self)@ == old(self)@.skip(2),
            res is Err ==> *final(self) == *old(self),
    {
        let lo = match self.bus.read(self.pc) {
            Err(fault) => {
                return Err(fault);
            },
            Ok(lo) => lo,
        };
        let hi = match self.bus.read(self.pc.wrapping_add(1)) {
            Err(fault) => {
                return Err(fault);
            },
            Ok(hi) => hi,
        };
        self.pc = self.pc.wrapping_add(2);
        Ok(make_word(hi, lo))
    }

    /// The register file, to read.
    pub fn registers(&self) -> (registers: &Registers)
        ensures
            registers@ == self@.register,
    {
        &self.register
    }

    /// The bus, to read.
    pub fn memory(&self) -> (bus: &Bus)
        ensures
            bus@ == self@.bus,
    {
        &self.bus
    }

    /// Offers a boot image to the bus, which takes the first one only.
    /// Returns whether the image was loaded.
    pub fn load_boot_rom(&mut self, image: &[u8; 0x100]) -> (loaded: bool)
        ensures
            loaded == !old(self)@.bus.boot_rom_loaded,
            final(self)@ == (Machine { bus: old(self)@.bus.load_boot_rom(image@), ..old(self)@ }),
    {
        self.bus.load_boot_rom(image)
    }

    /// Offers a cartridge image to the bus, which takes the first one only.
    /// Returns whether the image was loaded.
    pub fn load_cartridge(&mut self, image: &[u8; 0x8000]) -> (loaded: bool)
        ensures
            loaded == !old(self)@.bus.cartridge_loaded,
            final(self)@ == (Machine { bus: old(self)@.bus.load_cartridge(image@), ..old(self)@ }),
    {
        self.bus.load_cartridge(image)
    }

    /// Reads an 8-bit register.
    pub fn get_8(&self, reg: &Register) -> (value: u8)
        requires
            reg.is_byte(),
        ensures
            value == self@.register.get_8(*reg),
    {
        self.register.get_8(reg)
    }

    /// Stores `value` in an 8-bit register; `F` keeps its high nibble only.
    pub fn set_8(&mut self, reg: &Register, value: u8)
        requires
            reg.is_byte(),
        ensures
            final(self)@ == old(self)@.with_register(old(self)@.register.set_8(*reg, value)),
            old(self).wf() ==> final(self).wf(),
    {
        self.register.set_8(reg, value);
    }

    /// Reads a register pair.
    pub fn get_16(&self, reg: &Register) -> (value: u16)
        requires
            reg.is_pair(),
        ensures
            value == self@.register.get_16(*reg),
    {
        self.register.get_16(reg)
    }

    /// Stores `value` in a register pair.
    pub fn set_16(&mut self, reg: &Register, value: u16)
        requires
            reg.is_pair(),
        ensures
            final(self)@ == old(self)@.with_register(old(self)@.register.set_16(*reg, value)),
            old(self).wf() ==> final(self).wf(),
    {
        self.register.set_16(reg, value);
    }

    /// Reads one flag.
    pub fn get_flag(&self, flag: &Flag) -> (value: bool)
        ensures
            value == self@.register.get_flag(*flag),
    {
        self.register.get_flag(flag)
    }

    /// Sets or clears one flag.
    pub fn set_flag(&mut self, flag: &Flag, value: bool)
        ensures
            final(self)@ == old(self)@.with_register(old(self)@.register.set_flag(*flag, value)),
            old(self).wf() ==> final(self).wf(),
    {
        self.register.set_flag(flag, value);
    }

    /// Sets or clears all four flags.
    pub fn set_flags(&mut self, z: bool, n: bool, h: bool, c: bool)
        ensures
            final(self)@ == old(self)@.with_register(old(self)@.register.set_flags(z, n, h, c)),
            old(self).wf() ==> final(self).wf(),
    {
        self.register.set_flags(z, n, h, c);
    }

    /// Reads the byte at `addr` from the bus.
    pub fn read(&self, addr: u16) -> (res: Result<u8, Fault>)
        ensures
            res == self@.bus.read(addr),
    {
        self.bus.read(addr)
    }

    /// Writes `value` at `addr` on the bus. On a fault nothing changes.
    pub fn write(&mut self, addr: u16, value: u8) -> (res: Result<(), Fault>)
        ensures
            outcome(old(self)@, final(self)@, res, old(self)@.store(addr, value)),
    {
        self.bus.write(addr, value)
    }

    /// Reads the operand that a 3-bit field selects.
    pub fn read_r8(&self, index: u8) -> (res: Result<u8, Fault>)
        requires
            index < 8,
        ensures
            res == self@.operand8(index),
    {
        let reg = self.register.decode_register_8(index);
        match reg {
            Register::HL => self.bus.read(self.register.get_16(&Register::HL)),
            _ => Ok(self.register.get_8(&reg)),
        }
    }

    /// Stores `value` in the operand that a 3-bit field selects. On a fault
    /// nothing changes.
    pub fn write_r8(&mut self, index: u8, value: u8) -> (res: Result<(), Fault>)
        requires
            index < 8,
            old(self).wf(),
        ensures
            final(self).wf(),
            outcome(old(self)@, final(self)@, res, old(self)@.store8(index, value)),
    {
        let reg = self.register.decode_register_8(index);
        match reg {
            Register::HL => self.bus.write(self.register.get_16(&Register::HL), value),
            _ => {
                self.register.set_8(&reg, value);
                Ok(())
            },
        }
    }

    /// Pushes a 16-bit value: SP goes down by one before each byte, the
    /// high byte first. On a fault nothing changes.
    pub fn push_stack16(&mut self, value: u16) -> (res: Result<(), Fault>)
        ensures
            outcome(old(self)@, final(self)@, res, old(self)@.push16(value)),
    {
        let first: u16 = self.sp.wrapping_sub(1);
        let second: u16 = self.sp.wrapping_sub(2);
        if !Bus::accessible(first) {
            return Err(Fault::UnimplementedRegion { address: first });
        }
        if !Bus::accessible(second) {
            return Err(Fault::UnimplementedRegion { address: second });
        }
        let _ = self.bus.write(first, high_byte(value));
        let _ = self.bus.write(second, low_byte(value));
        self.sp = second;
        Ok(())
    }

    /// Pops a 16-bit value: the low byte first, SP going up by one after
    /// each byte. On a fault nothing changes.
    pub fn pop_stack16(&mut self) -> (res: Result<u16, Fault>)
        ensures
            res == old(self)@.top16(),
            res is Ok ==> final(self)@ == old(self)@.drop16(),
            res is Err ==> *final(self) == *old(self),
    {
        let lo = match self.bus.read(self.sp) {
            Err(fault) => {
                return Err(fault);
            },
            Ok(lo) => lo,
        };
        let hi = match self.bus.read(self.sp.wrapping_add(1)) {
            Err(fault) => {
                return Err(fault);
            },
            Ok(hi) => hi,
        };
        self.sp = self.sp.wrapping_add(2);
        Ok(make_word(hi, lo))
    }

    /// Sets the stack pointer.
    pub fn set_sp(&mut self, value: u16)
        ensures
            final(self)@ == old(self)@.with_sp(value),
    {
        self.sp = value;
    }

    /// The stack pointer.
    pub fn get_sp(&self) -> (value: u16)
        ensures
            value == self@.sp,
    {
        self.sp
    }

    /// Sets the program counter.
    pub fn set_pc(&mut self, value: u16)
        ensures
            final(self)@ == old(self)@.with_pc(value),
    {
        self.pc = value;
    }

    /// The program counter.
    pub fn get_pc(&self) -> (value: u16)
        ensures
            value == self@.pc,
    {
        self.pc
    }

    /// Moves the program counter by a signed offset, modulo 65536.
    pub fn offset_pc(&mut self, offset: i8)
        ensures
            final(self)@ == old(self)@.skip(offset as int),
    {
        self.pc = self.pc.wrapping_add_signed(offset as i16);
    }

    /// The registers, flags, program counter and stack pointer as they are.
    pub fn snapshot(&self) -> (snapshot: Snapshot)
        ensures
            snapshot == self@.snapshot(),
    {
        Snapshot {
            pc: self.pc,
            sp: self.sp,
            a: self.register.get_8(&Register::A),
            b: self.register.get_8(&Register::B),
            c: self.register.get_8(&Register::C),
            d: self.register.get_8(&Register::D),
            e: self.register.get_8(&Register::E),
            h: self.register.get_8(&Register::H),
            l: self.register.get_8(&Register::L),
            f: self.register.get_8(&Register::F),
            zero: self.register.get_flag(&Flag::Z),
            subtract: self.register.get_flag(&Flag::N),
            half_carry: self.register.get_flag(&Flag::H),
            carry: self.register.get_flag(&Flag::C),
        }
    }

    /// Gathers what a dump of the machine shows for the opcode at `pc`.
    pub fn debug_state(&self, pc: u16, opcode: u8) -> (dump: Diagnostics)
        ensures
            dump.pc == pc,
            dump.opcode == opcode,
            dump.snapshot == self@.snapshot(),
            dump.video@.len() == VIDEO_LAST - VIDEO_FIRST + 1,
            self@.bus.shows(VIDEO_FIRST, dump.video@),
            dump.stack@.len() == STACK_LAST - STACK_FIRST + 1,
            self@.bus.shows(STACK_FIRST, dump.stack@),
    {
        let video = match self.bus.window(VIDEO_FIRST, VIDEO_LAST) {
            Ok(bytes) => bytes,
            Err(_) => Vec::new(),
        };
        let stack = match self.bus.window(STACK_FIRST, STACK_LAST) {
            Ok(bytes) => bytes,
            Err(_) => Vec::new(),
        };
        Diagnostics { pc, opcode, snapshot: self.snapshot(), video, stack }
    }

    /// One turn of the loop: fetch, dispatch, execute. Returns the state of
    /// the loop after it.
    pub fn step(&mut self) -> (state: State)
        requires
            old(self).wf(),
        ensures
            final(self).wf(),
            final(self)@ == old(self)@.step(),
            state == final(self)@.state,
    {
        match self.state {
            State::Halted(_) => {},
            State::Running => {
                let start: u16 = self.pc;
                let fault = match self.fetch_n8() {
                    Err(fault) => Some(fault),
                    Ok(opcode) => match execute_instruction(self, opcode) {
                        Err(fault) => Some(fault),
                        Ok(()) => None,
                    },
                };
                match fault {
                    Some(fault) => {
                        self.pc = start;
                        self.state = State::Halted(fault);
                    },
                    None => {},
                }
            },
        }
        self.state
    }

    /// Runs the loop for at most `limit` instructions, and leaves it as soon
    /// as the machine halts: the turns that are left would change nothing.
    /// Returns the state of the loop after it.
    pub fn boot(&mut self, limit: u64) -> (state: State)
        requires
            old(self).wf(),
        ensures
            final(self).wf(),
            final(self)@ == old(self)@.run(limit as nat),
            state == final(self)@.state,
    {
        let mut done: u64 = 0;
        while done < limit
            invariant
                done <= limit,
                self.wf(),
                self@.run((limit - done) as nat) == old(self)@.run(limit as nat),
            decreases limit - done,
        {
            proof {
                lemma_run_unfolds(self@, (limit - done) as nat);
            }
            let state = self.step();
            done = done + 1;
            match state {
                State::Halted(_) => {
                    proof {
                        lemma_halted_is_terminal(self@, (limit - done) as nat);
                    }
                    return state;
                },
                State::Running => {},
            }
        }
        self.state
    }
}

/// The view of a machine with sound registers is well-formed: the stores
/// of a bus have their sizes by their types.
pub proof fn lemma_view_is_wf(cpu: CPU)
    requires
        cpu.wf(),
    ensures
        cpu@.wf(),
{
    lemma_bus_is_wf(cpu.bus);
}

/// A run of `n + 1` turns is one turn followed by a run of `n`.
pub proof fn lemma_run_unfolds(m: Machine, n: nat)
    requires
        n > 0,
    ensures
        m.run(n) == m.step().run((n - 1) as nat),
{
}

/// Halted is terminal: no number of turns changes a halted machine.
pub proof fn lemma_halted_is_terminal(m: Machine, n: nat)
    requires
        m.state is Halted,
    ensures
        m.run(n) == m,
    decreases n,
{
    if n > 0 {
        lemma_halted_is_terminal(m, (n - 1) as nat);
    }
}

/// A push followed by a pop returns the value pushed and restores the stack
/// pointer, wherever the two bytes go to memory that retains them.
pub proof fn lemma_push_pop_round_trip(m: Machine, value: u16)
    requires
        m.wf(),
        m.bus.retains(wrap16(m.sp - 1), high(value)),
        m.bus.retains(wrap16(m.sp - 2), low(value)),
    ensures
        m.push16(value) matches Ok(pushed) && pushed.top16() == Ok::<u16, Fault>(value)
            && pushed.drop16().sp == m.sp && pushed.drop16().register == m.register
            && pushed.drop16().pc == m.pc,
{
}

} // verus!
