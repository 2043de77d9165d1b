//! The instruction set and the dispatcher.
//!
//! Every instruction is a transition of the machine, written twice: as a
//! function on [`Machine`] that says what the instruction does, and as the
//! routine that does it. A routine gets the opcode that was fetched, takes
//! its operand fields from it, and fetches its immediate bytes itself. A
//! routine that faults leaves the machine as it found it.

use vstd::prelude::*;
use crate::bus::Bus;
use crate::cpu::{CPU, Machine, outcome, wrap16, wrap8};
use crate::fault::Fault;
use crate::registers::{Flag, Register, RegisterState, high, low, register_16_of, word, make_word, high_byte, low_byte};

verus! {

/// The opcode that selects the extended space.
pub const PREFIX: u8 = 0xCB;

/// Bits 0 to 2 of an opcode: an 8-bit operand.
pub open spec fn field_low(opcode: u8) -> u8 {
    opcode % 8
}

/// Bits 3 to 5 of an opcode: an 8-bit operand, or a bit position.
pub open spec fn field_mid(opcode: u8) -> u8 {
    ((opcode / 8) % 8) as u8
}

/// Bits 4 and 5 of an opcode: a register pair.
pub open spec fn field_pair(opcode: u8) -> u8 {
    ((opcode / 16) % 4) as u8
}

/// The flag that a conditional instruction tests: bit 4 of the opcode
/// selects carry, else zero.
pub open spec fn condition_flag(opcode: u8) -> Flag {
    if (opcode / 16) % 2 == 1 {
        Flag::C
    } else {
        Flag::Z
    }
}

/// The value that the tested flag must have: bit 3 of the opcode.
pub open spec fn condition_expected(opcode: u8) -> bool {
    (opcode / 8) % 2 == 1
}

/// A byte read as a signed offset.
pub open spec fn signed(byte: u8) -> int {
    if byte < 128 {
        byte as int
    } else {
        byte - 256
    }
}

/// Bits 0 to 2 of an opcode.
pub fn decode_low(opcode: u8) -> (index: u8)
    ensures
        index == field_low(opcode),
        index < 8,
{
    assert(opcode & 7 == opcode % 8) by (bit_vector);
    opcode & 7
}

/// Bits 3 to 5 of an opcode.
pub fn decode_mid(opcode: u8) -> (index: u8)
    ensures
        index == field_mid(opcode),
        index < 8,
{
    assert((opcode >> 3) & 7 == (opcode / 8) % 8) by (bit_vector);
    (opcode >> 3) & 7
}

/// Bits 4 and 5 of an opcode.
pub fn decode_pair(opcode: u8) -> (index: u8)
    ensures
        index == field_pair(opcode),
        index < 4,
{
    assert((opcode >> 4) & 3 == (opcode / 16) % 4) by (bit_vector);
    (opcode >> 4) & 3
}

/// Reads a byte as a signed offset.
pub fn decode_signed(byte: u8) -> (offset: i8)
    ensures
        offset == signed(byte),
{
    if byte < 128 {
        byte as i8
    } else {
        ((byte as i16) - 256) as i8
    }
}

/// The low nibble of a byte.
pub fn nibble(value: u8) -> (low: u8)
    ensures
        low == value % 16,
{
    assert(value & 0x0F == value % 16) by (bit_vector);
    value & 0x0F
}

/// Subtracts `value` from `a`, modulo 256. Returns the difference and the
/// zero, half-carry and carry flags of the subtraction: the result is zero,
/// a borrow out of bit 3, a borrow out of bit 7.
pub fn subtract(a: u8, value: u8) -> (res: (u8, bool, bool, bool))
    ensures
        res.0 == wrap8(a - value),
        res.1 == (wrap8(a - value) == 0),
        res.2 == (a % 16 < value % 16),
        res.3 == (a < value),
{
    let result: u8 = a.wrapping_sub(value);
    (result, result == 0, nibble(a) < nibble(value), a < value)
}

/// Adds one to `value`, modulo 256. Returns the sum and the zero and
/// half-carry flags: the result is zero, a carry out of bit 3.
pub fn increment(value: u8) -> (res: (u8, bool, bool))
    ensures
        res.0 == wrap8(value + 1),
        res.1 == (wrap8(value + 1) == 0),
        res.2 == (value % 16 == 15),
{
    let result: u8 = value.wrapping_add(1);
    (result, result == 0, nibble(value) == 0x0F)
}

/// Subtracts one from `value`, modulo 256. Returns the difference and the
/// zero and half-carry flags: the result is zero, a borrow out of bit 3.
pub fn decrement(value: u8) -> (res: (u8, bool, bool))
    ensures
        res.0 == wrap8(value - 1),
        res.1 == (wrap8(value - 1) == 0),
        res.2 == (value % 16 == 0),
{
    let result: u8 = value.wrapping_sub(1);
    (result, result == 0, nibble(value) == 0)
}

/// Whether the bit of `value` at `index` is zero.
pub fn bit_is_zero(value: u8, index: u8) -> (zero: bool)
    requires
        index < 8,
    ensures
        zero == (value & (1u8 << index) == 0),
{
    value & (1u8 << index) == 0
}

/// Rotates `value` left through the carry: bit 0 receives `carry`, and the
/// bit that leaves bit 7 is the new carry.
pub fn rotate_left(value: u8, carry: bool) -> (res: (u8, bool))
    ensures
        res.0 == wrap8(value * 2 + if carry { 1int } else { 0int }),
        res.1 == (value >= 128),
{
    let incoming: u8 = if carry { 1 } else { 0 };
    assert(incoming <= 1 ==> ((value << 1) | incoming) == (value * 2 + incoming) % 256)
        by (bit_vector);
    assert((value & 0x80 != 0) == (value >= 128)) by (bit_vector);
    ((value << 1) | incoming, (value & 0x80) != 0)
}

/// Adds a signed offset byte to a 16-bit value, modulo 65536. Returns the
/// sum, the carry out of bit 3 and the carry out of bit 7 of the unsigned
/// sum of the low bytes.
pub fn add_offset(value: u16, byte: u8) -> (res: (u16, bool, bool))
    ensures
        res.0 == wrap16(value + signed(byte)),
        res.1 == (value % 16 + byte % 16 > 15),
        res.2 == (value % 256 + byte > 255),
{
    let low: u8 = low_byte(value);
    assert((value % 256) % 16 == value % 16) by (bit_vector);
    let half: bool = nibble(low) + nibble(byte) > 15;
    let carry: bool = (low as u16) + (byte as u16) > 255;
    let offset: i8 = decode_signed(byte);
    (value.wrapping_add_signed(offset as i16), half, carry)
}

impl Machine {
    /// Whether the condition that a conditional opcode encodes holds.
    pub open spec fn condition_met(self, opcode: u8) -> bool {
        self.register.get_flag(condition_flag(opcode)) == condition_expected(opcode)
    }

    /// The pair that a 2-bit field selects where 3 stands for SP.
    pub open spec fn pair_or_sp(self, field: u8) -> u16 {
        if field == 3 {
            self.sp
        } else {
            self.register.get_16(register_16_of(field))
        }
    }

    /// The machine after `value` is stored in that pair, or in SP.
    pub open spec fn with_pair_or_sp(self, field: u8, value: u16) -> Machine {
        if field == 3 {
            self.with_sp(value)
        } else {
            self.with_register(self.register.set_16(register_16_of(field), value))
        }
    }

    /// The pair that a 2-bit field selects where 3 stands for A and F.
    pub open spec fn pair_or_af(self, field: u8) -> u16 {
        if field == 3 {
            word(self.register.a, self.register.f)
        } else {
            self.register.get_16(register_16_of(field))
        }
    }

    /// The machine after `value` is stored in that pair, or in A and F.
    pub open spec fn with_pair_or_af(self, field: u8, value: u16) -> Machine {
        if field == 3 {
            self.with_register(
                self.register.set_8(Register::A, high(value)).set_8(Register::F, low(value)),
            )
        } else {
            self.with_register(self.register.set_16(register_16_of(field), value))
        }
    }

    /// The address that a 2-bit field selects in a load between A and
    /// memory: BC, DE, and for 2 and 3 HL.
    pub open spec fn pointer(self, field: u8) -> u16 {
        if field == 0 {
            self.register.get_16(Register::BC)
        } else if field == 1 {
            self.register.get_16(Register::DE)
        } else {
            self.register.get_16(Register::HL)
        }
    }

    /// What such a load does to the pointer afterwards: the field 2 moves
    /// HL up by one, 3 moves it down by one.
    pub open spec fn after_pointer(self, field: u8) -> Machine {
        if field == 2 {
            self.move_hl(1)
        } else if field == 3 {
            self.move_hl(-1)
        } else {
            self
        }
    }

    /// The machine with HL moved by `n`, modulo 65536.
    pub open spec fn move_hl(self, n: int) -> Machine {
        self.with_register(
            self.register.set_16(
                Register::HL,
                wrap16(self.register.get_16(Register::HL) + n),
            ),
        )
    }

    /// The machine after `value` is stored in A.
    pub open spec fn with_a(self, value: u8) -> Machine {
        self.with_register(self.register.set_8(Register::A, value))
    }
}

/// The flags after `a - v`: zero if the result is zero, subtract set,
/// half-carry on a borrow out of bit 3, carry on a borrow out of bit 7.
pub open spec fn subtract_flags(r: RegisterState, a: u8, v: u8) -> RegisterState {
    r.set_flags(wrap8(a - v) == 0, true, a % 16 < v % 16, a < v)
}

/// Whether the condition that a conditional opcode encodes holds: bit 4
/// selects carry or zero, bit 3 is the value that the flag must have.
pub fn condition_met(cpu: &CPU, opcode: u8) -> (met: bool)
    ensures
        met == cpu@.condition_met(opcode),
{
    assert(((opcode >> 4) & 1 == 1) == ((opcode / 16) % 2 == 1)) by (bit_vector);
    assert(((opcode >> 3) & 1 == 1) == ((opcode / 8) % 2 == 1)) by (bit_vector);
    let expected: bool = (opcode >> 3) & 1 == 1;
    let flag = if (opcode >> 4) & 1 == 1 {
        Flag::C
    } else {
        Flag::Z
    };
    cpu.get_flag(&flag) == expected
}

fn read_pair_or_sp(cpu: &CPU, field: u8) -> (value: u16)
    requires
        field < 4,
    ensures
        value == cpu@.pair_or_sp(field),
{
    if field == 3 {
        cpu.get_sp()
    } else {
        let reg = cpu.registers().decode_register_16(field);
        cpu.get_16(&reg)
    }
}

fn write_pair_or_sp(cpu: &mut CPU, field: u8, value: u16)
    requires
        field < 4,
        old(cpu).wf(),
    ensures
        final(cpu).wf(),
        final(cpu)@ == old(cpu)@.with_pair_or_sp(field, value),
{
    if field == 3 {
        cpu.set_sp(value);
    } else {
        let reg = cpu.registers().decode_register_16(field);
        cpu.set_16(&reg, value);
    }
}

fn read_pair_or_af(cpu: &CPU, field: u8) -> (value: u16)
    requires
        field < 4,
    ensures
        value == cpu@.pair_or_af(field),
{
    if field == 3 {
        make_word(cpu.get_8(&Register::A), cpu.get_8(&Register::F))
    } else {
        let reg = cpu.registers().decode_register_16(field);
        cpu.get_16(&reg)
    }
}

fn write_pair_or_af(cpu: &mut CPU, field: u8, value: u16)
    requires
        field < 4,
        old(cpu).wf(),
    ensures
        final(cpu).wf(),
        final(cpu)@ == old(cpu)@.with_pair_or_af(field, value),
{
    if field == 3 {
        cpu.set_8(&Register::A, high_byte(value));
        cpu.set_8(&Register::F, low_byte(value));
    } else {
        let reg = cpu.registers().decode_register_16(field);
        cpu.set_16(&reg, value);
    }
}

fn pointer(cpu: &CPU, field: u8) -> (addr: u16)
    requires
        field < 4,
    ensures
        addr == cpu@.pointer(field),
{
    if field == 0 {
        cpu.get_16(&Register::BC)
    } else if field == 1 {
        cpu.get_16(&Register::DE)
    } else {
        cpu.get_16(&Register::HL)
    }
}

fn move_hl(cpu: &mut CPU, up: bool)
    requires
        old(cpu).wf(),
    ensures
        final(cpu).wf(),
        final(cpu)@ == old(cpu)@.move_hl(if up { 1int } else { -1int }),
{
    let hl: u16 = cpu.get_16(&Register::HL);
    let moved: u16 = if up {
        hl.wrapping_add(1)
    } else {
        hl.wrapping_sub(1)
    };
    cpu.set_16(&Register::HL, moved);
}

fn after_pointer(cpu: &mut CPU, field: u8)
    requires
        field < 4,
        old(cpu).wf(),
    ensures
        final(cpu).wf(),
        final(cpu)@ == old(cpu)@.after_pointer(field),
{
    if field == 2 {
        move_hl(cpu, true);
    } else if field == 3 {
        move_hl(cpu, false);
    }
}


// Loads.

impl Machine {
    /// Copies the operand in bits 0 to 2 to the operand in bits 3 to 5.
    pub open spec fn ld_r8_r8(self, opcode: u8) -> Result<Machine, Fault> {
        match self.operand8(field_low(opcode)) {
            Err(fault) => Err(fault),
            Ok(value) => self.store8(field_mid(opcode), value),
        }
    }

    /// Stores the immediate byte in the operand in bits 3 to 5.
    pub open spec fn ld_r8_n8(self, opcode: u8) -> Result<Machine, Fault> {
        match self.fetch8() {
            Err(fault) => Err(fault),
            Ok(n8) => self.skip(1).store8(field_mid(opcode), n8),
        }
    }

    /// Stores the 16-bit immediate in the pair in bits 4 and 5, where 3
    /// stands for SP.
    pub open spec fn ld_r16_n16(self, opcode: u8) -> Result<Machine, Fault> {
        match self.fetch16() {
            Err(fault) => Err(fault),
            Ok(n16) => Ok(self.skip(2).with_pair_or_sp(field_pair(opcode), n16)),
        }
    }

    /// Writes the operand in bits 0 to 2 to the byte that HL points at.
    pub open spec fn ld_hl_r8(self, opcode: u8) -> Result<Machine, Fault> {
        match self.operand8(field_low(opcode)) {
            Err(fault) => Err(fault),
            Ok(value) => self.store(self.register.get_16(Register::HL), value),
        }
    }

    /// Writes the immediate byte to the byte that HL points at.
    pub open spec fn ld_hl_n8(self) -> Result<Machine, Fault> {
        match self.fetch8() {
            Err(fault) => Err(fault),
            Ok(n8) => self.skip(1).store(self.register.get_16(Register::HL), n8),
        }
    }

    /// Stores the byte that HL points at in the operand in bits 3 to 5.
    pub open spec fn ld_r8_hl(self, opcode: u8) -> Result<Machine, Fault> {
        match self.bus.read(self.register.get_16(Register::HL)) {
            Err(fault) => Err(fault),
            Ok(value) => self.store8(field_mid(opcode), value),
        }
    }

    /// Writes A to the byte that the pointer in bits 4 and 5 selects, then
    /// moves the pointer as its field says.
    pub open spec fn ld_r16_a(self, opcode: u8) -> Result<Machine, Fault> {
        match self.store(self.pointer(field_pair(opcode)), self.register.a) {
            Err(fault) => Err(fault),
            Ok(next) => Ok(next.after_pointer(field_pair(opcode))),
        }
    }

    /// Writes A to the byte at the 16-bit immediate address.
    pub open spec fn ld_n16_a(self) -> Result<Machine, Fault> {
        match self.fetch16() {
            Err(fault) => Err(fault),
            Ok(addr) => self.skip(2).store(addr, self.register.a),
        }
    }

    /// Writes A to the byte at 0xFF00 plus the immediate byte.
    pub open spec fn ldh_n16_a(self) -> Result<Machine, Fault> {
        match self.fetch8() {
            Err(fault) => Err(fault),
            Ok(n8) => self.skip(1).store((0xFF00 + n8) as u16, self.register.a),
        }
    }

    /// Writes A to the byte at 0xFF00 plus C.
    pub open spec fn ldh_c_a(self) -> Result<Machine, Fault> {
        self.store((0xFF00 + self.register.c) as u16, self.register.a)
    }

    /// Loads A from the byte that the pointer in bits 4 and 5 selects, then
    /// moves the pointer as its field says.
    pub open spec fn ld_a_r16(self, opcode: u8) -> Result<Machine, Fault> {
        match self.bus.read(self.pointer(field_pair(opcode))) {
            Err(fault) => Err(fault),
            Ok(value) => Ok(self.with_a(value).after_pointer(field_pair(opcode))),
        }
    }

    /// Loads A from the byte at the 16-bit immediate address.
    pub open spec fn ld_a_n16(self) -> Result<Machine, Fault> {
        match self.fetch16() {
            Err(fault) => Err(fault),
            Ok(addr) => match self.bus.read(addr) {
                Err(fault) => Err(fault),
                Ok(value) => Ok(self.skip(2).with_a(value)),
            },
        }
    }

    /// Loads A from the byte at 0xFF00 plus the immediate byte.
    pub open spec fn ldh_a_n16(self) -> Result<Machine, Fault> {
        match self.fetch8() {
            Err(fault) => Err(fault),
            Ok(n8) => match self.bus.read((0xFF00 + n8) as u16) {
                Err(fault) => Err(fault),
                Ok(value) => Ok(self.skip(1).with_a(value)),
            },
        }
    }

    /// Loads A from the byte at 0xFF00 plus C.
    pub open spec fn ldh_a_c(self) -> Result<Machine, Fault> {
        match self.bus.read((0xFF00 + self.register.c) as u16) {
            Err(fault) => Err(fault),
            Ok(value) => Ok(self.with_a(value)),
        }
    }

    /// Writes A to the byte that HL points at, then moves HL by `n`.
    pub open spec fn store_a_and_move(self, n: int) -> Result<Machine, Fault> {
        match self.store(self.register.get_16(Register::HL), self.register.a) {
            Err(fault) => Err(fault),
            Ok(next) => Ok(next.move_hl(n)),
        }
    }

    /// Loads A from the byte that HL points at, then moves HL by `n`.
    pub open spec fn load_a_and_move(self, n: int) -> Result<Machine, Fault> {
        match self.bus.read(self.register.get_16(Register::HL)) {
            Err(fault) => Err(fault),
            Ok(value) => Ok(self.with_a(value).move_hl(n)),
        }
    }

    /// Stores the 16-bit immediate in SP.
    pub open spec fn ld_sp_n16(self) -> Result<Machine, Fault> {
        match self.fetch16() {
            Err(fault) => Err(fault),
            Ok(n16) => Ok(self.skip(2).with_sp(n16)),
        }
    }

    /// Writes SP to the 16-bit immediate address, low byte first.
    pub open spec fn ld_n16_sp(self) -> Result<Machine, Fault> {
        match self.fetch16() {
            Err(fault) => Err(fault),
            Ok(addr) => match self.skip(2).store(addr, low(self.sp)) {
                Err(fault) => Err(fault),
                Ok(next) => next.store(wrap16(addr + 1), high(self.sp)),
            },
        }
    }

    /// Stores SP plus the signed immediate byte in HL. Zero and subtract are
    /// cleared; half-carry and carry are the carries out of bit 3 and bit 7
    /// of the sum of the low byte of SP and the immediate byte.
    pub open spec fn ld_hl_sp_add_e8(self) -> Result<Machine, Fault> {
        match self.fetch8() {
            Err(fault) => Err(fault),
            Ok(e8) => Ok(
                self.skip(1).with_register(
                    self.register.set_16(Register::HL, wrap16(self.sp + signed(e8))).set_flags(
                        false,
                        false,
                        self.sp % 16 + e8 % 16 > 15,
                        self.sp % 256 + e8 > 255,
                    ),
                ),
            ),
        }
    }
}

/// `LD r8, r8`: [`Machine::ld_r8_r8`].
/// 1 byte; 1 cycle, 2 through HL; no flags.
pub fn ld_r8_r8(cpu: &mut CPU, opcode: u8) -> (res: Result<(), Fault>)
    requires
        old(cpu).wf(),
    ensures
        final(cpu).wf(),
        outcome(old(cpu)@, final(cpu)@, res, old(cpu)@.ld_r8_r8(opcode)),
{
    let value = match cpu.read_r8(decode_low(opcode)) {
        Err(fault) => {
            return Err(fault);
        },
        Ok(value) => value,
    };
    cpu.write_r8(decode_mid(opcode), value)
}

/// `LD r8, n8`: [`Machine::ld_r8_n8`].
/// 2 bytes; 2 cycles, 3 through HL; no flags.
pub fn ld_r8_n8(cpu: &mut CPU, opcode: u8) -> (res: Result<(), Fault>)
    requires
        old(cpu).wf(),
    ensures
        final(cpu).wf(),
        outcome(old(cpu)@, final(cpu)@, res, old(cpu)@.ld_r8_n8(opcode)),
{
    let start: u16 = cpu.get_pc();
    let n8 = match cpu.fetch_n8() {
        Err(fault) => {
            return Err(fault);
        },
        Ok(n8) => n8,
    };
    let res = cpu.write_r8(decode_mid(opcode), n8);
    if res.is_err() {
        cpu.set_pc(start);
    }
    res
}

/// `LD r16, n16`: [`Machine::ld_r16_n16`].
/// 3 bytes; 3 cycles; no flags.
pub fn ld_r16_n16(cpu: &mut CPU, opcode: u8) -> (res: Result<(), Fault>)
    requires
        old(cpu).wf(),
    ensures
        final(cpu).wf(),
        outcome(old(cpu)@, final(cpu)@, res, old(cpu)@.ld_r16_n16(opcode)),
{
    let n16 = match cpu.fetch_n16() {
        Err(fault) => {
            return Err(fault);
        },
        Ok(n16) => n16,
    };
    write_pair_or_sp(cpu, decode_pair(opcode), n16);
    Ok(())
}

/// `LD (HL), r8`: [`Machine::ld_hl_r8`].
/// 1 byte; 2 cycles; no flags.
pub fn ld_hl_r8(cpu: &mut CPU, opcode: u8) -> (res: Result<(), Fault>)
    requires
        old(cpu).wf(),
    ensures
        final(cpu).wf(),
        outcome(old(cpu)@, final(cpu)@, res, old(cpu)@.ld_hl_r8(opcode)),
{
    let value = match cpu.read_r8(decode_low(opcode)) {
        Err(fault) => {
            return Err(fault);
        },
        Ok(value) => value,
    };
    cpu.write(cpu.get_16(&Register::HL), value)
}

/// `LD (HL), n8`: [`Machine::ld_hl_n8`].
/// 2 bytes; 3 cycles; no flags.
pub fn ld_hl_n8(cpu: &mut CPU, _opcode: u8) -> (res: Result<(), Fault>)
    requires
        old(cpu).wf(),
    ensures
        final(cpu).wf(),
        outcome(old(cpu)@, final(cpu)@, res, old(cpu)@.ld_hl_n8()),
{
    let start: u16 = cpu.get_pc();
    let n8 = match cpu.fetch_n8() {
        Err(fault) => {
            return Err(fault);
        },
        Ok(n8) => n8,
    };
    let res = cpu.write(cpu.get_16(&Register::HL), n8);
    if res.is_err() {
        cpu.set_pc(start);
    }
    res
}

/// `LD r8, (HL)`: [`Machine::ld_r8_hl`].
/// 1 byte; 2 cycles; no flags.
pub fn ld_r8_hl(cpu: &mut CPU, opcode: u8) -> (res: Result<(), Fault>)
    requires
        old(cpu).wf(),
    ensures
        final(cpu).wf(),
        outcome(old(cpu)@, final(cpu)@, res, old(cpu)@.ld_r8_hl(opcode)),
{
    let value = match cpu.read(cpu.get_16(&Register::HL)) {
        Err(fault) => {
            return Err(fault);
        },
        Ok(value) => value,
    };
    cpu.write_r8(decode_mid(opcode), value)
}

/// `LD (r16), A`: [`Machine::ld_r16_a`].
/// 1 byte; 2 cycles; no flags.
pub fn ld_r16_a(cpu: &mut CPU, opcode: u8) -> (res: Result<(), Fault>)
    requires
        old(cpu).wf(),
    ensures
        final(cpu).wf(),
        outcome(old(cpu)@, final(cpu)@, res, old(cpu)@.ld_r16_a(opcode)),
{
    let field = decode_pair(opcode);
    let addr = pointer(cpu, field);
    let data = cpu.get_8(&Register::A);
    match cpu.write(addr, data) {
        Err(fault) => Err(fault),
        Ok(()) => {
            after_pointer(cpu, field);
            Ok(())
        },
    }
}

/// `LD (n16), A`: [`Machine::ld_n16_a`].
/// 3 bytes; 4 cycles; no flags.
pub fn ld_n16_a(cpu: &mut CPU, _opcode: u8) -> (res: Result<(), Fault>)
    requires
        old(cpu).wf(),
    ensures
        final(cpu).wf(),
        outcome(old(cpu)@, final(cpu)@, res, old(cpu)@.ld_n16_a()),
{
    let start: u16 = cpu.get_pc();
    let addr = match cpu.fetch_n16() {
        Err(fault) => {
            return Err(fault);
        },
        Ok(addr) => addr,
    };
    let res = cpu.write(addr, cpu.get_8(&Register::A));
    if res.is_err() {
        cpu.set_pc(start);
    }
    res
}

/// `LDH (n8), A`: [`Machine::ldh_n16_a`].
/// 2 bytes; 3 cycles; no flags.
pub fn ldh_n16_a(cpu: &mut CPU, _opcode: u8) -> (res: Result<(), Fault>)
    requires
        old(cpu).wf(),
    ensures
        final(cpu).wf(),
        outcome(old(cpu)@, final(cpu)@, res, old(cpu)@.ldh_n16_a()),
{
    let start: u16 = cpu.get_pc();
    let n8 = match cpu.fetch_n8() {
        Err(fault) => {
            return Err(fault);
        },
        Ok(n8) => n8,
    };
    let addr: u16 = 0xFF00 + (n8 as u16);
    let res = cpu.write(addr, cpu.get_8(&Register::A));
    if res.is_err() {
        cpu.set_pc(start);
    }
    res
}

/// `LDH (C), A`: [`Machine::ldh_c_a`].
/// 1 byte; 2 cycles; no flags.
pub fn ldh_c_a(cpu: &mut CPU, _opcode: u8) -> (res: Result<(), Fault>)
    requires
        old(cpu).wf(),
    ensures
        final(cpu).wf(),
        outcome(old(cpu)@, final(cpu)@, res, old(cpu)@.ldh_c_a()),
{
    let addr: u16 = 0xFF00 + (cpu.get_8(&Register::C) as u16);
    cpu.write(addr, cpu.get_8(&Register::A))
}

/// `LD A, (r16)`: [`Machine::ld_a_r16`].
/// 1 byte; 2 cycles; no flags.
pub fn ld_a_r16(cpu: &mut CPU, opcode: u8) -> (res: Result<(), Fault>)
    requires
        old(cpu).wf(),
    ensures
        final(cpu).wf(),
        outcome(old(cpu)@, final(cpu)@, res, old(cpu)@.ld_a_r16(opcode)),
{
    let field = decode_pair(opcode);
    match cpu.read(pointer(cpu, field)) {
        Err(fault) => Err(fault),
        Ok(value) => {
            cpu.set_8(&Register::A, value);
            after_pointer(cpu, field);
            Ok(())
        },
    }
}

/// `LD A, (n16)`: [`Machine::ld_a_n16`].
/// 3 bytes; 4 cycles; no flags.
pub fn ld_a_n16(cpu: &mut CPU, _opcode: u8) -> (res: Result<(), Fault>)
    requires
        old(cpu).wf(),
    ensures
        final(cpu).wf(),
        outcome(old(cpu)@, final(cpu)@, res, old(cpu)@.ld_a_n16()),
{
    let start: u16 = cpu.get_pc();
    let addr = match cpu.fetch_n16() {
        Err(fault) => {
            return Err(fault);
        },
        Ok(addr) => addr,
    };
    match cpu.read(addr) {
        Err(fault) => {
            cpu.set_pc(start);
            Err(fault)
        },
        Ok(value) => {
            cpu.set_8(&Register::A, value);
            Ok(())
        },
    }
}

/// `LDH A, (n8)`: [`Machine::ldh_a_n16`].
/// 2 bytes; 3 cycles; no flags.
pub fn ldh_a_n16(cpu: &mut CPU, _opcode: u8) -> (res: Result<(), Fault>)
    requires
        old(cpu).wf(),
    ensures
        final(cpu).wf(),
        outcome(old(cpu)@, final(cpu)@, res, old(cpu)@.ldh_a_n16()),
{
    let start: u16 = cpu.get_pc();
    let n8 = match cpu.fetch_n8() {
        Err(fault) => {
            return Err(fault);
        },
        Ok(n8) => n8,
    };
    let addr: u16 = 0xFF00 + (n8 as u16);
    match cpu.read(addr) {
        Err(fault) => {
            cpu.set_pc(start);
            Err(fault)
        },
        Ok(value) => {
            cpu.set_8(&Register::A, value);
            Ok(())
        },
    }
}

/// `LDH A, (C)`: [`Machine::ldh_a_c`].
/// 1 byte; 2 cycles; no flags.
pub fn ldh_a_c(cpu: &mut CPU, _opcode: u8) -> (res: Result<(), Fault>)
    requires
        old(cpu).wf(),
    ensures
        final(cpu).wf(),
        outcome(old(cpu)@, final(cpu)@, res, old(cpu)@.ldh_a_c()),
{
    let addr: u16 = 0xFF00 + (cpu.get_8(&Register::C) as u16);
    match cpu.read(addr) {
        Err(fault) => Err(fault),
        Ok(value) => {
            cpu.set_8(&Register::A, value);
            Ok(())
        },
    }
}

/// `LD (HL+), A`: Writes A to the byte that HL points at, then moves HL up by one.
/// See [`Machine::store_a_and_move`]. 1 byte; 2 cycles; no flags.
pub fn ld_hli_a(cpu: &mut CPU, _opcode: u8) -> (res: Result<(), Fault>)
    requires
        old(cpu).wf(),
    ensures
        final(cpu).wf(),
        outcome(old(cpu)@, final(cpu)@, res, old(cpu)@.store_a_and_move(1)),
{
    let hl: u16 = cpu.get_16(&Register::HL);
    let data: u8 = cpu.get_8(&Register::A);
    match cpu.write(hl, data) {
        Err(fault) => Err(fault),
        Ok(()) => {
            move_hl(cpu, true);
            Ok(())
        },
    }
}

/// `LD (HL-), A`: Writes A to the byte that HL points at, then moves HL down by one.
/// See [`Machine::store_a_and_move`]. 1 byte; 2 cycles; no flags.
pub fn ld_hld_a(cpu: &mut CPU, _opcode: u8) -> (res: Result<(), Fault>)
    requires
        old(cpu).wf(),
    ensures
        final(cpu).wf(),
        outcome(old(cpu)@, final(cpu)@, res, old(cpu)@.store_a_and_move(-1)),
{
    let hl: u16 = cpu.get_16(&Register::HL);
    let data: u8 = cpu.get_8(&Register::A);
    match cpu.write(hl, data) {
        Err(fault) => Err(fault),
        Ok(()) => {
            move_hl(cpu, false);
            Ok(())
        },
    }
}

/// `LD A, (HL-)`: Loads A from the byte that HL points at, then moves HL down by one.
/// See [`Machine::load_a_and_move`]. 1 byte; 2 cycles; no flags.
pub fn ld_a_hld(cpu: &mut CPU, _opcode: u8) -> (res: Result<(), Fault>)
    requires
        old(cpu).wf(),
    ensures
        final(cpu).wf(),
        outcome(old(cpu)@, final(cpu)@, res, old(cpu)@.load_a_and_move(-1)),
{
    let hl: u16 = cpu.get_16(&Register::HL);
    match cpu.read(hl) {
        Err(fault) => Err(fault),
        Ok(value) => {
            cpu.set_8(&Register::A, value);
            move_hl(cpu, false);
            Ok(())
        },
    }
}

/// `LD A, (HL+)`: Loads A from the byte that HL points at, then moves HL up by one.
/// See [`Machine::load_a_and_move`]. 1 byte; 2 cycles; no flags.
pub fn ld_a_hdi(cpu: &mut CPU, _opcode: u8) -> (res: Result<(), Fault>)
    requires
        old(cpu).wf(),
    ensures
        final(cpu).wf(),
        outcome(old(cpu)@, final(cpu)@, res, old(cpu)@.load_a_and_move(1)),
{
    let hl: u16 = cpu.get_16(&Register::HL);
    match cpu.read(hl) {
        Err(fault) => Err(fault),
        Ok(value) => {
            cpu.set_8(&Register::A, value);
            move_hl(cpu, true);
            Ok(())
        },
    }
}

/// `LD SP, n16`: [`Machine::ld_sp_n16`].
/// 3 bytes; 3 cycles; no flags.
pub fn ld_sp_n16(cpu: &mut CPU, _opcode: u8) -> (res: Result<(), Fault>)
    requires
        old(cpu).wf(),
    ensures
        final(cpu).wf(),
        outcome(old(cpu)@, final(cpu)@, res, old(cpu)@.ld_sp_n16()),
{
    match cpu.fetch_n16() {
        Err(fault) => Err(fault),
        Ok(n16) => {
            cpu.set_sp(n16);
            Ok(())
        },
    }
}

/// `LD (n16), SP`: [`Machine::ld_n16_sp`].
/// 3 bytes; 5 cycles; no flags.
pub fn ld_n16_sp(cpu: &mut CPU, _opcode: u8) -> (res: Result<(), Fault>)
    requires
        old(cpu).wf(),
    ensures
        final(cpu).wf(),
        outcome(old(cpu)@, final(cpu)@, res, old(cpu)@.ld_n16_sp()),
{
    let start: u16 = cpu.get_pc();
    let addr = match cpu.fetch_n16() {
        Err(fault) => {
            return Err(fault);
        },
        Ok(addr) => addr,
    };
    let next: u16 = addr.wrapping_add(1);
    let sp: u16 = cpu.get_sp();
    if Bus::accessible(addr) && !Bus::accessible(next) {
        cpu.set_pc(start);
        return Err(Fault::UnimplementedRegion { address: next });
    }
    match cpu.write(addr, low_byte(sp)) {
        Err(fault) => {
            cpu.set_pc(start);
            Err(fault)
        },
        Ok(()) => cpu.write(next, high_byte(sp)),
    }
}

/// `LD HL, SP+e8`: [`Machine::ld_hl_sp_add_e8`].
/// 2 bytes; 3 cycles; Z 0, N 0, H and C from the sum.
pub fn ld_hl_sp_add_e8(cpu: &mut CPU, _opcode: u8) -> (res: Result<(), Fault>)
    requires
        old(cpu).wf(),
    ensures
        final(cpu).wf(),
        outcome(old(cpu)@, final(cpu)@, res, old(cpu)@.ld_hl_sp_add_e8()),
{
    let e8 = match cpu.fetch_n8() {
        Err(fault) => {
            return Err(fault);
        },
        Ok(e8) => e8,
    };
    let sum = add_offset(cpu.get_sp(), e8);
    cpu.set_16(&Register::HL, sum.0);
    cpu.set_flags(false, false, sum.1, sum.2);
    Ok(())
}

/// `LD SP, HL`: copies HL to SP.
/// 1 byte; 2 cycles; no flags.
pub fn ld_sp_hl(cpu: &mut CPU, _opcode: u8)
    ensures
        final(cpu)@ == old(cpu)@.with_sp(old(cpu)@.register.get_16(Register::HL)),
{
    let hl: u16 = cpu.get_16(&Register::HL);
    cpu.set_sp(hl);
}


// Arithmetic and logic.

impl Machine {
    /// Adds one to the operand in bits 3 to 5. Zero is set if the result is
    /// zero, subtract is cleared, half-carry is set on a carry out of bit 3,
    /// carry is untouched.
    pub open spec fn inc_r8(self, opcode: u8) -> Result<Machine, Fault> {
        match self.operand8(field_mid(opcode)) {
            Err(fault) => Err(fault),
            Ok(value) => match self.store8(field_mid(opcode), wrap8(value + 1)) {
                Err(fault) => Err(fault),
                Ok(next) => Ok(
                    next.with_register(
                        next.register.set_flag(Flag::Z, wrap8(value + 1) == 0).set_flag(
                            Flag::N,
                            false,
                        ).set_flag(Flag::H, value % 16 == 15),
                    ),
                ),
            },
        }
    }

    /// Adds one to the pair in bits 4 and 5, where 3 stands for SP. No flag
    /// changes.
    pub open spec fn inc_r16(self, opcode: u8) -> Machine {
        self.with_pair_or_sp(
            field_pair(opcode),
            wrap16(self.pair_or_sp(field_pair(opcode)) + 1),
        )
    }

    /// Subtracts one from the operand in bits 3 to 5. Zero is set if the
    /// result is zero, subtract is set, half-carry is set on a borrow out of
    /// bit 3, carry is untouched.
    pub open spec fn dec_r8(self, opcode: u8) -> Result<Machine, Fault> {
        match self.operand8(field_mid(opcode)) {
            Err(fault) => Err(fault),
            Ok(value) => match self.store8(field_mid(opcode), wrap8(value - 1)) {
                Err(fault) => Err(fault),
                Ok(next) => Ok(
                    next.with_register(
                        next.register.set_flag(Flag::Z, wrap8(value - 1) == 0).set_flag(
                            Flag::N,
                            true,
                        ).set_flag(Flag::H, value % 16 == 0),
                    ),
                ),
            },
        }
    }

    /// Subtracts the operand in bits 0 to 2 from A.
    pub open spec fn sub_r8(self, opcode: u8) -> Result<Machine, Fault> {
        match self.operand8(field_low(opcode)) {
            Err(fault) => Err(fault),
            Ok(value) => Ok(
                self.with_register(
                    subtract_flags(
                        self.register.set_8(Register::A, wrap8(self.register.a - value)),
                        self.register.a,
                        value,
                    ),
                ),
            ),
        }
    }

    /// Compares A with the operand in bits 0 to 2: the flags of the
    /// subtraction, A unchanged.
    pub open spec fn cp_a_r8(self, opcode: u8) -> Result<Machine, Fault> {
        match self.operand8(field_low(opcode)) {
            Err(fault) => Err(fault),
            Ok(value) => Ok(
                self.with_register(subtract_flags(self.register, self.register.a, value)),
            ),
        }
    }

    /// Compares A with the immediate byte.
    pub open spec fn cp_a_n8(self) -> Result<Machine, Fault> {
        match self.fetch8() {
            Err(fault) => Err(fault),
            Ok(n8) => Ok(
                self.skip(1).with_register(subtract_flags(self.register, self.register.a, n8)),
            ),
        }
    }

    /// Stores in A the exclusive or of A and the operand in bits 0 to 2.
    /// Zero is set if the result is zero; the other flags are cleared.
    pub open spec fn xor_a_r8(self, opcode: u8) -> Result<Machine, Fault> {
        match self.operand8(field_low(opcode)) {
            Err(fault) => Err(fault),
            Ok(value) => Ok(
                self.with_register(
                    self.register.set_8(Register::A, self.register.a ^ value).set_flags(
                        self.register.a ^ value == 0,
                        false,
                        false,
                        false,
                    ),
                ),
            ),
        }
    }
}

/// `INC r8`: [`Machine::inc_r8`].
/// 1 byte; 1 cycle, 3 through HL; Z, N 0, H.
pub fn inc_r8(cpu: &mut CPU, opcode: u8) -> (res: Result<(), Fault>)
    requires
        old(cpu).wf(),
    ensures
        final(cpu).wf(),
        outcome(old(cpu)@, final(cpu)@, res, old(cpu)@.inc_r8(opcode)),
{
    let index = decode_mid(opcode);
    let value = match cpu.read_r8(index) {
        Err(fault) => {
            return Err(fault);
        },
        Ok(value) => value,
    };
    let sum = increment(value);
    match cpu.write_r8(index, sum.0) {
        Err(fault) => {
            return Err(fault);
        },
        Ok(()) => {},
    }
    cpu.set_flag(&Flag::Z, sum.1);
    cpu.set_flag(&Flag::N, false);
    cpu.set_flag(&Flag::H, sum.2);
    Ok(())
}

/// `INC r16`: [`Machine::inc_r16`].
/// 1 byte; 2 cycles; no flags.
pub fn inc_r16(cpu: &mut CPU, opcode: u8)
    requires
        old(cpu).wf(),
    ensures
        final(cpu).wf(),
        final(cpu)@ == old(cpu)@.inc_r16(opcode),
{
    let field = decode_pair(opcode);
    let value: u16 = read_pair_or_sp(cpu, field).wrapping_add(1);
    write_pair_or_sp(cpu, field, value);
}

/// `DEC r8`: [`Machine::dec_r8`].
/// 1 byte; 1 cycle, 3 through HL; Z, N 1, H.
pub fn dec_r8(cpu: &mut CPU, opcode: u8) -> (res: Result<(), Fault>)
    requires
        old(cpu).wf(),
    ensures
        final(cpu).wf(),
        outcome(old(cpu)@, final(cpu)@, res, old(cpu)@.dec_r8(opcode)),
{
    let index = decode_mid(opcode);
    let value = match cpu.read_r8(index) {
        Err(fault) => {
            return Err(fault);
        },
        Ok(value) => value,
    };
    let difference = decrement(value);
    match cpu.write_r8(index, difference.0) {
        Err(fault) => {
            return Err(fault);
        },
        Ok(()) => {},
    }
    cpu.set_flag(&Flag::Z, difference.1);
    cpu.set_flag(&Flag::N, true);
    cpu.set_flag(&Flag::H, difference.2);
    Ok(())
}

/// Sets the flags of the subtraction `a - value`.
fn set_subtract_flags(cpu: &mut CPU, a: u8, value: u8)
    requires
        old(cpu).wf(),
    ensures
        final(cpu).wf(),
        final(cpu)@ == old(cpu)@.with_register(subtract_flags(old(cpu)@.register, a, value)),
{
    let difference = subtract(a, value);
    cpu.set_flags(difference.1, true, difference.2, difference.3);
}

/// `SUB A, r8`: [`Machine::sub_r8`].
/// 1 byte; 1 cycle, 2 through HL; Z, N 1, H, C.
pub fn sub_r8(cpu: &mut CPU, opcode: u8) -> (res: Result<(), Fault>)
    requires
        old(cpu).wf(),
    ensures
        final(cpu).wf(),
        outcome(old(cpu)@, final(cpu)@, res, old(cpu)@.sub_r8(opcode)),
{
    let value = match cpu.read_r8(decode_low(opcode)) {
        Err(fault) => {
            return Err(fault);
        },
        Ok(value) => value,
    };
    let a: u8 = cpu.get_8(&Register::A);
    cpu.set_8(&Register::A, subtract(a, value).0);
    set_subtract_flags(cpu, a, value);
    Ok(())
}

/// `CP A, r8`: [`Machine::cp_a_r8`].
/// 1 byte; 1 cycle, 2 through HL; Z, N 1, H, C.
pub fn cp_a_r8(cpu: &mut CPU, opcode: u8) -> (res: Result<(), Fault>)
    requires
        old(cpu).wf(),
    ensures
        final(cpu).wf(),
        outcome(old(cpu)@, final(cpu)@, res, old(cpu)@.cp_a_r8(opcode)),
{
    let value = match cpu.read_r8(decode_low(opcode)) {
        Err(fault) => {
            return Err(fault);
        },
        Ok(value) => value,
    };
    let a: u8 = cpu.get_8(&Register::A);
    set_subtract_flags(cpu, a, value);
    Ok(())
}

/// `CP A, n8`: [`Machine::cp_a_n8`].
/// 2 bytes; 2 cycles; Z, N 1, H, C.
pub fn cp_a_n8(cpu: &mut CPU, _opcode: u8) -> (res: Result<(), Fault>)
    requires
        old(cpu).wf(),
    ensures
        final(cpu).wf(),
        outcome(old(cpu)@, final(cpu)@, res, old(cpu)@.cp_a_n8()),
{
    let a: u8 = cpu.get_8(&Register::A);
    let n8 = match cpu.fetch_n8() {
        Err(fault) => {
            return Err(fault);
        },
        Ok(n8) => n8,
    };
    set_subtract_flags(cpu, a, n8);
    Ok(())
}

/// `XOR A, r8`: [`Machine::xor_a_r8`].
/// 1 byte; 1 cycle, 2 through HL; Z, N 0, H 0, C 0.
pub fn xor_a_r8(cpu: &mut CPU, opcode: u8) -> (res: Result<(), Fault>)
    requires
        old(cpu).wf(),
    ensures
        final(cpu).wf(),
        outcome(old(cpu)@, final(cpu)@, res, old(cpu)@.xor_a_r8(opcode)),
{
    let value = match cpu.read_r8(decode_low(opcode)) {
        Err(fault) => {
            return Err(fault);
        },
        Ok(value) => value,
    };
    let result: u8 = cpu.get_8(&Register::A) ^ value;
    cpu.set_8(&Register::A, result);
    cpu.set_flags(result == 0, false, false, false);
    Ok(())
}

// Jumps and subroutines.

impl Machine {
    /// Skips the offset byte and, if the condition holds, adds the offset
    /// to the program counter.
    pub open spec fn jr_cc_n16(self, opcode: u8) -> Result<Machine, Fault> {
        match self.fetch8() {
            Err(fault) => Err(fault),
            Ok(offset) => Ok(
                if self.condition_met(opcode) {
                    self.skip(1 + signed(offset))
                } else {
                    self.skip(1)
                },
            ),
        }
    }

    /// Skips the offset byte and adds the offset to the program counter.
    pub open spec fn jr_n16(self) -> Result<Machine, Fault> {
        match self.fetch8() {
            Err(fault) => Err(fault),
            Ok(offset) => Ok(self.skip(1 + signed(offset))),
        }
    }

    /// Pushes the address of the next instruction and jumps to the 16-bit
    /// immediate.
    pub open spec fn call(self) -> Result<Machine, Fault> {
        match self.fetch16() {
            Err(fault) => Err(fault),
            Ok(target) => match self.push16(wrap16(self.pc + 2)) {
                Err(fault) => Err(fault),
                Ok(pushed) => Ok(pushed.with_pc(target)),
            },
        }
    }

    /// Pops the program counter.
    pub open spec fn ret(self) -> Result<Machine, Fault> {
        match self.top16() {
            Err(fault) => Err(fault),
            Ok(target) => Ok(self.drop16().with_pc(target)),
        }
    }

    /// Returns if the condition holds. A return that is not taken touches
    /// neither the program counter nor the stack.
    pub open spec fn ret_cc(self, opcode: u8) -> Result<Machine, Fault> {
        if self.condition_met(opcode) {
            self.ret()
        } else {
            Ok(self)
        }
    }

    /// Pushes the pair in bits 4 and 5, where 3 stands for A and F.
    pub open spec fn push_r16(self, opcode: u8) -> Result<Machine, Fault> {
        self.push16(self.pair_or_af(field_pair(opcode)))
    }

    /// Pops the pair in bits 4 and 5, where 3 stands for A and F.
    pub open spec fn pop_r16(self, opcode: u8) -> Result<Machine, Fault> {
        match self.top16() {
            Err(fault) => Err(fault),
            Ok(value) => Ok(self.drop16().with_pair_or_af(field_pair(opcode), value)),
        }
    }
}

/// `JR cc, e8`: [`Machine::jr_cc_n16`].
/// 2 bytes; 3 cycles if taken, else 2; no flags.
pub fn jr_cc_n16(cpu: &mut CPU, opcode: u8) -> (res: Result<(), Fault>)
    requires
        old(cpu).wf(),
    ensures
        final(cpu).wf(),
        outcome(old(cpu)@, final(cpu)@, res, old(cpu)@.jr_cc_n16(opcode)),
{
    let offset = match cpu.fetch_n8() {
        Err(fault) => {
            return Err(fault);
        },
        Ok(byte) => decode_signed(byte),
    };
    if condition_met(cpu, opcode) {
        cpu.offset_pc(offset);
    }
    Ok(())
}

/// `JR e8`: [`Machine::jr_n16`].
/// 2 bytes; 3 cycles; no flags.
pub fn jr_n16(cpu: &mut CPU, _opcode: u8) -> (res: Result<(), Fault>)
    requires
        old(cpu).wf(),
    ensures
        final(cpu).wf(),
        outcome(old(cpu)@, final(cpu)@, res, old(cpu)@.jr_n16()),
{
    let offset = match cpu.fetch_n8() {
        Err(fault) => {
            return Err(fault);
        },
        Ok(byte) => decode_signed(byte),
    };
    cpu.offset_pc(offset);
    Ok(())
}

/// `CALL n16`: [`Machine::call`].
/// 3 bytes; 6 cycles; no flags.
pub fn call(cpu: &mut CPU, _opcode: u8) -> (res: Result<(), Fault>)
    requires
        old(cpu).wf(),
    ensures
        final(cpu).wf(),
        outcome(old(cpu)@, final(cpu)@, res, old(cpu)@.call()),
{
    let start: u16 = cpu.get_pc();
    let target = match cpu.fetch_n16() {
        Err(fault) => {
            return Err(fault);
        },
        Ok(target) => target,
    };
    match cpu.push_stack16(cpu.get_pc()) {
        Err(fault) => {
            cpu.set_pc(start);
            Err(fault)
        },
        Ok(()) => {
            cpu.set_pc(target);
            Ok(())
        },
    }
}

/// `RET`: [`Machine::ret`].
/// 1 byte; 4 cycles; no flags.
pub fn ret(cpu: &mut CPU, _opcode: u8) -> (res: Result<(), Fault>)
    requires
        old(cpu).wf(),
    ensures
        final(cpu).wf(),
        outcome(old(cpu)@, final(cpu)@, res, old(cpu)@.ret()),
{
    match cpu.pop_stack16() {
        Err(fault) => Err(fault),
        Ok(target) => {
            cpu.set_pc(target);
            Ok(())
        },
    }
}

/// `RET cc`: [`Machine::ret_cc`].
/// 1 byte; 5 cycles if taken, else 2; no flags.
pub fn ret_cc(cpu: &mut CPU, opcode: u8) -> (res: Result<(), Fault>)
    requires
        old(cpu).wf(),
    ensures
        final(cpu).wf(),
        outcome(old(cpu)@, final(cpu)@, res, old(cpu)@.ret_cc(opcode)),
{
    if condition_met(cpu, opcode) {
        ret(cpu, opcode)
    } else {
        Ok(())
    }
}

/// `PUSH r16`: [`Machine::push_r16`].
/// 1 byte; 4 cycles; no flags.
pub fn push_r16(cpu: &mut CPU, opcode: u8) -> (res: Result<(), Fault>)
    requires
        old(cpu).wf(),
    ensures
        final(cpu).wf(),
        outcome(old(cpu)@, final(cpu)@, res, old(cpu)@.push_r16(opcode)),
{
    let value: u16 = read_pair_or_af(cpu, decode_pair(opcode));
    cpu.push_stack16(value)
}

/// `POP r16`: [`Machine::pop_r16`].
/// 1 byte; 3 cycles; no flags but for POP AF, which loads them.
pub fn pop_r16(cpu: &mut CPU, opcode: u8) -> (res: Result<(), Fault>)
    requires
        old(cpu).wf(),
    ensures
        final(cpu).wf(),
        outcome(old(cpu)@, final(cpu)@, res, old(cpu)@.pop_r16(opcode)),
{
    match cpu.pop_stack16() {
        Err(fault) => Err(fault),
        Ok(value) => {
            write_pair_or_af(cpu, decode_pair(opcode), value);
            Ok(())
        },
    }
}

// Bit operations.

impl Machine {
    /// Tests the bit of the operand in bits 0 to 2 that bits 3 to 5 select.
    /// Zero is set if the bit is zero, subtract is cleared, half-carry is
    /// set, carry is untouched.
    pub open spec fn bit_u3_r8(self, opcode: u8) -> Result<Machine, Fault> {
        match self.operand8(field_low(opcode)) {
            Err(fault) => Err(fault),
            Ok(value) => Ok(
                self.with_register(
                    self.register.set_flag(
                        Flag::Z,
                        value & (1u8 << field_mid(opcode)) == 0,
                    ).set_flag(Flag::N, false).set_flag(Flag::H, true),
                ),
            ),
        }
    }

    /// Rotates A left through the carry. Zero, subtract and half-carry are
    /// cleared whatever the result.
    pub open spec fn rla(self) -> Machine {
        self.with_register(
            self.register.set_8(
                Register::A,
                wrap8(self.register.a * 2 + if self.register.get_flag(Flag::C) { 1int } else { 0int }),
            ).set_flags(false, false, false, self.register.a >= 128),
        )
    }

    /// Rotates the operand in bits 0 to 2 left through the carry. Zero is
    /// set if the result is zero; subtract and half-carry are cleared.
    pub open spec fn rl_r8(self, opcode: u8) -> Result<Machine, Fault> {
        match self.operand8(field_low(opcode)) {
            Err(fault) => Err(fault),
            Ok(value) => {
                let result = wrap8(
                    value * 2 + if self.register.get_flag(Flag::C) { 1int } else { 0int },
                );
                match self.store8(field_low(opcode), result) {
                    Err(fault) => Err(fault),
                    Ok(next) => Ok(
                        next.with_register(
                            next.register.set_flags(result == 0, false, false, value >= 128),
                        ),
                    ),
                }
            },
        }
    }
}

/// `BIT u3, r8`: [`Machine::bit_u3_r8`].
/// 2 bytes with the prefix; 2 cycles, 3 through HL; Z, N 0, H 1.
pub fn bit_u3_r8(cpu: &mut CPU, opcode: u8) -> (res: Result<(), Fault>)
    requires
        old(cpu).wf(),
    ensures
        final(cpu).wf(),
        outcome(old(cpu)@, final(cpu)@, res, old(cpu)@.bit_u3_r8(opcode)),
{
    let u3: u8 = decode_mid(opcode);
    let value = match cpu.read_r8(decode_low(opcode)) {
        Err(fault) => {
            return Err(fault);
        },
        Ok(value) => value,
    };
    cpu.set_flag(&Flag::Z, bit_is_zero(value, u3));
    cpu.set_flag(&Flag::N, false);
    cpu.set_flag(&Flag::H, true);
    Ok(())
}

/// `RLA`: [`Machine::rla`].
/// 1 byte; 1 cycle; Z 0, N 0, H 0, C.
pub fn rla(cpu: &mut CPU, _opcode: u8)
    requires
        old(cpu).wf(),
    ensures
        final(cpu).wf(),
        final(cpu)@ == old(cpu)@.rla(),
{
    let rotated = rotate_left(cpu.get_8(&Register::A), cpu.get_flag(&Flag::C));
    cpu.set_8(&Register::A, rotated.0);
    cpu.set_flags(false, false, false, rotated.1);
}

/// `RL r8`: [`Machine::rl_r8`].
/// 2 bytes with the prefix; 2 cycles, 4 through HL; Z, N 0, H 0, C.
pub fn rl_r8(cpu: &mut CPU, opcode: u8) -> (res: Result<(), Fault>)
    requires
        old(cpu).wf(),
    ensures
        final(cpu).wf(),
        outcome(old(cpu)@, final(cpu)@, res, old(cpu)@.rl_r8(opcode)),
{
    let index = decode_low(opcode);
    let value = match cpu.read_r8(index) {
        Err(fault) => {
            return Err(fault);
        },
        Ok(value) => value,
    };
    let rotated = rotate_left(value, cpu.get_flag(&Flag::C));
    match cpu.write_r8(index, rotated.0) {
        Err(fault) => {
            return Err(fault);
        },
        Ok(()) => {},
    }
    cpu.set_flags(rotated.0 == 0, false, false, rotated.1);
    Ok(())
}

// The dispatcher.

/// The entries of the instruction set.
#[derive(Clone, Copy, Debug, PartialEq, Eq)]
pub enum Instruction {
    /// `LD r8, r8`
    LdR8R8,
    /// `LD r8, n8`
    LdR8N8,
    /// `LD r16, n16`
    LdR16N16,
    /// `LD (HL), r8`
    LdHlR8,
    /// `LD (HL), n8`
    LdHlN8,
    /// `LD r8, (HL)`
    LdR8Hl,
    /// `LD (r16), A`
    LdR16A,
    /// `LD (n16), A`
    LdN16A,
    /// `LDH (n8), A`
    LdhN16A,
    /// `LDH (C), A`
    LdhCA,
    /// `LD A, (r16)`
    LdAR16,
    /// `LD A, (n16)`
    LdAN16,
    /// `LDH A, (n8)`
    LdhAN16,
    /// `LDH A, (C)`
    LdhAC,
    /// `LD (HL+), A`
    LdHliA,
    /// `LD (HL-), A`
    LdHldA,
    /// `LD A, (HL-)`
    LdAHld,
    /// `LD A, (HL+)`
    LdAHli,
    /// `LD SP, n16`
    LdSpN16,
    /// `LD (n16), SP`
    LdN16Sp,
    /// `LD HL, SP+e8`
    LdHlSpAddE8,
    /// `LD SP, HL`
    LdSpHl,
    /// `INC r8`
    IncR8,
    /// `INC r16`
    IncR16,
    /// `DEC r8`
    DecR8,
    /// `SUB A, r8`
    SubR8,
    /// `CP A, r8`
    CpAR8,
    /// `CP A, n8`
    CpAN8,
    /// `XOR A, r8`
    XorAR8,
    /// `JR cc, e8`
    JrCcN16,
    /// `JR e8`
    JrN16,
    /// `CALL n16`
    Call,
    /// `RET`
    Ret,
    /// `RET cc`
    RetCc,
    /// `PUSH r16`
    PushR16,
    /// `POP r16`
    PopR16,
    /// `BIT u3, r8`
    BitU3R8,
    /// `RLA`
    Rla,
    /// `RL r8`
    RlR8,
}

/// The bytes that an instruction fetches after its opcode.
pub open spec fn immediate_bytes(instruction: Instruction) -> int {
    match instruction {
        Instruction::LdR8N8
        | Instruction::LdHlN8
        | Instruction::LdhN16A
        | Instruction::LdhAN16
        | Instruction::LdHlSpAddE8
        | Instruction::CpAN8
        | Instruction::JrCcN16
        | Instruction::JrN16 => 1,
        Instruction::LdR16N16
        | Instruction::LdN16A
        | Instruction::LdAN16
        | Instruction::LdSpN16
        | Instruction::LdN16Sp
        | Instruction::Call => 2,
        _ => 0,
    }
}

/// An instruction of the extended space: its opcode follows the prefix.
pub open spec fn is_extended(instruction: Instruction) -> bool {
    instruction == Instruction::BitU3R8 || instruction == Instruction::RlR8
}

/// The bytes that an instruction spans: its opcode, the prefix in the
/// extended space, and its immediate bytes.
pub open spec fn length_of(instruction: Instruction) -> int {
    1 + immediate_bytes(instruction) + if is_extended(instruction) {
        1int
    } else {
        0int
    }
}

/// The cost of an instruction in machine cycles. It depends on the opcode
/// where an operand field may select the byte behind HL, and on `taken`
/// where the instruction is conditional.
pub open spec fn cycles_of(instruction: Instruction, opcode: u8, taken: bool) -> int {
    let low_hl = field_low(opcode) == 6;
    let mid_hl = field_mid(opcode) == 6;
    match instruction {
        Instruction::LdR8R8 => if low_hl || mid_hl {
            2
        } else {
            1
        },
        Instruction::LdR8N8 => if mid_hl {
            3
        } else {
            2
        },
        Instruction::IncR8 | Instruction::DecR8 => if mid_hl {
            3
        } else {
            1
        },
        Instruction::SubR8 | Instruction::CpAR8 | Instruction::XorAR8 => if low_hl {
            2
        } else {
            1
        },
        Instruction::BitU3R8 => if low_hl {
            3
        } else {
            2
        },
        Instruction::RlR8 => if low_hl {
            4
        } else {
            2
        },
        Instruction::JrCcN16 => if taken {
            3
        } else {
            2
        },
        Instruction::RetCc => if taken {
            5
        } else {
            2
        },
        Instruction::Rla => 1,
        Instruction::LdHlR8
        | Instruction::LdR8Hl
        | Instruction::LdR16A
        | Instruction::LdhCA
        | Instruction::LdAR16
        | Instruction::LdhAC
        | Instruction::LdHliA
        | Instruction::LdHldA
        | Instruction::LdAHld
        | Instruction::LdAHli
        | Instruction::LdSpHl
        | Instruction::IncR16
        | Instruction::CpAN8 => 2,
        Instruction::LdR16N16
        | Instruction::LdHlN8
        | Instruction::LdhN16A
        | Instruction::LdhAN16
        | Instruction::LdSpN16
        | Instruction::LdHlSpAddE8
        | Instruction::JrN16
        | Instruction::PopR16 => 3,
        Instruction::LdN16A | Instruction::LdAN16 | Instruction::Ret | Instruction::PushR16 => 4,
        Instruction::LdN16Sp => 5,
        Instruction::Call => 6,
    }
}

impl Instruction {
    /// The bytes that the instruction spans.
    pub fn length(&self) -> (bytes: u8)
        ensures
            bytes == length_of(*self),
    {
        match self {
            Instruction::LdR8N8
            | Instruction::LdHlN8
            | Instruction::LdhN16A
            | Instruction::LdhAN16
            | Instruction::LdHlSpAddE8
            | Instruction::CpAN8
            | Instruction::JrCcN16
            | Instruction::JrN16
            | Instruction::BitU3R8
            | Instruction::RlR8 => 2,
            Instruction::LdR16N16
            | Instruction::LdN16A
            | Instruction::LdAN16
            | Instruction::LdSpN16
            | Instruction::LdN16Sp
            | Instruction::Call => 3,
            _ => 1,
        }
    }

    /// The cost of the instruction in machine cycles, for the opcode that
    /// selected it. `taken` says whether the condition of a conditional
    /// instruction holds; the others ignore it.
    pub fn cycles(&self, opcode: u8, taken: bool) -> (cycles: u8)
        ensures
            cycles == cycles_of(*self, opcode, taken),
    {
        let low_hl = decode_low(opcode) == 6;
        let mid_hl = decode_mid(opcode) == 6;
        match self {
            Instruction::LdR8R8 => if low_hl || mid_hl {
                2
            } else {
                1
            },
            Instruction::LdR8N8 => if mid_hl {
                3
            } else {
                2
            },
            Instruction::IncR8 | Instruction::DecR8 => if mid_hl {
                3
            } else {
                1
            },
            Instruction::SubR8 | Instruction::CpAR8 | Instruction::XorAR8 => if low_hl {
                2
            } else {
                1
            },
            Instruction::BitU3R8 => if low_hl {
                3
            } else {
                2
            },
            Instruction::RlR8 => if low_hl {
                4
            } else {
                2
            },
            Instruction::JrCcN16 => if taken {
                3
            } else {
                2
            },
            Instruction::RetCc => if taken {
                5
            } else {
                2
            },
            Instruction::Rla => 1,
            Instruction::LdHlR8
            | Instruction::LdR8Hl
            | Instruction::LdR16A
            | Instruction::LdhCA
            | Instruction::LdAR16
            | Instruction::LdhAC
            | Instruction::LdHliA
            | Instruction::LdHldA
            | Instruction::LdAHld
            | Instruction::LdAHli
            | Instruction::LdSpHl
            | Instruction::IncR16
            | Instruction::CpAN8 => 2,
            Instruction::LdR16N16
            | Instruction::LdHlN8
            | Instruction::LdhN16A
            | Instruction::LdhAN16
            | Instruction::LdSpN16
            | Instruction::LdHlSpAddE8
            | Instruction::JrN16
            | Instruction::PopR16 => 3,
            Instruction::LdN16A
            | Instruction::LdAN16
            | Instruction::Ret
            | Instruction::PushR16 => 4,
            Instruction::LdN16Sp => 5,
            Instruction::Call => 6,
        }
    }
}

/// The primary table: the instruction that an opcode selects.
pub open spec fn instruction_of(opcode: u8) -> Option<Instruction> {
    match opcode {
        0x04 => Some(Instruction::IncR8),
        0x05 => Some(Instruction::DecR8),
        0x06 => Some(Instruction::LdR8N8),
        0x0C => Some(Instruction::IncR8),
        0x0D => Some(Instruction::DecR8),
        0x0E => Some(Instruction::LdR8N8),
        0x11 => Some(Instruction::LdR16N16),
        0x13 => Some(Instruction::IncR16),
        0x17 => Some(Instruction::Rla),
        0x18 => Some(Instruction::JrN16),
        0x1A => Some(Instruction::LdAR16),
        0x1E => Some(Instruction::LdR8N8),
        0x20 => Some(Instruction::JrCcN16),
        0x21 => Some(Instruction::LdR16N16),
        0x22 => Some(Instruction::LdHliA),
        0x23 => Some(Instruction::IncR16),
        0x28 => Some(Instruction::JrCcN16),
        0x2E => Some(Instruction::LdR8N8),
        0x31 => Some(Instruction::LdSpN16),
        0x32 => Some(Instruction::LdHldA),
        0x3D => Some(Instruction::DecR8),
        0x3E => Some(Instruction::LdR8N8),
        0x4F => Some(Instruction::LdR8R8),
        0x57 => Some(Instruction::LdR8R8),
        0x67 => Some(Instruction::LdR8R8),
        0x77 => Some(Instruction::LdHlR8),
        0x7B => Some(Instruction::LdR8R8),
        0xAF => Some(Instruction::XorAR8),
        0xC1 => Some(Instruction::PopR16),
        0xC5 => Some(Instruction::PushR16),
        0xC9 => Some(Instruction::Ret),
        0xCD => Some(Instruction::Call),
        0xE0 => Some(Instruction::LdhN16A),
        0xE2 => Some(Instruction::LdhCA),
        0xEA => Some(Instruction::LdN16A),
        0xF0 => Some(Instruction::LdhAN16),
        0xFE => Some(Instruction::CpAN8),
        _ => None,
    }
}

/// The extended table, for the byte that follows the prefix.
pub open spec fn extended_instruction_of(opcode: u8) -> Option<Instruction> {
    match opcode {
        0x11 => Some(Instruction::RlR8),
        0x7C => Some(Instruction::BitU3R8),
        _ => None,
    }
}

/// Looks an opcode up in the primary table.
pub fn lookup(opcode: u8) -> (instruction: Option<Instruction>)
    ensures
        instruction == instruction_of(opcode),
{
    match opcode {
        0x04 => Some(Instruction::IncR8),
        0x05 => Some(Instruction::DecR8),
        0x06 => Some(Instruction::LdR8N8),
        0x0C => Some(Instruction::IncR8),
        0x0D => Some(Instruction::DecR8),
        0x0E => Some(Instruction::LdR8N8),
        0x11 => Some(Instruction::LdR16N16),
        0x13 => Some(Instruction::IncR16),
        0x17 => Some(Instruction::Rla),
        0x18 => Some(Instruction::JrN16),
        0x1A => Some(Instruction::LdAR16),
        0x1E => Some(Instruction::LdR8N8),
        0x20 => Some(Instruction::JrCcN16),
        0x21 => Some(Instruction::LdR16N16),
        0x22 => Some(Instruction::LdHliA),
        0x23 => Some(Instruction::IncR16),
        0x28 => Some(Instruction::JrCcN16),
        0x2E => Some(Instruction::LdR8N8),
        0x31 => Some(Instruction::LdSpN16),
        0x32 => Some(Instruction::LdHldA),
        0x3D => Some(Instruction::DecR8),
        0x3E => Some(Instruction::LdR8N8),
        0x4F => Some(Instruction::LdR8R8),
        0x57 => Some(Instruction::LdR8R8),
        0x67 => Some(Instruction::LdR8R8),
        0x77 => Some(Instruction::LdHlR8),
        0x7B => Some(Instruction::LdR8R8),
        0xAF => Some(Instruction::XorAR8),
        0xC1 => Some(Instruction::PopR16),
        0xC5 => Some(Instruction::PushR16),
        0xC9 => Some(Instruction::Ret),
        0xCD => Some(Instruction::Call),
        0xE0 => Some(Instruction::LdhN16A),
        0xE2 => Some(Instruction::LdhCA),
        0xEA => Some(Instruction::LdN16A),
        0xF0 => Some(Instruction::LdhAN16),
        0xFE => Some(Instruction::CpAN8),
        _ => None,
    }
}

/// Looks the byte that follows the prefix up in the extended table.
pub fn lookup_extended(opcode: u8) -> (instruction: Option<Instruction>)
    ensures
        instruction == extended_instruction_of(opcode),
{
    match opcode {
        0x11 => Some(Instruction::RlR8),
        0x7C => Some(Instruction::BitU3R8),
        _ => None,
    }
}

impl Machine {
    /// What an instruction does, given the opcode that selected it.
    #[verifier::opaque]
    pub open spec fn perform(self, instruction: Instruction, opcode: u8) -> Result<Machine, Fault> {
        match instruction {
            Instruction::LdR8R8 => self.ld_r8_r8(opcode),
            Instruction::LdR8N8 => self.ld_r8_n8(opcode),
            Instruction::LdR16N16 => self.ld_r16_n16(opcode),
            Instruction::LdHlR8 => self.ld_hl_r8(opcode),
            Instruction::LdHlN8 => self.ld_hl_n8(),
            Instruction::LdR8Hl => self.ld_r8_hl(opcode),
            Instruction::LdR16A => self.ld_r16_a(opcode),
            Instruction::LdN16A => self.ld_n16_a(),
            Instruction::LdhN16A => self.ldh_n16_a(),
            Instruction::LdhCA => self.ldh_c_a(),
            Instruction::LdAR16 => self.ld_a_r16(opcode),
            Instruction::LdAN16 => self.ld_a_n16(),
            Instruction::LdhAN16 => self.ldh_a_n16(),
            Instruction::LdhAC => self.ldh_a_c(),
            Instruction::LdHliA => self.store_a_and_move(1),
            Instruction::LdHldA => self.store_a_and_move(-1),
            Instruction::LdAHld => self.load_a_and_move(-1),
            Instruction::LdAHli => self.load_a_and_move(1),
            Instruction::LdSpN16 => self.ld_sp_n16(),
            Instruction::LdN16Sp => self.ld_n16_sp(),
            Instruction::LdHlSpAddE8 => self.ld_hl_sp_add_e8(),
            Instruction::LdSpHl => Ok(self.with_sp(self.register.get_16(Register::HL))),
            Instruction::IncR8 => self.inc_r8(opcode),
            Instruction::IncR16 => Ok(self.inc_r16(opcode)),
            Instruction::DecR8 => self.dec_r8(opcode),
            Instruction::SubR8 => self.sub_r8(opcode),
            Instruction::CpAR8 => self.cp_a_r8(opcode),
            Instruction::CpAN8 => self.cp_a_n8(),
            Instruction::XorAR8 => self.xor_a_r8(opcode),
            Instruction::JrCcN16 => self.jr_cc_n16(opcode),
            Instruction::JrN16 => self.jr_n16(),
            Instruction::Call => self.call(),
            Instruction::Ret => self.ret(),
            Instruction::RetCc => self.ret_cc(opcode),
            Instruction::PushR16 => self.push_r16(opcode),
            Instruction::PopR16 => self.pop_r16(opcode),
            Instruction::BitU3R8 => self.bit_u3_r8(opcode),
            Instruction::Rla => Ok(self.rla()),
            Instruction::RlR8 => self.rl_r8(opcode),
        }
    }
}

/// Executes one instruction of the set.
pub fn perform(cpu: &mut CPU, instruction: Instruction, opcode: u8) -> (res: Result<(), Fault>)
    requires
        old(cpu).wf(),
    ensures
        final(cpu).wf(),
        outcome(old(cpu)@, final(cpu)@, res, old(cpu)@.perform(instruction, opcode)),
{
    reveal(Machine::perform);
    match instruction {
        Instruction::LdR8R8 => ld_r8_r8(cpu, opcode),
        Instruction::LdR8N8 => ld_r8_n8(cpu, opcode),
        Instruction::LdR16N16 => ld_r16_n16(cpu, opcode),
        Instruction::LdHlR8 => ld_hl_r8(cpu, opcode),
        Instruction::LdHlN8 => ld_hl_n8(cpu, opcode),
        Instruction::LdR8Hl => ld_r8_hl(cpu, opcode),
        Instruction::LdR16A => ld_r16_a(cpu, opcode),
        Instruction::LdN16A => ld_n16_a(cpu, opcode),
        Instruction::LdhN16A => ldh_n16_a(cpu, opcode),
        Instruction::LdhCA => ldh_c_a(cpu, opcode),
        Instruction::LdAR16 => ld_a_r16(cpu, opcode),
        Instruction::LdAN16 => ld_a_n16(cpu, opcode),
        Instruction::LdhAN16 => ldh_a_n16(cpu, opcode),
        Instruction::LdhAC => ldh_a_c(cpu, opcode),
        Instruction::LdHliA => ld_hli_a(cpu, opcode),
        Instruction::LdHldA => ld_hld_a(cpu, opcode),
        Instruction::LdAHld => ld_a_hld(cpu, opcode),
        Instruction::LdAHli => ld_a_hdi(cpu, opcode),
        Instruction::LdSpN16 => ld_sp_n16(cpu, opcode),
        Instruction::LdN16Sp => ld_n16_sp(cpu, opcode),
        Instruction::LdHlSpAddE8 => ld_hl_sp_add_e8(cpu, opcode),
        Instruction::LdSpHl => {
            ld_sp_hl(cpu, opcode);
            Ok(())
        },
        Instruction::IncR8 => inc_r8(cpu, opcode),
        Instruction::IncR16 => {
            inc_r16(cpu, opcode);
            Ok(())
        },
        Instruction::DecR8 => dec_r8(cpu, opcode),
        Instruction::SubR8 => sub_r8(cpu, opcode),
        Instruction::CpAR8 => cp_a_r8(cpu, opcode),
        Instruction::CpAN8 => cp_a_n8(cpu, opcode),
        Instruction::XorAR8 => xor_a_r8(cpu, opcode),
        Instruction::JrCcN16 => jr_cc_n16(cpu, opcode),
        Instruction::JrN16 => jr_n16(cpu, opcode),
        Instruction::Call => call(cpu, opcode),
        Instruction::Ret => ret(cpu, opcode),
        Instruction::RetCc => ret_cc(cpu, opcode),
        Instruction::PushR16 => push_r16(cpu, opcode),
        Instruction::PopR16 => pop_r16(cpu, opcode),
        Instruction::BitU3R8 => bit_u3_r8(cpu, opcode),
        Instruction::Rla => {
            rla(cpu, opcode);
            Ok(())
        },
        Instruction::RlR8 => rl_r8(cpu, opcode),
    }
}

/// The fault for an opcode that no table holds. `m` is the machine after
/// the opcode was fetched, so the opcode came from the address before its
/// program counter, and the snapshot shows the machine with the program
/// counter at that address.
pub open spec fn unknown_opcode(m: Machine, opcode: u8, extended: Option<u8>) -> Fault {
    Fault::UnknownOpcode {
        opcode,
        extended,
        address: wrap16(m.pc - 1),
        snapshot: m.skip(-1).snapshot(),
    }
}

/// What the dispatcher does with an opcode that was fetched: the
/// instruction that the primary table holds for it, or, after the prefix,
/// the one that the extended table holds for the next byte. An opcode that
/// neither table holds is a fault.
pub open spec fn execute(m: Machine, opcode: u8) -> Result<Machine, Fault> {
    if opcode == PREFIX {
        match m.fetch8() {
            Err(fault) => Err(fault),
            Ok(second) => match extended_instruction_of(second) {
                None => Err(unknown_opcode(m, opcode, Some(second))),
                Some(instruction) => m.skip(1).perform(instruction, second),
            },
        }
    } else {
        match instruction_of(opcode) {
            None => Err(unknown_opcode(m, opcode, None)),
            Some(instruction) => m.perform(instruction, opcode),
        }
    }
}

/// Dispatches an opcode that was fetched from the address before the
/// program counter. On a fault the machine is as it was at the call.
pub fn execute_instruction(cpu: &mut CPU, opcode: u8) -> (res: Result<(), Fault>)
    requires
        old(cpu).wf(),
    ensures
        final(cpu).wf(),
        outcome(old(cpu)@, final(cpu)@, res, execute(old(cpu)@, opcode)),
{
    let start: u16 = cpu.get_pc();
    let address: u16 = start.wrapping_sub(1);
    let mut snapshot = cpu.snapshot();
    snapshot.pc = address;
    if opcode == PREFIX {
        let second = match cpu.fetch_n8() {
            Err(fault) => {
                return Err(fault);
            },
            Ok(second) => second,
        };
        let res = match lookup_extended(second) {
            None => Err(Fault::UnknownOpcode { opcode, extended: Some(second), address, snapshot }),
            Some(instruction) => perform(cpu, instruction, second),
        };
        if res.is_err() {
            cpu.set_pc(start);
        }
        res
    } else {
        match lookup(opcode) {
            None => Err(Fault::UnknownOpcode { opcode, extended: None, address, snapshot }),
            Some(instruction) => perform(cpu, instruction, opcode),
        }
    }
}

} // verus!
