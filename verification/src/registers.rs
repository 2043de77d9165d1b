//! The register file: eight 8-bit registers, three of whose pairs read as
//! 16-bit values, and the four flags packed in the high nibble of `F`.

use vstd::prelude::*;

verus! {

/// The identity of a register: eight 8-bit registers and three pairs. `HL`
/// also stands for the byte that `HL` points at, where an operand field of
/// an opcode selects it.
#[derive(Clone, Copy, Debug, PartialEq, Eq, Structural)]
pub enum Register {
    A,
    B,
    C,
    D,
    E,
    H,
    L,
    F,
    BC,
    DE,
    HL,
}

/// The four flags: zero, subtract, half-carry and carry.
#[derive(Clone, Copy, Debug, PartialEq, Eq, Structural)]
pub enum Flag {
    Z,
    N,
    H,
    C,
}

impl Register {
    /// One of the eight 8-bit registers.
    pub open spec fn is_byte(self) -> bool {
        !self.is_pair()
    }

    /// One of the three pairs.
    pub open spec fn is_pair(self) -> bool {
        self == Register::BC || self == Register::DE || self == Register::HL
    }
}

impl Flag {
    /// The bit of `F` that holds the flag: bit 7 for zero, 6 for subtract,
    /// 5 for half-carry, 4 for carry.
    pub open spec fn mask(self) -> u8 {
        match self {
            Flag::Z => 0x80,
            Flag::N => 0x40,
            Flag::H => 0x20,
            Flag::C => 0x10,
        }
    }
}

/// The 16-bit value whose high byte is `hi` and whose low byte is `lo`.
pub open spec fn word(hi: u8, lo: u8) -> u16 {
    (hi * 256 + lo) as u16
}

/// The high byte of a 16-bit value.
pub open spec fn high(value: u16) -> u8 {
    (value / 256) as u8
}

/// The low byte of a 16-bit value.
pub open spec fn low(value: u16) -> u8 {
    (value % 256) as u8
}

/// Assembles a 16-bit value from its two bytes: `(hi << 8) | lo`.
pub fn make_word(hi: u8, lo: u8) -> (value: u16)
    ensures
        value == word(hi, lo),
        value == (hi as u16) << 8 | (lo as u16),
{
    assert(((hi as u16) << 8 | (lo as u16)) == (hi as u16) * 256 + (lo as u16)) by (bit_vector);
    (hi as u16) << 8 | (lo as u16)
}

/// The high byte of a 16-bit value: `value >> 8`.
pub fn high_byte(value: u16) -> (hi: u8)
    ensures
        hi == high(value),
        hi == value >> 8,
{
    assert(value >> 8 == value / 256 && value >> 8 < 256) by (bit_vector);
    (value >> 8) as u8
}

/// The low byte of a 16-bit value: `value & 0xFF`.
pub fn low_byte(value: u16) -> (lo: u8)
    ensures
        lo == low(value),
        lo == value & 0xFF,
{
    assert(value & 0xFF == value % 256 && value & 0xFF < 256) by (bit_vector);
    (value & 0xFF) as u8
}

/// The register selected by a 3-bit operand field: B, C, D, E, H, L, the
/// byte behind HL, A.
pub open spec fn register_8_of(index: u8) -> Register {
    if index == 0 {
        Register::B
    } else if index == 1 {
        Register::C
    } else if index == 2 {
        Register::D
    } else if index == 3 {
        Register::E
    } else if index == 4 {
        Register::H
    } else if index == 5 {
        Register::L
    } else if index == 6 {
        Register::HL
    } else {
        Register::A
    }
}

/// The pair selected by a 2-bit operand field below 3: BC, DE, HL. What the
/// field 3 selects depends on the instruction, so no table holds it.
pub open spec fn register_16_of(index: u8) -> Register {
    if index == 0 {
        Register::BC
    } else if index == 1 {
        Register::DE
    } else {
        Register::HL
    }
}

/// The values of the eight registers.
pub struct RegisterState {
    pub a: u8,
    pub f: u8,
    pub b: u8,
    pub c: u8,
    pub d: u8,
    pub e: u8,
    pub h: u8,
    pub l: u8,
}

impl RegisterState {
    /// The low nibble of `F` is zero.
    pub open spec fn wf(self) -> bool {
        self.f & 0x0F == 0
    }

    /// All registers zero.
    pub open spec fn zeroed() -> RegisterState {
        RegisterState { a: 0, f: 0, b: 0, c: 0, d: 0, e: 0, h: 0, l: 0 }
    }

    /// The value of an 8-bit register.
    pub open spec fn get_8(self, reg: Register) -> u8
        recommends
            reg.is_byte(),
    {
        match reg {
            Register::A => self.a,
            Register::F => self.f,
            Register::B => self.b,
            Register::C => self.c,
            Register::D => self.d,
            Register::E => self.e,
            Register::H => self.h,
            Register::L => self.l,
            _ => 0,
        }
    }

    /// The registers after `value` is stored in an 8-bit register. `F` keeps
    /// only the high nibble of what is stored in it.
    pub open spec fn set_8(self, reg: Register, value: u8) -> RegisterState
        recommends
            reg.is_byte(),
    {
        match reg {
            Register::A => RegisterState { a: value, ..self },
            Register::F => RegisterState { f: value & 0xF0, ..self },
            Register::B => RegisterState { b: value, ..self },
            Register::C => RegisterState { c: value, ..self },
            Register::D => RegisterState { d: value, ..self },
            Register::E => RegisterState { e: value, ..self },
            Register::H => RegisterState { h: value, ..self },
            Register::L => RegisterState { l: value, ..self },
            _ => self,
        }
    }

    /// The value of a pair: its first register is the high byte.
    pub open spec fn get_16(self, reg: Register) -> u16
        recommends
            reg.is_pair(),
    {
        match reg {
            Register::BC => word(self.b, self.c),
            Register::DE => word(self.d, self.e),
            Register::HL => word(self.h, self.l),
            _ => 0,
        }
    }

    /// The registers after `value` is stored in a pair.
    pub open spec fn set_16(self, reg: Register, value: u16) -> RegisterState
        recommends
            reg.is_pair(),
    {
        match reg {
            Register::BC => RegisterState { b: high(value), c: low(value), ..self },
            Register::DE => RegisterState { d: high(value), e: low(value), ..self },
            Register::HL => RegisterState { h: high(value), l: low(value), ..self },
            _ => self,
        }
    }

    /// Whether a flag is set.
    pub open spec fn get_flag(self, flag: Flag) -> bool {
        self.f & flag.mask() != 0
    }

    /// The registers after a flag is set or cleared.
    pub open spec fn set_flag(self, flag: Flag, value: bool) -> RegisterState {
        if value {
            RegisterState { f: self.f | flag.mask(), ..self }
        } else {
            RegisterState { f: self.f & !flag.mask(), ..self }
        }
    }

    /// The registers after all four flags are given.
    pub open spec fn set_flags(self, z: bool, n: bool, h: bool, c: bool) -> RegisterState {
        self.set_flag(Flag::Z, z).set_flag(Flag::N, n).set_flag(Flag::H, h).set_flag(Flag::C, c)
    }
}

/// The register file.
#[derive(Clone, Copy, Debug, PartialEq, Eq)]
pub struct Registers {
    a: u8,
    f: u8,
    b: u8,
    c: u8,
    d: u8,
    e: u8,
    h: u8,
    l: u8,
}

impl View for Registers {
    type V = RegisterState;

    closed spec fn view(&self) -> RegisterState {
        RegisterState {
            a: self.a,
            f: self.f,
            b: self.b,
            c: self.c,
            d: self.d,
            e: self.e,
            h: self.h,
            l: self.l,
        }
    }
}

impl Registers {
    /// The low nibble of `F` is zero.
    pub open spec fn wf(&self) -> bool {
        self@.wf()
    }

    /// A register file with every register zero.
    pub fn new() -> (regs: Registers)
        ensures
            regs@ == RegisterState::zeroed(),
            regs.wf(),
    {
        assert(0u8 & 0x0F == 0) by (bit_vector);
        Self { a: 0, f: 0, b: 0, c: 0, d: 0, e: 0, h: 0, l: 0 }
    }

    /// Reads an 8-bit register.
    pub fn get_8(&self, reg: &Register) -> (value: u8)
        requires
            reg.is_byte(),
        ensures
            value == self@.get_8(*reg),
    {
        match reg {
            Register::A => self.a,
            Register::F => self.f,
            Register::B => self.b,
            Register::C => self.c,
            Register::D => self.d,
            Register::E => self.e,
            Register::H => self.h,
            _ => self.l,
        }
    }

    /// Stores `value` in an 8-bit register; `F` keeps its high nibble only.
    pub fn set_8(&mut self, reg: &Register, value: u8)
        requires
            reg.is_byte(),
        ensures
            final(self)@ == old(self)@.set_8(*reg, value),
            old(self).wf() ==> final(self).wf(),
    {
        match reg {
            Register::A => self.a = value,
            Register::F => {
                assert((value & 0xF0) & 0x0F == 0) by (bit_vector);
                self.f = value & 0xF0
            },
            Register::B => self.b = value,
            Register::C => self.c = value,
            Register::D => self.d = value,
            Register::E => self.e = value,
            Register::H => self.h = value,
            _ => self.l = value,
        }
    }

    /// Reads a pair as `(high << 8) | low`.
    pub fn get_16(&self, reg: &Register) -> (value: u16)
        requires
            reg.is_pair(),
        ensures
            value == self@.get_16(*reg),
    {
        match reg {
            Register::BC => make_word(self.b, self.c),
            Register::DE => make_word(self.d, self.e),
            _ => make_word(self.h, self.l),
        }
    }

    /// Stores the two bytes of `value` in the registers of a pair.
    pub fn set_16(&mut self, reg: &Register, value: u16)
        requires
            reg.is_pair(),
        ensures
            final(self)@ == old(self)@.set_16(*reg, value),
            old(self).wf() ==> final(self).wf(),
    {
        match reg {
            Register::BC => {
                self.b = high_byte(value);
                self.c = low_byte(value);
            },
            Register::DE => {
                self.d = high_byte(value);
                self.e = low_byte(value);
            },
            _ => {
                self.h = high_byte(value);
                self.l = low_byte(value);
            },
        }
    }

    /// Sets or clears one flag and leaves the other bits of `F` alone.
    pub fn set_flag(&mut self, flag: &Flag, value: bool)
        ensures
            final(self)@ == old(self)@.set_flag(*flag, value),
            old(self).wf() ==> final(self).wf(),
    {
        let mask: u8 = match flag {
            Flag::C => 0x10,
            Flag::H => 0x20,
            Flag::N => 0x40,
            Flag::Z => 0x80,
        };
        let before: u8 = self.f;
        assert(before & 0x0F == 0 && (mask == 0x10 || mask == 0x20 || mask == 0x40 || mask == 0x80)
            ==> (before | mask) & 0x0F == 0 && (before & !mask) & 0x0F == 0) by (bit_vector);
        if value {
            self.f = before | mask;
        } else {
            self.f = before & !mask;
        }
    }

    /// Sets or clears all four flags.
    pub fn set_flags(&mut self, z: bool, n: bool, h: bool, c: bool)
        ensures
            final(self)@ == old(self)@.set_flags(z, n, h, c),
            old(self).wf() ==> final(self).wf(),
    {
        self.set_flag(&Flag::Z, z);
        self.set_flag(&Flag::N, n);
        self.set_flag(&Flag::H, h);
        self.set_flag(&Flag::C, c);
    }

    /// Reads one flag.
    pub fn get_flag(&self, flag: &Flag) -> (value: bool)
        ensures
            value == self@.get_flag(*flag),
    {
        let mask: u8 = match flag {
            Flag::C => 0x10,
            Flag::H => 0x20,
            Flag::N => 0x40,
            Flag::Z => 0x80,
        };
        (self.f & mask) != 0
    }

    /// Resolves a 3-bit operand field: 0 to 7 select B, C, D, E, H, L, the
    /// byte behind HL (returned as `HL`) and A.
    pub fn decode_register_8(&self, index: u8) -> (reg: Register)
        requires
            index < 8,
        ensures
            reg == register_8_of(index),
    {
        match index {
            0 => Register::B,
            1 => Register::C,
            2 => Register::D,
            3 => Register::E,
            4 => Register::H,
            5 => Register::L,
            6 => Register::HL,
            _ => Register::A,
        }
    }

    /// Resolves a 2-bit operand field below 3: BC, DE, HL. The field 3 is
    /// the stack pointer for some instructions and the pair of A and F for
    /// others, and each of those resolves it itself.
    pub fn decode_register_16(&self, index: u8) -> (reg: Register)
        requires
            index < 3,
        ensures
            reg == register_16_of(index),
            reg.is_pair(),
    {
        match index {
            0 => Register::BC,
            1 => Register::DE,
            _ => Register::HL,
        }
    }
}

/// A pair is a view over its two registers: a value stored in a pair is
/// read back from it, its high byte from the pair's first register and its
/// low byte from the second.
pub proof fn lemma_pair_is_view(s: RegisterState, value: u16)
    ensures
        s.set_16(Register::HL, value).get_16(Register::HL) == value,
        s.set_16(Register::HL, value).get_8(Register::H) == value >> 8,
        s.set_16(Register::HL, value).get_8(Register::L) == value & 0xFF,
        s.set_16(Register::DE, value).get_16(Register::DE) == value,
        s.set_16(Register::DE, value).get_8(Register::D) == value >> 8,
        s.set_16(Register::DE, value).get_8(Register::E) == value & 0xFF,
        s.set_16(Register::BC, value).get_16(Register::BC) == value,
        s.set_16(Register::BC, value).get_8(Register::B) == value >> 8,
        s.set_16(Register::BC, value).get_8(Register::C) == value & 0xFF,
{
    assert(value >> 8 == value / 256) by (bit_vector);
    assert(value & 0xFF == value % 256) by (bit_vector);
}

/// A byte stored in one half of a pair shows in the pair at once: the first
/// register is the pair's high byte, the second its low byte.
pub proof fn lemma_half_shows_in_pair(s: RegisterState, value: u8)
    ensures
        s.set_8(Register::H, value).get_16(Register::HL) == word(value, s.l),
        s.set_8(Register::L, value).get_16(Register::HL) == word(s.h, value),
        s.set_8(Register::D, value).get_16(Register::DE) == word(value, s.e),
        s.set_8(Register::E, value).get_16(Register::DE) == word(s.d, value),
        s.set_8(Register::B, value).get_16(Register::BC) == word(value, s.c),
        s.set_8(Register::C, value).get_16(Register::BC) == word(s.b, value),
{
}

/// A byte stored in a register is read back, but for `F`, which returns
/// its high nibble; every other register keeps its value.
pub proof fn lemma_get_after_set_8(s: RegisterState, reg: Register, other: Register, value: u8)
    requires
        reg.is_byte(),
        other.is_byte(),
    ensures
        reg != Register::F ==> s.set_8(reg, value).get_8(reg) == value,
        s.set_8(Register::F, value).get_8(Register::F) == value & 0xF0,
        other != reg ==> s.set_8(reg, value).get_8(other) == s.get_8(other),
{
}

/// A flag that was set or cleared reads as it was written, the other flags
/// keep their values, and the other registers are untouched.
pub proof fn lemma_flag_after_set(s: RegisterState, flag: Flag, other: Flag, value: bool)
    ensures
        s.set_flag(flag, value).get_flag(flag) == value,
        other != flag ==> s.set_flag(flag, value).get_flag(other) == s.get_flag(other),
        s.set_flag(flag, value) == (RegisterState { f: s.set_flag(flag, value).f, ..s }),
{
    let f = s.f;
    let m = flag.mask();
    let o = other.mask();
    assert((m == 0x10 || m == 0x20 || m == 0x40 || m == 0x80) ==> (f | m) & m != 0 && (f & !m) & m
        == 0) by (bit_vector);
    assert((m == 0x10 || m == 0x20 || m == 0x40 || m == 0x80) && (o == 0x10 || o == 0x20 || o
        == 0x40 || o == 0x80) && o != m ==> (f | m) & o == f & o && (f & !m) & o == f & o)
        by (bit_vector);
}

/// The low nibble of `F` reads zero whatever was written: after a byte is
/// stored in `F`, and after a flag is set or cleared in a register file
/// whose low nibble was zero.
pub proof fn lemma_low_nibble_is_zero(s: RegisterState, value: u8, flag: Flag, on: bool)
    ensures
        s.set_8(Register::F, value).get_8(Register::F) & 0x0F == 0,
        s.set_8(Register::F, value).wf(),
        s.wf() ==> s.set_flag(flag, on).wf(),
        s.wf() ==> s.set_flag(flag, on).get_8(Register::F) & 0x0F == 0,
{
    let f = s.f;
    let m = flag.mask();
    assert((value & 0xF0) & 0x0F == 0) by (bit_vector);
    assert(f & 0x0F == 0 && (m == 0x10 || m == 0x20 || m == 0x40 || m == 0x80) ==> (f | m) & 0x0F
        == 0 && (f & !m) & 0x0F == 0) by (bit_vector);
}

/// The four flags determine `F`: bit 7 is zero, bit 6 subtract, bit 5
/// half-carry and bit 4 carry.
pub proof fn lemma_flags_after_set_flags(s: RegisterState, z: bool, n: bool, h: bool, c: bool)
    ensures
        s.set_flags(z, n, h, c).get_flag(Flag::Z) == z,
        s.set_flags(z, n, h, c).get_flag(Flag::N) == n,
        s.set_flags(z, n, h, c).get_flag(Flag::H) == h,
        s.set_flags(z, n, h, c).get_flag(Flag::C) == c,
        s.wf() ==> s.set_flags(z, n, h, c).wf(),
{
    let s1 = s.set_flag(Flag::Z, z);
    let s2 = s1.set_flag(Flag::N, n);
    let s3 = s2.set_flag(Flag::H, h);
    lemma_flag_after_set(s, Flag::Z, Flag::Z, z);
    lemma_flag_after_set(s1, Flag::N, Flag::Z, n);
    lemma_flag_after_set(s2, Flag::H, Flag::Z, h);
    lemma_flag_after_set(s2, Flag::H, Flag::N, h);
    lemma_flag_after_set(s3, Flag::C, Flag::Z, c);
    lemma_flag_after_set(s3, Flag::C, Flag::N, c);
    lemma_flag_after_set(s3, Flag::C, Flag::H, c);
    lemma_low_nibble_is_zero(s, 0, Flag::Z, z);
    lemma_low_nibble_is_zero(s1, 0, Flag::N, n);
    lemma_low_nibble_is_zero(s2, 0, Flag::H, h);
    lemma_low_nibble_is_zero(s3, 0, Flag::C, c);
}

} // verus!
