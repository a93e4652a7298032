//! The processor's register file and flags.

use vstd::prelude::*;

verus! {

/// Tag of an 8-bit register.
#[derive(Debug, Copy, Clone, PartialEq, Eq, Structural)]
pub enum RegisterTarget {
    A,
    B,
    C,
    D,
    E,
    F,
    H,
    L,
}

/// Tag of a 16-bit register pair.
#[derive(Debug, Copy, Clone, PartialEq, Eq, Structural)]
pub enum Register16bTarget {
    AF,
    BC,
    DE,
    HL,
    SP,
    PC,
}

/// The four processor flags. In byte form they occupy bits 7 to 4; the low
/// nibble of the byte form is always zero.
#[derive(Debug, Copy, Clone, PartialEq, Eq, Structural)]
pub struct FlagsRegister {
    pub zero: bool,
    pub subtract: bool,
    pub half_carry: bool,
    pub carry: bool,
}

/// The bit of the zero flag in the byte form.
pub const ZERO_FLAG_MASK: u8 = 0x80;

/// The bit of the subtract flag in the byte form.
pub const SUBTRACT_FLAG_MASK: u8 = 0x40;

/// The bit of the half-carry flag in the byte form.
pub const HALF_CARRY_FLAG_MASK: u8 = 0x20;

/// The bit of the carry flag in the byte form.
pub const CARRY_FLAG_MASK: u8 = 0x10;

impl FlagsRegister {
    /// The byte form of the flags: each flag contributes the weight of its bit.
    pub open spec fn to_byte(self) -> u8 {
        ((if self.zero { 0x80int } else { 0 })
            + (if self.subtract { 0x40int } else { 0 })
            + (if self.half_carry { 0x20int } else { 0 })
            + (if self.carry { 0x10int } else { 0 })) as u8
    }

    /// The flags held by a byte: bits 7 to 4, the low nibble is ignored.
    pub open spec fn of_byte(byte: u8) -> FlagsRegister {
        FlagsRegister {
            zero: (byte / 0x80) % 2 == 1,
            subtract: (byte / 0x40) % 2 == 1,
            half_carry: (byte / 0x20) % 2 == 1,
            carry: (byte / 0x10) % 2 == 1,
        }
    }
}

impl Default for FlagsRegister {
    fn default() -> (flags: FlagsRegister)
        ensures
            flags == (FlagsRegister {
                zero: false,
                subtract: false,
                half_carry: false,
                carry: false,
            }),
    {
        FlagsRegister { zero: false, subtract: false, half_carry: false, carry: false }
    }
}

impl From<FlagsRegister> for u8 {
    fn from(flag: FlagsRegister) -> (byte: u8) {
        let z: u8 = if flag.zero { ZERO_FLAG_MASK } else { 0 };
        let n: u8 = if flag.subtract { SUBTRACT_FLAG_MASK } else { 0 };
        let h: u8 = if flag.half_carry { HALF_CARRY_FLAG_MASK } else { 0 };
        let c: u8 = if flag.carry { CARRY_FLAG_MASK } else { 0 };
        z + n + h + c
    }
}

impl vstd::std_specs::convert::FromSpecImpl<FlagsRegister> for u8 {
    open spec fn obeys_from_spec() -> bool {
        true
    }

    open spec fn from_spec(flag: FlagsRegister) -> u8 {
        flag.to_byte()
    }
}

impl From<u8> for FlagsRegister {
    fn from(byte: u8) -> (flags: FlagsRegister) {
        FlagsRegister {
            zero: (byte / ZERO_FLAG_MASK) % 2 == 1,
            subtract: (byte / SUBTRACT_FLAG_MASK) % 2 == 1,
            half_carry: (byte / HALF_CARRY_FLAG_MASK) % 2 == 1,
            carry: (byte / CARRY_FLAG_MASK) % 2 == 1,
        }
    }
}

impl vstd::std_specs::convert::FromSpecImpl<u8> for FlagsRegister {
    open spec fn obeys_from_spec() -> bool {
        true
    }

    open spec fn from_spec(byte: u8) -> FlagsRegister {
        FlagsRegister::of_byte(byte)
    }
}

/// Converting flags to their byte form and back gives the same four flags,
/// and the low nibble of the byte form is zero.
pub proof fn lemma_flags_round_trip(flags: FlagsRegister)
    ensures
        FlagsRegister::of_byte(flags.to_byte()) == flags,
        flags.to_byte() % 16 == 0,
        flags.to_byte() & 0x0F == 0,
{
    let byte = flags.to_byte();
    assert(byte % 16 == 0 ==> byte & 0x0F == 0) by (bit_vector);
}

/// Converting a byte to flags and back keeps the high nibble and clears the
/// low one.
pub proof fn lemma_byte_round_trip(byte: u8)
    ensures
        FlagsRegister::of_byte(byte).to_byte() == byte - byte % 16,
{
}

/// The integer wrapped into the range of a byte.
pub open spec fn wrap8(n: int) -> u8 {
    (n % 0x100) as u8
}

/// The integer wrapped into the range of a 16-bit value.
pub open spec fn wrap16(n: int) -> u16 {
    (n % 0x10000) as u16
}

/// The signed value of a byte in two's complement.
pub open spec fn signed(byte: u8) -> int {
    if byte < 0x80 {
        byte as int
    } else {
        byte - 0x100
    }
}

/// The high byte of a 16-bit value.
pub open spec fn high_byte(value: u16) -> u8 {
    (value / 256) as u8
}

/// The low byte of a 16-bit value.
pub open spec fn low_byte(value: u16) -> u8 {
    (value % 256) as u8
}

/// The 16-bit value with the given high and low bytes.
pub open spec fn word(high: u8, low: u8) -> u16 {
    (high * 256 + low) as u16
}

/// Splits a 16-bit value into its high and low bytes.
pub fn split_word(value: u16) -> (bytes: (u8, u8))
    ensures
        bytes.0 == high_byte(value),
        bytes.1 == low_byte(value),
        word(bytes.0, bytes.1) == value,
{
    ((value / 256) as u8, (value % 256) as u8)
}

/// Composes a 16-bit value from its high and low bytes.
pub fn join_word(high: u8, low: u8) -> (value: u16)
    ensures
        value == word(high, low),
        high_byte(value) == high,
        low_byte(value) == low,
{
    (high as u16) * 256 + (low as u16)
}

/// The register file: seven 8-bit registers, the flags, the stack pointer
/// and the program counter.
#[derive(Debug, Copy, Clone, PartialEq, Eq, Structural)]
pub struct Registers {
    pub a: u8,
    pub b: u8,
    pub c: u8,
    pub d: u8,
    pub e: u8,
    pub h: u8,
    pub l: u8,
    pub f: FlagsRegister,
    pub sp: u16,
    pub pc: u16,
}

impl Default for Registers {
    fn default() -> (registers: Registers)
        ensures
            registers == Registers::zeroed(),
    {
        Registers {
            a: 0,
            b: 0,
            c: 0,
            d: 0,
            e: 0,
            h: 0,
            l: 0,
            f: FlagsRegister { zero: false, subtract: false, half_carry: false, carry: false },
            sp: 0,
            pc: 0,
        }
    }
}

impl Registers {
    /// The register file with every register zero and every flag clear.
    pub open spec fn zeroed() -> Registers {
        Registers {
            a: 0,
            b: 0,
            c: 0,
            d: 0,
            e: 0,
            h: 0,
            l: 0,
            f: FlagsRegister { zero: false, subtract: false, half_carry: false, carry: false },
            sp: 0,
            pc: 0,
        }
    }

    /// The value of an 8-bit register; `F` reads as the byte form of the flags.
    pub open spec fn spec_get_u8(self, target: RegisterTarget) -> u8 {
        match target {
            RegisterTarget::A => self.a,
            RegisterTarget::B => self.b,
            RegisterTarget::C => self.c,
            RegisterTarget::D => self.d,
            RegisterTarget::E => self.e,
            RegisterTarget::H => self.h,
            RegisterTarget::L => self.l,
            RegisterTarget::F => self.f.to_byte(),
        }
    }

    /// The register file after one 8-bit register is set; setting `F` keeps
    /// the high nibble of the value only.
    pub open spec fn spec_set_u8(self, target: RegisterTarget, value: u8) -> Registers {
        match target {
            RegisterTarget::A => Registers { a: value, ..self },
            RegisterTarget::B => Registers { b: value, ..self },
            RegisterTarget::C => Registers { c: value, ..self },
            RegisterTarget::D => Registers { d: value, ..self },
            RegisterTarget::E => Registers { e: value, ..self },
            RegisterTarget::H => Registers { h: value, ..self },
            RegisterTarget::L => Registers { l: value, ..self },
            RegisterTarget::F => Registers { f: FlagsRegister::of_byte(value), ..self },
        }
    }

    /// The value of a register pair: the first register is the high byte.
    pub open spec fn spec_get_u16(self, target: Register16bTarget) -> u16 {
        match target {
            Register16bTarget::AF => word(self.a, self.f.to_byte()),
            Register16bTarget::BC => word(self.b, self.c),
            Register16bTarget::DE => word(self.d, self.e),
            Register16bTarget::HL => word(self.h, self.l),
            Register16bTarget::SP => self.sp,
            Register16bTarget::PC => self.pc,
        }
    }

    /// The register file after a register pair is set: both halves change
    /// together.
    pub open spec fn spec_set_u16(self, target: Register16bTarget, value: u16) -> Registers {
        match target {
            Register16bTarget::AF => Registers {
                a: high_byte(value),
                f: FlagsRegister::of_byte(low_byte(value)),
                ..self
            },
            Register16bTarget::BC => Registers { b: high_byte(value), c: low_byte(value), ..self },
            Register16bTarget::DE => Registers { d: high_byte(value), e: low_byte(value), ..self },
            Register16bTarget::HL => Registers { h: high_byte(value), l: low_byte(value), ..self },
            Register16bTarget::SP => Registers { sp: value, ..self },
            Register16bTarget::PC => Registers { pc: value, ..self },
        }
    }

    /// Reads an 8-bit register.
    pub fn get_u8(&self, target: RegisterTarget) -> (value: u8)
        ensures
            value == self.spec_get_u8(target),
    {
        match target {
            RegisterTarget::A => self.a,
            RegisterTarget::B => self.b,
            RegisterTarget::C => self.c,
            RegisterTarget::D => self.d,
            RegisterTarget::E => self.e,
            RegisterTarget::H => self.h,
            RegisterTarget::L => self.l,
            RegisterTarget::F => u8::from(self.f),
        }
    }

    /// Sets an 8-bit register.
    pub fn set_u8(&mut self, target: RegisterTarget, value: u8)
        ensures
            *final(self) == old(self).spec_set_u8(target, value),
    {
        match target {
            RegisterTarget::A => self.a = value,
            RegisterTarget::B => self.b = value,
            RegisterTarget::C => self.c = value,
            RegisterTarget::D => self.d = value,
            RegisterTarget::E => self.e = value,
            RegisterTarget::H => self.h = value,
            RegisterTarget::L => self.l = value,
            RegisterTarget::F => self.f = FlagsRegister::from(value),
        }
    }

    /// Reads a register pair.
    pub fn get_u16(&self, target: Register16bTarget) -> (value: u16)
        ensures
            value == self.spec_get_u16(target),
    {
        match target {
            Register16bTarget::AF => join_word(self.a, u8::from(self.f)),
            Register16bTarget::BC => join_word(self.b, self.c),
            Register16bTarget::DE => join_word(self.d, self.e),
            Register16bTarget::HL => join_word(self.h, self.l),
            Register16bTarget::SP => self.sp,
            Register16bTarget::PC => self.pc,
        }
    }

    /// Sets a register pair.
    pub fn set_u16(&mut self, target: Register16bTarget, value: u16)
        ensures
            *final(self) == old(self).spec_set_u16(target, value),
    {
        let (high, low) = split_word(value);
        match target {
            Register16bTarget::BC => {
                self.b = high;
                self.c = low;
            },
            Register16bTarget::DE => {
                self.d = high;
                self.e = low;
            },
            Register16bTarget::HL => {
                self.h = high;
                self.l = low;
            },
            Register16bTarget::SP => self.sp = value,
            Register16bTarget::PC => self.pc = value,
            Register16bTarget::AF => {
                self.a = high;
                self.f = FlagsRegister::from(low);
            },
        }
    }
}

/// Setting a register pair and reading it back gives the value that was
/// set; for `AF` the low nibble, which the flags cannot hold, reads as zero.
pub proof fn lemma_set_get_u16(registers: Registers, target: Register16bTarget, value: u16)
    ensures
        target != Register16bTarget::AF ==> registers.spec_set_u16(target, value).spec_get_u16(
            target,
        ) == value,
        target == Register16bTarget::AF ==> registers.spec_set_u16(target, value).spec_get_u16(
            target,
        ) == value - value % 16,
{
    lemma_byte_round_trip(low_byte(value));
}

/// Setting an 8-bit register and reading it back gives the value that was
/// set; for `F` the low nibble reads as zero.
pub proof fn lemma_set_get_u8(registers: Registers, target: RegisterTarget, value: u8)
    ensures
        target != RegisterTarget::F ==> registers.spec_set_u8(target, value).spec_get_u8(target)
            == value,
        target == RegisterTarget::F ==> registers.spec_set_u8(target, value).spec_get_u8(target)
            == value - value % 16,
{
    lemma_byte_round_trip(value);
}

/// The processor: its registers and whether it is halted.
#[derive(Debug, Copy, Clone, PartialEq, Eq, Structural)]
pub struct CPU {
    pub registers: Registers,
    pub halted: bool,
}

impl Default for CPU {
    fn default() -> (cpu: CPU)
        ensures
            cpu == (CPU { registers: Registers::zeroed(), halted: false }),
    {
        CPU { registers: Registers::default(), halted: false }
    }
}


} // verus!
