//! The 8-bit arithmetic and logic of the processor, on plain bytes.

use vstd::prelude::*;
use crate::cpu::{signed, wrap16, wrap8, FlagsRegister};

verus! {

/// The low nibble of a byte is its remainder by 16.
pub proof fn lemma_low_nibble(x: u8)
    by (bit_vector)
    ensures
        x & 0xF == x % 16,
        x & 0xF <= 15,
{
}

/// The sum of two bytes and a carry, wrapped to a byte.
pub open spec fn sum8(a: u8, b: u8, carry_in: bool) -> u8 {
    ((a + b + if carry_in { 1int } else { 0 }) % 0x100) as u8
}

/// The flags of an 8-bit addition: carry out of bit 7, half-carry out of
/// bit 3, zero when the wrapped sum is zero.
pub open spec fn sum8_flags(a: u8, b: u8, carry_in: bool) -> FlagsRegister {
    let c = if carry_in { 1int } else { 0 };
    FlagsRegister {
        zero: sum8(a, b, carry_in) == 0,
        subtract: false,
        half_carry: (a & 0xF) + (b & 0xF) + c > 0xF,
        carry: a + b + c > 0xFF,
    }
}

/// The difference of two bytes and a borrow, wrapped to a byte.
pub open spec fn difference8(a: u8, b: u8, borrow_in: bool) -> u8 {
    ((a - b - if borrow_in { 1int } else { 0 }) % 0x100) as u8
}

/// The flags of an 8-bit subtraction: borrow into bit 7, half-borrow into
/// bit 3, zero when the wrapped difference is zero.
pub open spec fn difference8_flags(a: u8, b: u8, borrow_in: bool) -> FlagsRegister {
    let c = if borrow_in { 1int } else { 0 };
    FlagsRegister {
        zero: difference8(a, b, borrow_in) == 0,
        subtract: true,
        half_carry: (a & 0xF) < (b & 0xF) + c,
        carry: a < b + c,
    }
}

/// The flags of a bitwise operation with the given result.
pub open spec fn logic_flags(value: u8, half_carry: bool) -> FlagsRegister {
    FlagsRegister { zero: value == 0, subtract: false, half_carry, carry: false }
}

/// The flags of a shift or a rotation with the given result and the bit
/// that left the byte.
pub open spec fn shift_flags(value: u8, carry: bool) -> FlagsRegister {
    FlagsRegister { zero: value == 0, subtract: false, half_carry: false, carry }
}

/// The byte rotated left by one bit through the carry.
pub open spec fn rotate_left_through(value: u8, carry: bool) -> u8 {
    (value << 1) | (if carry { 1u8 } else { 0u8 })
}

/// The byte rotated right by one bit through the carry.
pub open spec fn rotate_right_through(value: u8, carry: bool) -> u8 {
    (value >> 1) | (if carry { 0x80u8 } else { 0u8 })
}

/// The byte rotated left by one bit.
pub open spec fn rotate_left(value: u8) -> u8 {
    (value << 1) | (value >> 7)
}

/// The byte rotated right by one bit.
pub open spec fn rotate_right(value: u8) -> u8 {
    (value >> 1) | (value << 7)
}

/// The byte shifted right by one bit, its highest bit kept.
pub open spec fn shift_right_arithmetic(value: u8) -> u8 {
    (value >> 1) | (value & 0x80)
}

/// The byte with its two nibbles exchanged.
pub open spec fn swap_nibbles(value: u8) -> u8 {
    (value << 4) | (value >> 4)
}

/// Whether the highest bit of the byte is set.
pub open spec fn high_bit(value: u8) -> bool {
    value & 0x80 != 0
}

/// Whether the lowest bit of the byte is set.
pub open spec fn low_bit(value: u8) -> bool {
    value & 0x01 != 0
}

/// The byte with only the given bit set.
pub open spec fn bit_mask(bit_position: u8) -> u8 {
    1u8 << bit_position
}

/// Adds two bytes and a carry.
pub fn add8(a: u8, b: u8, carry_in: bool) -> (result: (u8, FlagsRegister))
    ensures
        result.0 == sum8(a, b, carry_in),
        result.1 == sum8_flags(a, b, carry_in),
{
    proof {
        lemma_low_nibble(a);
        lemma_low_nibble(b);
    }
    let c: u8 = if carry_in { 1 } else { 0 };
    let value = a.wrapping_add(b).wrapping_add(c);
    let carry = (a as u16) + (b as u16) + (c as u16) > 0xFF;
    let half_carry = (a & 0xF) + (b & 0xF) + c > 0xF;
    (value, FlagsRegister { zero: value == 0, subtract: false, half_carry, carry })
}

/// Subtracts a byte and a borrow from a byte.
pub fn sub8(a: u8, b: u8, borrow_in: bool) -> (result: (u8, FlagsRegister))
    ensures
        result.0 == difference8(a, b, borrow_in),
        result.1 == difference8_flags(a, b, borrow_in),
{
    proof {
        lemma_low_nibble(a);
        lemma_low_nibble(b);
    }
    let c: u8 = if borrow_in { 1 } else { 0 };
    let value = a.wrapping_sub(b).wrapping_sub(c);
    let carry = (a as u16) < (b as u16) + (c as u16);
    let half_carry = (a & 0xF) < (b & 0xF) + c;
    (value, FlagsRegister { zero: value == 0, subtract: true, half_carry, carry })
}

/// The flags after a byte is incremented: half-carry when its low nibble
/// was full; the carry stays.
pub open spec fn inc_flags(flags: FlagsRegister, value: u8) -> FlagsRegister {
    FlagsRegister {
        zero: value == 0xFF,
        subtract: false,
        half_carry: value % 16 == 15,
        carry: flags.carry,
    }
}

/// The flags after a byte is decremented: half-carry when its low nibble
/// was empty; the carry stays.
pub open spec fn dec_flags(flags: FlagsRegister, value: u8) -> FlagsRegister {
    FlagsRegister {
        zero: value == 1,
        subtract: true,
        half_carry: value % 16 == 0,
        carry: flags.carry,
    }
}

/// Adds one to a byte.
pub fn inc8(value: u8, flags: FlagsRegister) -> (result: (u8, FlagsRegister))
    ensures
        result.0 == wrap8(value + 1),
        result.1 == inc_flags(flags, value),
{
    proof {
        lemma_low_nibble(value);
    }
    let new_value = value.wrapping_add(1);
    (
        new_value,
        FlagsRegister {
            zero: new_value == 0,
            subtract: false,
            half_carry: value & 0xF == 0xF,
            carry: flags.carry,
        },
    )
}

/// Takes one off a byte.
pub fn dec8(value: u8, flags: FlagsRegister) -> (result: (u8, FlagsRegister))
    ensures
        result.0 == wrap8(value - 1),
        result.1 == dec_flags(flags, value),
{
    proof {
        lemma_low_nibble(value);
    }
    let new_value = value.wrapping_sub(1);
    (
        new_value,
        FlagsRegister {
            zero: new_value == 0,
            subtract: true,
            half_carry: value & 0x0F == 0,
            carry: flags.carry,
        },
    )
}

/// Adds one to a 16-bit value.
pub fn inc16(value: u16) -> (result: u16)
    ensures
        result == wrap16(value + 1),
{
    value.wrapping_add(1)
}

/// Takes one off a 16-bit value.
pub fn dec16(value: u16) -> (result: u16)
    ensures
        result == wrap16(value - 1),
{
    value.wrapping_sub(1)
}

/// The accumulator after decimal adjustment. After a subtraction 0x60 is
/// taken off if the carry is set and 0x06 if the half-carry is set. After an
/// addition 0x60 is added if the carry is set or the value exceeds 0x99, and
/// 0x06 if the half-carry is set or the low nibble exceeds 9.
pub open spec fn decimal_adjusted(value: u8, flags: FlagsRegister) -> u8 {
    if flags.subtract {
        let high = if flags.carry {
            wrap8(value - 0x60)
        } else {
            value
        };
        if flags.half_carry {
            wrap8(high - 0x06)
        } else {
            high
        }
    } else {
        let high = if flags.carry || value > 0x99 {
            wrap8(value + 0x60)
        } else {
            value
        };
        if flags.half_carry || value % 16 > 9 {
            wrap8(high + 0x06)
        } else {
            high
        }
    }
}

/// The flags after decimal adjustment: the carry is set when an addition
/// needed the high adjustment, and stays otherwise.
pub open spec fn decimal_adjusted_flags(value: u8, flags: FlagsRegister) -> FlagsRegister {
    FlagsRegister {
        zero: decimal_adjusted(value, flags) == 0,
        subtract: flags.subtract,
        half_carry: false,
        carry: flags.carry || (!flags.subtract && value > 0x99),
    }
}

/// Adjusts a byte to packed decimal.
#[verifier::rlimit(40)]
pub fn decimal_adjust(value: u8, flags: FlagsRegister) -> (result: (u8, FlagsRegister))
    ensures
        result.0 == decimal_adjusted(value, flags),
        result.1 == decimal_adjusted_flags(value, flags),
{
    let mut adjusted = value;
    let mut carry = flags.carry;
    if flags.subtract {
        if flags.carry {
            adjusted = adjusted.wrapping_sub(0x60);
        }
        if flags.half_carry {
            adjusted = adjusted.wrapping_sub(0x6);
        }
    } else {
        if flags.carry || adjusted > 0x99 {
            adjusted = adjusted.wrapping_add(0x60);
            carry = true;
        }
        proof {
            lemma_low_nibble(adjusted);
            assert(adjusted % 16 == value % 16);
        }
        if flags.half_carry || (adjusted & 0x0f) > 0x09 {
            adjusted = adjusted.wrapping_add(0x6);
        }
    }
    (
        adjusted,
        FlagsRegister { zero: adjusted == 0, subtract: flags.subtract, half_carry: false, carry },
    )
}

/// The flags of a 16-bit addition: carry out of bit 15 and half-carry out
/// of bit 11; the zero flag stays.
pub open spec fn sum16_flags(flags: FlagsRegister, a: u16, b: u16) -> FlagsRegister {
    FlagsRegister {
        zero: flags.zero,
        subtract: false,
        half_carry: a % 0x1000 + b % 0x1000 > 0xFFF,
        carry: a + b > 0xFFFF,
    }
}

/// Adds two 16-bit values.
pub fn add16(a: u16, b: u16, flags: FlagsRegister) -> (result: (u16, FlagsRegister))
    ensures
        result.0 == wrap16(a + b),
        result.1 == sum16_flags(flags, a, b),
{
    (
        a.wrapping_add(b),
        FlagsRegister {
            zero: flags.zero,
            subtract: false,
            half_carry: (a % 0x1000) + (b % 0x1000) > 0xFFF,
            carry: (a as u32) + (b as u32) > 0xFFFF,
        },
    )
}

/// Adds a signed byte to a 16-bit value.
pub fn offset16(base: u16, offset: u8) -> (result: u16)
    ensures
        result == wrap16(base + signed(offset)),
{
    if offset >= 0x80 {
        base.wrapping_sub(0x100 - offset as u16)
    } else {
        base.wrapping_add(offset as u16)
    }
}

/// The address in the highest page with the given low byte.
pub fn high_page(low: u8) -> (address: u16)
    ensures
        address == 0xFF00 + low,
{
    0xFF00 + low as u16
}

/// The flags of `HL = SP + r8`. For an operand that is not negative the
/// carries come out of bit 7 and bit 3 of the low byte of the stack
/// pointer. For a negative operand each flag is set unless taking the
/// magnitude of the operand off the low byte, or the low nibble, borrows.
pub open spec fn stack_offset_flags(sp: u16, offset: u8) -> FlagsRegister {
    if offset >= 0x80 {
        let magnitude = 0x100 - offset;
        FlagsRegister {
            zero: false,
            subtract: false,
            half_carry: sp % 0x10 >= magnitude % 0x10,
            carry: sp % 0x100 >= magnitude,
        }
    } else {
        FlagsRegister {
            zero: false,
            subtract: false,
            half_carry: sp % 0x10 + offset % 0x10 > 0xF,
            carry: sp % 0x100 + offset > 0xFF,
        }
    }
}

/// Computes the flags of `HL = SP + r8`.
pub fn stack_offset(sp: u16, offset: u8) -> (flags: FlagsRegister)
    ensures
        flags == stack_offset_flags(sp, offset),
{
    if offset >= 0x80 {
        let magnitude: u16 = 0x100 - offset as u16;
        FlagsRegister {
            zero: false,
            subtract: false,
            half_carry: !(sp % 0x10 < magnitude % 0x10),
            carry: !(sp % 0x100 < magnitude),
        }
    } else {
        FlagsRegister {
            zero: false,
            subtract: false,
            half_carry: (sp % 0x10) + (offset as u16 % 0x10) > 0xF,
            carry: (sp % 0x100) + (offset as u16) > 0xFF,
        }
    }
}

/// The four flag rules of 8-bit addition and subtraction, without a carry or
/// borrow coming in: an addition carries when the sum exceeds 0xFF and
/// half-carries when the sum of the low nibbles exceeds 0xF; a subtraction
/// borrows when the first operand is the smaller one and half-borrows when
/// its low nibble is the smaller one; zero is set when the wrapped result is
/// zero, which for a subtraction means equal operands.
pub proof fn lemma_flag_rules(a: u8, b: u8)
    ensures
        sum8_flags(a, b, false).carry <==> a as u16 + b as u16 > 0xFF,
        sum8_flags(a, b, false).half_carry <==> (a & 0xF) + (b & 0xF) > 0xF,
        sum8_flags(a, b, false).half_carry <==> a % 16 + b % 16 > 15,
        sum8_flags(a, b, false).zero <==> sum8(a, b, false) == 0,
        sum8_flags(a, b, false).zero <==> (a + b == 0 || a + b == 0x100),
        !sum8_flags(a, b, false).subtract,
        difference8_flags(a, b, false).carry <==> a < b,
        difference8_flags(a, b, false).half_carry <==> (a & 0xF) < (b & 0xF),
        difference8_flags(a, b, false).half_carry <==> a % 16 < b % 16,
        difference8_flags(a, b, false).zero <==> a == b,
        difference8_flags(a, b, false).subtract,
{
    lemma_low_nibble(a);
    lemma_low_nibble(b);
}

} // verus!
