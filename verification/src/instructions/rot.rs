//! Rotations by one bit, through the carry flag or around the byte.

use vstd::prelude::*;
use crate::cpu::{FlagsRegister, Register16bTarget, RegisterTarget};
use crate::gameboy::{Gameboy, GameboyView};
use crate::instructions::alu::{
    high_bit, low_bit, rotate_left, rotate_left_through, rotate_right, rotate_right_through,
    shift_flags,
};

verus! {

/// `RLA`: the accumulator is rotated left through the carry; the zero flag
/// tells whether the result is zero.
pub open spec fn spec_rl_a(s: GameboyView) -> (GameboyView, u8) {
    let value = s.a();
    let carry = s.flags().carry;
    let result = rotate_left_through(value, carry);
    let flags = FlagsRegister {
        zero: result == 0,
        subtract: false,
        half_carry: false,
        carry: high_bit(value),
    };
    (s.with_accumulator(result, flags), 4)
}

/// Performs `RLA` and gives the ticks that it took.
pub fn rl_a(gameboy: &mut Gameboy) -> (ticks: u8)
    ensures
        (final(gameboy)@, ticks) == spec_rl_a(old(gameboy)@),
        old(gameboy).wf() ==> final(gameboy).wf(),
{
    let value = gameboy.cpu.registers.a;
    let carry = gameboy.cpu.registers.f.carry;
    let result = (value << 1u8) | (if carry { 1u8 } else { 0u8 });
    gameboy.cpu.registers.a = result;
    gameboy.cpu.registers.f.zero = result == 0;
    gameboy.cpu.registers.f.subtract = false;
    gameboy.cpu.registers.f.half_carry = false;
    gameboy.cpu.registers.f.carry = value & 0x80 != 0;
    4
}

/// `RLCA`: the accumulator is rotated left, its highest bit also going to the
/// carry; the zero flag tells whether the result is zero.
pub open spec fn spec_rlc_a(s: GameboyView) -> (GameboyView, u8) {
    let value = s.a();
    let result = rotate_left(value);
    let flags = FlagsRegister {
        zero: result == 0,
        subtract: false,
        half_carry: false,
        carry: high_bit(value),
    };
    (s.with_accumulator(result, flags), 4)
}

/// Performs `RLCA` and gives the ticks that it took.
pub fn rlc_a(gameboy: &mut Gameboy) -> (ticks: u8)
    ensures
        (final(gameboy)@, ticks) == spec_rlc_a(old(gameboy)@),
        old(gameboy).wf() ==> final(gameboy).wf(),
{
    let value = gameboy.cpu.registers.a;
    let result = (value << 1u8) | (value >> 7u8);
    gameboy.cpu.registers.a = result;
    gameboy.cpu.registers.f.zero = result == 0;
    gameboy.cpu.registers.f.subtract = false;
    gameboy.cpu.registers.f.half_carry = false;
    gameboy.cpu.registers.f.carry = value & 0x80 != 0;
    4
}

/// `RRA`: the accumulator is rotated right through the carry; the zero flag is
/// cleared.
pub open spec fn spec_rr_a(s: GameboyView) -> (GameboyView, u8) {
    let value = s.a();
    let carry = s.flags().carry;
    let result = rotate_right_through(value, carry);
    let flags = FlagsRegister {
        zero: false,
        subtract: false,
        half_carry: false,
        carry: low_bit(value),
    };
    (s.with_accumulator(result, flags), 4)
}

/// Performs `RRA` and gives the ticks that it took.
pub fn rr_a(gameboy: &mut Gameboy) -> (ticks: u8)
    ensures
        (final(gameboy)@, ticks) == spec_rr_a(old(gameboy)@),
        old(gameboy).wf() ==> final(gameboy).wf(),
{
    let value = gameboy.cpu.registers.a;
    let carry = gameboy.cpu.registers.f.carry;
    let result = (value >> 1u8) | (if carry { 0x80u8 } else { 0u8 });
    gameboy.cpu.registers.a = result;
    gameboy.cpu.registers.f.zero = false;
    gameboy.cpu.registers.f.subtract = false;
    gameboy.cpu.registers.f.half_carry = false;
    gameboy.cpu.registers.f.carry = value & 0x01 != 0;
    4
}

/// `RRCA`: the accumulator is rotated right, its lowest bit also going to the
/// carry; the zero flag is cleared.
pub open spec fn spec_rrc_a(s: GameboyView) -> (GameboyView, u8) {
    let value = s.a();
    let result = rotate_right(value);
    let flags = FlagsRegister {
        zero: false,
        subtract: false,
        half_carry: false,
        carry: low_bit(value),
    };
    (s.with_accumulator(result, flags), 4)
}

/// Performs `RRCA` and gives the ticks that it took.
pub fn rrc_a(gameboy: &mut Gameboy) -> (ticks: u8)
    ensures
        (final(gameboy)@, ticks) == spec_rrc_a(old(gameboy)@),
        old(gameboy).wf() ==> final(gameboy).wf(),
{
    let value = gameboy.cpu.registers.a;
    let result = (value >> 1u8) | (value << 7u8);
    gameboy.cpu.registers.a = result;
    gameboy.cpu.registers.f.zero = false;
    gameboy.cpu.registers.f.subtract = false;
    gameboy.cpu.registers.f.half_carry = false;
    gameboy.cpu.registers.f.carry = value & 0x01 != 0;
    4
}

/// `RL r`: the register is rotated left through the carry.
pub open spec fn spec_rl_r(s: GameboyView, target: RegisterTarget) -> (GameboyView, u8) {
    let value = s.get_u8(target);
    let carry = s.flags().carry;
    let result = rotate_left_through(value, carry);
    (s.with_flags(shift_flags(result, high_bit(value))).set_u8(target, result), 8)
}

/// Performs `RL r` and gives the ticks that it took.
pub fn rl_r(gameboy: &mut Gameboy, target: RegisterTarget) -> (ticks: u8)
    ensures
        (final(gameboy)@, ticks) == spec_rl_r(old(gameboy)@, target),
        old(gameboy).wf() ==> final(gameboy).wf(),
{
    let value = gameboy.cpu.registers.get_u8(target);
    let carry = gameboy.cpu.registers.f.carry;
    let result = (value << 1u8) | (if carry { 1u8 } else { 0u8 });
    gameboy.cpu.registers.f.carry = value & 0x80 != 0;
    gameboy.cpu.registers.f.zero = result == 0;
    gameboy.cpu.registers.f.subtract = false;
    gameboy.cpu.registers.f.half_carry = false;
    gameboy.cpu.registers.set_u8(target, result);
    8
}

/// `RL (HL)`: the byte that `HL` points at is rotated left through the carry.
pub open spec fn spec_rl_mem_at_hl(s: GameboyView) -> (GameboyView, u8) {
    let value = s.read_byte(s.hl());
    let carry = s.flags().carry;
    let result = rotate_left_through(value, carry);
    (s.with_flags(shift_flags(result, high_bit(value))).write_byte(s.hl(), result), 16)
}

/// Performs `RL (HL)` and gives the ticks that it took.
pub fn rl_mem_at_hl(gameboy: &mut Gameboy) -> (ticks: u8)
    ensures
        (final(gameboy)@, ticks) == spec_rl_mem_at_hl(old(gameboy)@),
        old(gameboy).wf() ==> final(gameboy).wf(),
{
    let addr = gameboy.cpu.registers.get_u16(Register16bTarget::HL);
    let value = gameboy.read_byte(addr);
    let carry = gameboy.cpu.registers.f.carry;
    let result = (value << 1u8) | (if carry { 1u8 } else { 0u8 });
    gameboy.cpu.registers.f.carry = value & 0x80 != 0;
    gameboy.cpu.registers.f.zero = result == 0;
    gameboy.cpu.registers.f.subtract = false;
    gameboy.cpu.registers.f.half_carry = false;
    gameboy.write_byte(addr, result);
    16
}

/// `RR r`: the register is rotated right through the carry.
pub open spec fn spec_rr_r(s: GameboyView, target: RegisterTarget) -> (GameboyView, u8) {
    let value = s.get_u8(target);
    let carry = s.flags().carry;
    let result = rotate_right_through(value, carry);
    (s.with_flags(shift_flags(result, low_bit(value))).set_u8(target, result), 8)
}

/// Performs `RR r` and gives the ticks that it took.
pub fn rr_r(gameboy: &mut Gameboy, target: RegisterTarget) -> (ticks: u8)
    ensures
        (final(gameboy)@, ticks) == spec_rr_r(old(gameboy)@, target),
        old(gameboy).wf() ==> final(gameboy).wf(),
{
    let value = gameboy.cpu.registers.get_u8(target);
    let carry = gameboy.cpu.registers.f.carry;
    let result = (value >> 1u8) | (if carry { 0x80u8 } else { 0u8 });
    gameboy.cpu.registers.f.carry = value & 0x01 != 0;
    gameboy.cpu.registers.f.zero = result == 0;
    gameboy.cpu.registers.f.subtract = false;
    gameboy.cpu.registers.f.half_carry = false;
    gameboy.cpu.registers.set_u8(target, result);
    8
}

/// `RR (HL)`: the byte that `HL` points at is rotated right through the
/// carry.
pub open spec fn spec_rr_mem_at_hl(s: GameboyView) -> (GameboyView, u8) {
    let value = s.read_byte(s.hl());
    let carry = s.flags().carry;
    let result = rotate_right_through(value, carry);
    (s.with_flags(shift_flags(result, low_bit(value))).write_byte(s.hl(), result), 16)
}

/// Performs `RR (HL)` and gives the ticks that it took.
pub fn rr_mem_at_hl(gameboy: &mut Gameboy) -> (ticks: u8)
    ensures
        (final(gameboy)@, ticks) == spec_rr_mem_at_hl(old(gameboy)@),
        old(gameboy).wf() ==> final(gameboy).wf(),
{
    let addr = gameboy.cpu.registers.get_u16(Register16bTarget::HL);
    let value = gameboy.read_byte(addr);
    let carry = gameboy.cpu.registers.f.carry;
    let result = (value >> 1u8) | (if carry { 0x80u8 } else { 0u8 });
    gameboy.cpu.registers.f.carry = value & 0x01 != 0;
    gameboy.cpu.registers.f.zero = result == 0;
    gameboy.cpu.registers.f.subtract = false;
    gameboy.cpu.registers.f.half_carry = false;
    gameboy.write_byte(addr, result);
    16
}

/// `RLC r`: the register is rotated left, its highest bit also going to the carry.
pub open spec fn spec_rlc_r(s: GameboyView, target: RegisterTarget) -> (GameboyView, u8) {
    let value = s.get_u8(target);
    let result = rotate_left(value);
    (s.with_flags(shift_flags(result, high_bit(value))).set_u8(target, result), 8)
}

/// Performs `RLC r` and gives the ticks that it took.
pub fn rlc_r(gameboy: &mut Gameboy, target: RegisterTarget) -> (ticks: u8)
    ensures
        (final(gameboy)@, ticks) == spec_rlc_r(old(gameboy)@, target),
        old(gameboy).wf() ==> final(gameboy).wf(),
{
    let value = gameboy.cpu.registers.get_u8(target);
    let result = (value << 1u8) | (value >> 7u8);
    gameboy.cpu.registers.f.carry = value & 0x80 != 0;
    gameboy.cpu.registers.f.zero = result == 0;
    gameboy.cpu.registers.f.subtract = false;
    gameboy.cpu.registers.f.half_carry = false;
    gameboy.cpu.registers.set_u8(target, result);
    8
}

/// `RLC (HL)`: the byte that `HL` points at is rotated left, its highest bit
/// also going to the carry.
pub open spec fn spec_rlc_mem_at_hl(s: GameboyView) -> (GameboyView, u8) {
    let value = s.read_byte(s.hl());
    let result = rotate_left(value);
    (s.with_flags(shift_flags(result, high_bit(value))).write_byte(s.hl(), result), 16)
}

/// Performs `RLC (HL)` and gives the ticks that it took.
pub fn rlc_mem_at_hl(gameboy: &mut Gameboy) -> (ticks: u8)
    ensures
        (final(gameboy)@, ticks) == spec_rlc_mem_at_hl(old(gameboy)@),
        old(gameboy).wf() ==> final(gameboy).wf(),
{
    let addr = gameboy.cpu.registers.get_u16(Register16bTarget::HL);
    let value = gameboy.read_byte(addr);
    let result = (value << 1u8) | (value >> 7u8);
    gameboy.cpu.registers.f.carry = value & 0x80 != 0;
    gameboy.cpu.registers.f.zero = result == 0;
    gameboy.cpu.registers.f.subtract = false;
    gameboy.cpu.registers.f.half_carry = false;
    gameboy.write_byte(addr, result);
    16
}

/// `RRC r`: the register is rotated right, its lowest bit also going to the carry.
pub open spec fn spec_rrc_r(s: GameboyView, target: RegisterTarget) -> (GameboyView, u8) {
    let value = s.get_u8(target);
    let result = rotate_right(value);
    (s.with_flags(shift_flags(result, low_bit(value))).set_u8(target, result), 8)
}

/// Performs `RRC r` and gives the ticks that it took.
pub fn rrc_r(gameboy: &mut Gameboy, target: RegisterTarget) -> (ticks: u8)
    ensures
        (final(gameboy)@, ticks) == spec_rrc_r(old(gameboy)@, target),
        old(gameboy).wf() ==> final(gameboy).wf(),
{
    let value = gameboy.cpu.registers.get_u8(target);
    let result = (value >> 1u8) | (value << 7u8);
    gameboy.cpu.registers.f.carry = value & 0x01 != 0;
    gameboy.cpu.registers.f.zero = result == 0;
    gameboy.cpu.registers.f.subtract = false;
    gameboy.cpu.registers.f.half_carry = false;
    gameboy.cpu.registers.set_u8(target, result);
    8
}

/// `RRC (HL)`: the byte that `HL` points at is rotated right, its lowest bit
/// also going to the carry.
pub open spec fn spec_rrc_mem_at_hl(s: GameboyView) -> (GameboyView, u8) {
    let value = s.read_byte(s.hl());
    let result = rotate_right(value);
    (s.with_flags(shift_flags(result, low_bit(value))).write_byte(s.hl(), result), 16)
}

/// Performs `RRC (HL)` and gives the ticks that it took.
pub fn rrc_mem_at_hl(gameboy: &mut Gameboy) -> (ticks: u8)
    ensures
        (final(gameboy)@, ticks) == spec_rrc_mem_at_hl(old(gameboy)@),
        old(gameboy).wf() ==> final(gameboy).wf(),
{
    let addr = gameboy.cpu.registers.get_u16(Register16bTarget::HL);
    let value = gameboy.read_byte(addr);
    let result = (value >> 1u8) | (value << 7u8);
    gameboy.cpu.registers.f.carry = value & 0x01 != 0;
    gameboy.cpu.registers.f.zero = result == 0;
    gameboy.cpu.registers.f.subtract = false;
    gameboy.cpu.registers.f.half_carry = false;
    gameboy.write_byte(addr, result);
    16
}

} // verus!
