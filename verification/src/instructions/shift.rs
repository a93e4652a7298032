//! Shifts by one bit.

use vstd::prelude::*;
use crate::cpu::{Register16bTarget, RegisterTarget};
use crate::gameboy::{Gameboy, GameboyView};
use crate::instructions::alu::{high_bit, low_bit, shift_flags, shift_right_arithmetic};

verus! {

/// `SLA r`: the register is shifted left; its highest bit goes to the carry.
pub open spec fn spec_sla(s: GameboyView, target: RegisterTarget) -> (GameboyView, u8) {
    let value = s.get_u8(target);
    let result = value << 1u8;
    (s.with_flags(shift_flags(result, high_bit(value))).set_u8(target, result), 8)
}

/// Performs `SLA r` and gives the ticks that it took.
pub fn sla(gameboy: &mut Gameboy, target: RegisterTarget) -> (ticks: u8)
    ensures
        (final(gameboy)@, ticks) == spec_sla(old(gameboy)@, target),
        old(gameboy).wf() ==> final(gameboy).wf(),
{
    let value = gameboy.cpu.registers.get_u8(target);
    let result = value << 1u8;
    gameboy.cpu.registers.f.carry = value & 0x80 != 0;
    gameboy.cpu.registers.f.zero = result == 0;
    gameboy.cpu.registers.f.subtract = false;
    gameboy.cpu.registers.f.half_carry = false;
    gameboy.cpu.registers.set_u8(target, result);
    8
}

/// `SLA (HL)`: the byte that `HL` points at is shifted left; its highest bit
/// goes to the carry.
pub open spec fn spec_sla_mem_at_hl(s: GameboyView) -> (GameboyView, u8) {
    let value = s.read_byte(s.hl());
    let result = value << 1u8;
    (s.with_flags(shift_flags(result, high_bit(value))).write_byte(s.hl(), result), 16)
}

/// Performs `SLA (HL)` and gives the ticks that it took.
pub fn sla_mem_at_hl(gameboy: &mut Gameboy) -> (ticks: u8)
    ensures
        (final(gameboy)@, ticks) == spec_sla_mem_at_hl(old(gameboy)@),
        old(gameboy).wf() ==> final(gameboy).wf(),
{
    let addr = gameboy.cpu.registers.get_u16(Register16bTarget::HL);
    let value = gameboy.read_byte(addr);
    let result = value << 1u8;
    gameboy.cpu.registers.f.carry = value & 0x80 != 0;
    gameboy.cpu.registers.f.zero = result == 0;
    gameboy.cpu.registers.f.subtract = false;
    gameboy.cpu.registers.f.half_carry = false;
    gameboy.write_byte(addr, result);
    16
}

/// `SRA r`: the register is shifted right, keeping its highest bit; its lowest bit
/// goes to the carry.
pub open spec fn spec_sra(s: GameboyView, target: RegisterTarget) -> (GameboyView, u8) {
    let value = s.get_u8(target);
    let result = shift_right_arithmetic(value);
    (s.with_flags(shift_flags(result, low_bit(value))).set_u8(target, result), 8)
}

/// Performs `SRA r` and gives the ticks that it took.
pub fn sra(gameboy: &mut Gameboy, target: RegisterTarget) -> (ticks: u8)
    ensures
        (final(gameboy)@, ticks) == spec_sra(old(gameboy)@, target),
        old(gameboy).wf() ==> final(gameboy).wf(),
{
    let value = gameboy.cpu.registers.get_u8(target);
    let result = (value >> 1u8) | (value & 0x80);
    gameboy.cpu.registers.f.carry = value & 0x01 != 0;
    gameboy.cpu.registers.f.zero = result == 0;
    gameboy.cpu.registers.f.subtract = false;
    gameboy.cpu.registers.f.half_carry = false;
    gameboy.cpu.registers.set_u8(target, result);
    8
}

/// `SRA (HL)`: the byte that `HL` points at is shifted right, keeping its
/// highest bit; its lowest bit goes to the carry.
pub open spec fn spec_sra_mem_at_hl(s: GameboyView) -> (GameboyView, u8) {
    let value = s.read_byte(s.hl());
    let result = shift_right_arithmetic(value);
    (s.with_flags(shift_flags(result, low_bit(value))).write_byte(s.hl(), result), 16)
}

/// Performs `SRA (HL)` and gives the ticks that it took.
pub fn sra_mem_at_hl(gameboy: &mut Gameboy) -> (ticks: u8)
    ensures
        (final(gameboy)@, ticks) == spec_sra_mem_at_hl(old(gameboy)@),
        old(gameboy).wf() ==> final(gameboy).wf(),
{
    let addr = gameboy.cpu.registers.get_u16(Register16bTarget::HL);
    let value = gameboy.read_byte(addr);
    let result = (value >> 1u8) | (value & 0x80);
    gameboy.cpu.registers.f.carry = value & 0x01 != 0;
    gameboy.cpu.registers.f.zero = result == 0;
    gameboy.cpu.registers.f.subtract = false;
    gameboy.cpu.registers.f.half_carry = false;
    gameboy.write_byte(addr, result);
    16
}

/// `SRL r`: the register is shifted right; its lowest bit goes to the carry.
pub open spec fn spec_srl(s: GameboyView, target: RegisterTarget) -> (GameboyView, u8) {
    let value = s.get_u8(target);
    let result = value >> 1u8;
    (s.with_flags(shift_flags(result, low_bit(value))).set_u8(target, result), 8)
}

/// Performs `SRL r` and gives the ticks that it took.
pub fn srl(gameboy: &mut Gameboy, target: RegisterTarget) -> (ticks: u8)
    ensures
        (final(gameboy)@, ticks) == spec_srl(old(gameboy)@, target),
        old(gameboy).wf() ==> final(gameboy).wf(),
{
    let value = gameboy.cpu.registers.get_u8(target);
    let result = value >> 1u8;
    gameboy.cpu.registers.f.carry = value & 0x01 != 0;
    gameboy.cpu.registers.f.zero = result == 0;
    gameboy.cpu.registers.f.subtract = false;
    gameboy.cpu.registers.f.half_carry = false;
    gameboy.cpu.registers.set_u8(target, result);
    8
}

/// `SRL (HL)`: the byte that `HL` points at is shifted right; its lowest bit
/// goes to the carry.
pub open spec fn spec_srl_mem_at_hl(s: GameboyView) -> (GameboyView, u8) {
    let value = s.read_byte(s.hl());
    let result = value >> 1u8;
    (s.with_flags(shift_flags(result, low_bit(value))).write_byte(s.hl(), result), 16)
}

/// Performs `SRL (HL)` and gives the ticks that it took.
pub fn srl_mem_at_hl(gameboy: &mut Gameboy) -> (ticks: u8)
    ensures
        (final(gameboy)@, ticks) == spec_srl_mem_at_hl(old(gameboy)@),
        old(gameboy).wf() ==> final(gameboy).wf(),
{
    let addr = gameboy.cpu.registers.get_u16(Register16bTarget::HL);
    let value = gameboy.read_byte(addr);
    let result = value >> 1u8;
    gameboy.cpu.registers.f.carry = value & 0x01 != 0;
    gameboy.cpu.registers.f.zero = result == 0;
    gameboy.cpu.registers.f.subtract = false;
    gameboy.cpu.registers.f.half_carry = false;
    gameboy.write_byte(addr, result);
    16
}

} // verus!
