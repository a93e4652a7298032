//! Setting, clearing and testing single bits.

use vstd::prelude::*;
use crate::cpu::{FlagsRegister, Register16bTarget, RegisterTarget};
use crate::gameboy::{Gameboy, GameboyView};
use crate::instructions::alu::bit_mask;

verus! {

/// The flags after a bit is tested: zero when the bit is clear; the carry
/// stays.
pub open spec fn bit_flags(flags: FlagsRegister, value: u8, bit_position: u8) -> FlagsRegister {
    FlagsRegister {
        zero: value & bit_mask(bit_position) == 0,
        subtract: false,
        half_carry: true,
        carry: flags.carry,
    }
}

/// `SET b, (HL)`: the bit is set in the byte that `HL` points at.
pub open spec fn spec_set_mem_at_hl(s: GameboyView, bit_position: u8) -> (GameboyView, u8) {
    (s.write_byte(s.hl(), s.read_byte(s.hl()) | bit_mask(bit_position)), 4)
}

/// Performs `SET b, (HL)` and gives the ticks that it took.
pub fn set_mem_at_hl(gameboy: &mut Gameboy, bit_position: u8) -> (ticks: u8)
    requires
        bit_position < 8,
    ensures
        (final(gameboy)@, ticks) == spec_set_mem_at_hl(old(gameboy)@, bit_position),
        old(gameboy).wf() ==> final(gameboy).wf(),
{
    let hl = gameboy.cpu.registers.get_u16(Register16bTarget::HL);
    let value = gameboy.read_byte(hl);
    let result = value | (1u8 << bit_position);
    gameboy.write_byte(hl, result);
    4
}

/// `SET b, r`: the bit is set in the register.
pub open spec fn spec_set_r(s: GameboyView, target: RegisterTarget, bit_position: u8) -> (
    GameboyView,
    u8,
) {
    (s.set_u8(target, s.get_u8(target) | bit_mask(bit_position)), 4)
}

/// Performs `SET b, r` and gives the ticks that it took.
pub fn set_r(gameboy: &mut Gameboy, target: RegisterTarget, bit_position: u8) -> (ticks: u8)
    requires
        bit_position < 8,
    ensures
        (final(gameboy)@, ticks) == spec_set_r(old(gameboy)@, target, bit_position),
        old(gameboy).wf() ==> final(gameboy).wf(),
{
    let value = gameboy.cpu.registers.get_u8(target);
    let result = value | (1u8 << bit_position);
    gameboy.cpu.registers.set_u8(target, result);
    4
}

/// `RES b, (HL)`: the bit is cleared in the byte that `HL` points at.
pub open spec fn spec_res_mem_at_hl(s: GameboyView, bit_position: u8) -> (GameboyView, u8) {
    (s.write_byte(s.hl(), s.read_byte(s.hl()) & !bit_mask(bit_position)), 4)
}

/// Performs `RES b, (HL)` and gives the ticks that it took.
pub fn res_mem_at_hl(gameboy: &mut Gameboy, bit_position: u8) -> (ticks: u8)
    requires
        bit_position < 8,
    ensures
        (final(gameboy)@, ticks) == spec_res_mem_at_hl(old(gameboy)@, bit_position),
        old(gameboy).wf() ==> final(gameboy).wf(),
{
    let hl = gameboy.cpu.registers.get_u16(Register16bTarget::HL);
    let value = gameboy.read_byte(hl);
    let result = value & !(1u8 << bit_position);
    gameboy.write_byte(hl, result);
    4
}

/// `RES b, r`: the bit is cleared in the register.
pub open spec fn spec_res_r(s: GameboyView, target: RegisterTarget, bit_position: u8) -> (
    GameboyView,
    u8,
) {
    (s.set_u8(target, s.get_u8(target) & !bit_mask(bit_position)), 4)
}

/// Performs `RES b, r` and gives the ticks that it took.
pub fn res_r(gameboy: &mut Gameboy, target: RegisterTarget, bit_position: u8) -> (ticks: u8)
    requires
        bit_position < 8,
    ensures
        (final(gameboy)@, ticks) == spec_res_r(old(gameboy)@, target, bit_position),
        old(gameboy).wf() ==> final(gameboy).wf(),
{
    let value = gameboy.cpu.registers.get_u8(target);
    let result = value & !(1u8 << bit_position);
    gameboy.cpu.registers.set_u8(target, result);
    4
}

/// `BIT b, r`: the zero flag tells whether the bit of the register is
/// clear.
pub open spec fn spec_bit_r(s: GameboyView, target: RegisterTarget, bit_position: u8) -> (
    GameboyView,
    u8,
) {
    (s.with_flags(bit_flags(s.flags(), s.get_u8(target), bit_position)), 8)
}

/// Performs `BIT b, r` and gives the ticks that it took.
pub fn bit_r(gameboy: &mut Gameboy, target: RegisterTarget, bit_position: u8) -> (ticks: u8)
    requires
        bit_position < 8,
    ensures
        (final(gameboy)@, ticks) == spec_bit_r(old(gameboy)@, target, bit_position),
        old(gameboy).wf() ==> final(gameboy).wf(),
{
    let value = gameboy.cpu.registers.get_u8(target);
    let result = value & (1u8 << bit_position);
    gameboy.cpu.registers.f.zero = result == 0;
    gameboy.cpu.registers.f.subtract = false;
    gameboy.cpu.registers.f.half_carry = true;
    8
}

/// `BIT b, (HL)`: the zero flag tells whether the bit of the byte that `HL`
/// points at is clear.
pub open spec fn spec_bit_mem_at_hl(s: GameboyView, bit_position: u8) -> (GameboyView, u8) {
    (s.with_flags(bit_flags(s.flags(), s.read_byte(s.hl()), bit_position)), 16)
}

/// Performs `BIT b, (HL)` and gives the ticks that it took.
pub fn bit_mem_at_hl(gameboy: &mut Gameboy, bit_position: u8) -> (ticks: u8)
    requires
        bit_position < 8,
    ensures
        (final(gameboy)@, ticks) == spec_bit_mem_at_hl(old(gameboy)@, bit_position),
        old(gameboy).wf() ==> final(gameboy).wf(),
{
    let addr = gameboy.cpu.registers.get_u16(Register16bTarget::HL);
    let value = gameboy.read_byte(addr);
    let result = value & (1u8 << bit_position);
    gameboy.cpu.registers.f.zero = result == 0;
    gameboy.cpu.registers.f.subtract = false;
    gameboy.cpu.registers.f.half_carry = true;
    16
}

} // verus!
