//! Subtractions from the accumulator with the carry flag as a borrow.

use vstd::prelude::*;
use crate::cpu::{Register16bTarget, RegisterTarget};
use crate::gameboy::{Gameboy, GameboyView};
use crate::instructions::alu::{difference8, difference8_flags, sub8};

verus! {

/// `SBC A, r`: the register and the carry are subtracted from the
/// accumulator.
pub open spec fn spec_sbc_r_r_a(s: GameboyView, target: RegisterTarget) -> (GameboyView, u8) {
    let b = s.get_u8(target);
    let c = s.flags().carry;
    (s.with_accumulator(difference8(s.a(), b, c), difference8_flags(s.a(), b, c)), 4)
}

/// Performs `SBC A, r` and gives the ticks that it took.
pub fn sbc_r_r_a(gameboy: &mut Gameboy, target: RegisterTarget) -> (ticks: u8)
    ensures
        (final(gameboy)@, ticks) == spec_sbc_r_r_a(old(gameboy)@, target),
        old(gameboy).wf() ==> final(gameboy).wf(),
{
    let operand = gameboy.cpu.registers.get_u8(target);
    let (value, flags) = sub8(gameboy.cpu.registers.a, operand, gameboy.cpu.registers.f.carry);
    gameboy.cpu.registers.a = value;
    gameboy.cpu.registers.f = flags;
    4
}

/// `SBC A, d8`: the byte after the opcode and the carry are subtracted from
/// the accumulator.
pub open spec fn spec_sbc_n8(s: GameboyView) -> (GameboyView, u8) {
    let (s1, b) = s.read_next_byte();
    let c = s1.flags().carry;
    (s1.with_accumulator(difference8(s1.a(), b, c), difference8_flags(s1.a(), b, c)), 8)
}

/// Performs `SBC A, d8` and gives the ticks that it took.
pub fn sbc_n8(gameboy: &mut Gameboy) -> (ticks: u8)
    ensures
        (final(gameboy)@, ticks) == spec_sbc_n8(old(gameboy)@),
        old(gameboy).wf() ==> final(gameboy).wf(),
{
    let operand = gameboy.read_next_byte();
    let (value, flags) = sub8(gameboy.cpu.registers.a, operand, gameboy.cpu.registers.f.carry);
    gameboy.cpu.registers.a = value;
    gameboy.cpu.registers.f = flags;
    8
}

/// `SBC A, (HL)`: the byte that `HL` points at and the carry are subtracted
/// from the accumulator.
pub open spec fn spec_sbc_mem_at_hl(s: GameboyView) -> (GameboyView, u8) {
    let b = s.read_byte(s.hl());
    let c = s.flags().carry;
    (s.with_accumulator(difference8(s.a(), b, c), difference8_flags(s.a(), b, c)), 8)
}

/// Performs `SBC A, (HL)` and gives the ticks that it took.
pub fn sbc_mem_at_hl(gameboy: &mut Gameboy) -> (ticks: u8)
    ensures
        (final(gameboy)@, ticks) == spec_sbc_mem_at_hl(old(gameboy)@),
        old(gameboy).wf() ==> final(gameboy).wf(),
{
    let hl = gameboy.cpu.registers.get_u16(Register16bTarget::HL);
    let operand = gameboy.read_byte(hl);
    let (value, flags) = sub8(gameboy.cpu.registers.a, operand, gameboy.cpu.registers.f.carry);
    gameboy.cpu.registers.a = value;
    gameboy.cpu.registers.f = flags;
    8
}

} // verus!
