//! Subtractions from the accumulator.

use vstd::prelude::*;
use crate::cpu::{Register16bTarget, RegisterTarget};
use crate::gameboy::{Gameboy, GameboyView};
use crate::instructions::alu::{difference8, difference8_flags, sub8};

verus! {

/// `SUB r`: the register is subtracted from the accumulator.
pub open spec fn spec_sub_r_r_a(s: GameboyView, target: RegisterTarget) -> (GameboyView, u8) {
    let b = s.get_u8(target);
    (s.with_accumulator(difference8(s.a(), b, false), difference8_flags(s.a(), b, false)), 8)
}

/// Performs `SUB r` and gives the ticks that it took.
pub fn sub_r_r_a(gameboy: &mut Gameboy, target: RegisterTarget) -> (ticks: u8)
    ensures
        (final(gameboy)@, ticks) == spec_sub_r_r_a(old(gameboy)@, target),
        old(gameboy).wf() ==> final(gameboy).wf(),
{
    let target_value = gameboy.cpu.registers.get_u8(target);
    let (value, flags) = sub8(gameboy.cpu.registers.a, target_value, false);
    gameboy.cpu.registers.a = value;
    gameboy.cpu.registers.f = flags;
    8
}

/// `SUB d8`: the byte after the opcode is subtracted from the accumulator.
pub open spec fn spec_sub_d8(s: GameboyView) -> (GameboyView, u8) {
    let (s1, b) = s.read_next_byte();
    (s1.with_accumulator(difference8(s1.a(), b, false), difference8_flags(s1.a(), b, false)), 8)
}

/// Performs `SUB d8` and gives the ticks that it took.
pub fn sub_d8(gameboy: &mut Gameboy) -> (ticks: u8)
    ensures
        (final(gameboy)@, ticks) == spec_sub_d8(old(gameboy)@),
        old(gameboy).wf() ==> final(gameboy).wf(),
{
    let d8 = gameboy.read_next_byte();
    let (value, flags) = sub8(gameboy.cpu.registers.a, d8, false);
    gameboy.cpu.registers.a = value;
    gameboy.cpu.registers.f = flags;
    8
}

/// `SUB (HL)`: the byte that `HL` points at is subtracted from the
/// accumulator.
pub open spec fn spec_sub_mem_at_hl(s: GameboyView) -> (GameboyView, u8) {
    let b = s.read_byte(s.hl());
    (s.with_accumulator(difference8(s.a(), b, false), difference8_flags(s.a(), b, false)), 8)
}

/// Performs `SUB (HL)` and gives the ticks that it took.
pub fn sub_mem_at_hl(gameboy: &mut Gameboy) -> (ticks: u8)
    ensures
        (final(gameboy)@, ticks) == spec_sub_mem_at_hl(old(gameboy)@),
        old(gameboy).wf() ==> final(gameboy).wf(),
{
    let hl = gameboy.cpu.registers.get_u16(Register16bTarget::HL);
    let target_value = gameboy.read_byte(hl);
    let (value, flags) = sub8(gameboy.cpu.registers.a, target_value, false);
    gameboy.cpu.registers.a = value;
    gameboy.cpu.registers.f = flags;
    8
}

} // verus!
