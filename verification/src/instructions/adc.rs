//! Additions to the accumulator with the carry flag coming in.

use vstd::prelude::*;
use crate::cpu::{Register16bTarget, RegisterTarget};
use crate::gameboy::{Gameboy, GameboyView};
use crate::instructions::alu::{add8, sum8, sum8_flags};

verus! {

/// `ADC A, r`: the register and the carry are added to the accumulator.
pub open spec fn spec_adc(s: GameboyView, target: RegisterTarget) -> (GameboyView, u8) {
    let b = s.get_u8(target);
    let c = s.flags().carry;
    (s.with_accumulator(sum8(s.a(), b, c), sum8_flags(s.a(), b, c)), 4)
}

/// Performs `ADC A, r` and gives the ticks that it took.
pub fn adc(gameboy: &mut Gameboy, target: RegisterTarget) -> (ticks: u8)
    ensures
        (final(gameboy)@, ticks) == spec_adc(old(gameboy)@, target),
        old(gameboy).wf() ==> final(gameboy).wf(),
{
    let addend = gameboy.cpu.registers.get_u8(target);
    let (value, flags) = add8(gameboy.cpu.registers.a, addend, gameboy.cpu.registers.f.carry);
    gameboy.cpu.registers.a = value;
    gameboy.cpu.registers.f = flags;
    4
}

/// `ADC A, d8`: the byte after the opcode and the carry are added to the
/// accumulator.
pub open spec fn spec_adc_n8(s: GameboyView) -> (GameboyView, u8) {
    let (s1, b) = s.read_next_byte();
    let c = s1.flags().carry;
    (s1.with_accumulator(sum8(s1.a(), b, c), sum8_flags(s1.a(), b, c)), 8)
}

/// Performs `ADC A, d8` and gives the ticks that it took.
pub fn adc_n8(gameboy: &mut Gameboy) -> (ticks: u8)
    ensures
        (final(gameboy)@, ticks) == spec_adc_n8(old(gameboy)@),
        old(gameboy).wf() ==> final(gameboy).wf(),
{
    let addend = gameboy.read_next_byte();
    let (value, flags) = add8(gameboy.cpu.registers.a, addend, gameboy.cpu.registers.f.carry);
    gameboy.cpu.registers.a = value;
    gameboy.cpu.registers.f = flags;
    8
}

/// `ADC A, (HL)`: the byte that `HL` points at and the carry are added to
/// the accumulator.
pub open spec fn spec_adc_mem_at_hl(s: GameboyView) -> (GameboyView, u8) {
    let b = s.read_byte(s.hl());
    let c = s.flags().carry;
    (s.with_accumulator(sum8(s.a(), b, c), sum8_flags(s.a(), b, c)), 8)
}

/// Performs `ADC A, (HL)` and gives the ticks that it took.
pub fn adc_mem_at_hl(gameboy: &mut Gameboy) -> (ticks: u8)
    ensures
        (final(gameboy)@, ticks) == spec_adc_mem_at_hl(old(gameboy)@),
        old(gameboy).wf() ==> final(gameboy).wf(),
{
    let addr = gameboy.cpu.registers.get_u16(Register16bTarget::HL);
    let addend = gameboy.read_byte(addr);
    let (value, flags) = add8(gameboy.cpu.registers.a, addend, gameboy.cpu.registers.f.carry);
    gameboy.cpu.registers.a = value;
    gameboy.cpu.registers.f = flags;
    8
}

} // verus!
