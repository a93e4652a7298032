//! Comparisons with the accumulator: a subtraction that keeps only the
//! flags.

use vstd::prelude::*;
use crate::cpu::{Register16bTarget, RegisterTarget};
use crate::gameboy::{Gameboy, GameboyView};
use crate::instructions::alu::{difference8_flags, sub8};

verus! {

/// `CP d8`: the accumulator is compared with the byte after the opcode.
pub open spec fn spec_cp_d8(s: GameboyView) -> (GameboyView, u8) {
    let (s1, b) = s.read_next_byte();
    (s1.with_flags(difference8_flags(s1.a(), b, false)), 8)
}

/// Performs `CP d8` and gives the ticks that it took.
pub fn cp_d8(gameboy: &mut Gameboy) -> (ticks: u8)
    ensures
        (final(gameboy)@, ticks) == spec_cp_d8(old(gameboy)@),
        old(gameboy).wf() ==> final(gameboy).wf(),
{
    let value = gameboy.read_next_byte();
    let (_, flags) = sub8(gameboy.cpu.registers.a, value, false);
    gameboy.cpu.registers.f = flags;
    8
}

/// `CP r`: the accumulator is compared with the register.
pub open spec fn spec_cp(s: GameboyView, target: RegisterTarget) -> (GameboyView, u8) {
    (s.with_flags(difference8_flags(s.a(), s.get_u8(target), false)), 4)
}

/// Performs `CP r` and gives the ticks that it took.
pub fn cp(gameboy: &mut Gameboy, target: RegisterTarget) -> (ticks: u8)
    ensures
        (final(gameboy)@, ticks) == spec_cp(old(gameboy)@, target),
        old(gameboy).wf() ==> final(gameboy).wf(),
{
    let value = gameboy.cpu.registers.get_u8(target);
    let (_, flags) = sub8(gameboy.cpu.registers.a, value, false);
    gameboy.cpu.registers.f = flags;
    4
}

/// `CP (rr)`: the accumulator is compared with the byte that the register
/// pair points at.
pub open spec fn spec_cp_mem_at_r16(s: GameboyView, reg: Register16bTarget) -> (GameboyView, u8) {
    (s.with_flags(difference8_flags(s.a(), s.read_byte(s.get_u16(reg)), false)), 8)
}

/// Performs `CP (rr)` and gives the ticks that it took.
pub fn cp_mem_at_r16(gameboy: &mut Gameboy, reg: Register16bTarget) -> (ticks: u8)
    ensures
        (final(gameboy)@, ticks) == spec_cp_mem_at_r16(old(gameboy)@, reg),
        old(gameboy).wf() ==> final(gameboy).wf(),
{
    let addr = gameboy.cpu.registers.get_u16(reg);
    let value = gameboy.read_byte(addr);
    let (_, flags) = sub8(gameboy.cpu.registers.a, value, false);
    gameboy.cpu.registers.f = flags;
    8
}

} // verus!
