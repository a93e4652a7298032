//! Exchange of the two nibbles of a byte.

use vstd::prelude::*;
use crate::cpu::{Register16bTarget, RegisterTarget};
use crate::gameboy::{Gameboy, GameboyView};
use crate::instructions::alu::{shift_flags, swap_nibbles};

verus! {

/// `SWAP r`: the two nibbles of the register change places.
pub open spec fn spec_swap(s: GameboyView, target: RegisterTarget) -> (GameboyView, u8) {
    let value = s.get_u8(target);
    let result = swap_nibbles(value);
    (s.with_flags(shift_flags(result, false)).set_u8(target, result), 2)
}

/// Performs `SWAP r` and gives the ticks that it took.
pub fn swap(gameboy: &mut Gameboy, target: RegisterTarget) -> (ticks: u8)
    ensures
        (final(gameboy)@, ticks) == spec_swap(old(gameboy)@, target),
        old(gameboy).wf() ==> final(gameboy).wf(),
{
    let value = gameboy.cpu.registers.get_u8(target);
    let result = (value << 4u8) | (value >> 4u8);
    gameboy.cpu.registers.f.carry = false;
    gameboy.cpu.registers.f.zero = result == 0;
    gameboy.cpu.registers.f.subtract = false;
    gameboy.cpu.registers.f.half_carry = false;
    gameboy.cpu.registers.set_u8(target, result);
    2
}

/// `SWAP (HL)`: the two nibbles of the byte that `HL` points at change places.
pub open spec fn spec_swap_mem_at_hl(s: GameboyView) -> (GameboyView, u8) {
    let value = s.read_byte(s.hl());
    let result = swap_nibbles(value);
    (s.with_flags(shift_flags(result, false)).write_byte(s.hl(), result), 4)
}

/// Performs `SWAP (HL)` and gives the ticks that it took.
pub fn swap_mem_at_hl(gameboy: &mut Gameboy) -> (ticks: u8)
    ensures
        (final(gameboy)@, ticks) == spec_swap_mem_at_hl(old(gameboy)@),
        old(gameboy).wf() ==> final(gameboy).wf(),
{
    let addr = gameboy.cpu.registers.get_u16(Register16bTarget::HL);
    let value = gameboy.read_byte(addr);
    let result = (value << 4u8) | (value >> 4u8);
    gameboy.cpu.registers.f.carry = false;
    gameboy.cpu.registers.f.zero = result == 0;
    gameboy.cpu.registers.f.subtract = false;
    gameboy.cpu.registers.f.half_carry = false;
    gameboy.write_byte(addr, result);
    4
}

} // verus!
