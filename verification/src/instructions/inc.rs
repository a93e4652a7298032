//! Increments.

use vstd::prelude::*;
use crate::cpu::{wrap16, wrap8, Register16bTarget, RegisterTarget};
use crate::gameboy::{Gameboy, GameboyView};
use crate::instructions::alu::{inc16, inc8, inc_flags};

verus! {

/// `INC r`: the register goes up by one, wrapping to zero.
pub open spec fn spec_inc_r(s: GameboyView, target: RegisterTarget) -> (GameboyView, u8) {
    let value = s.get_u8(target);
    let set = s.set_u8(target, wrap8(value + 1));
    (set.with_flags(inc_flags(set.flags(), value)), 4)
}

/// Performs `INC r` and gives the ticks that it took.
pub fn inc_r(gameboy: &mut Gameboy, target: RegisterTarget) -> (ticks: u8)
    ensures
        (final(gameboy)@, ticks) == spec_inc_r(old(gameboy)@, target),
        old(gameboy).wf() ==> final(gameboy).wf(),
{
    let current_value = gameboy.cpu.registers.get_u8(target);
    let (new_value, _) = inc8(current_value, gameboy.cpu.registers.f);
    gameboy.cpu.registers.set_u8(target, new_value);
    let (_, flags) = inc8(current_value, gameboy.cpu.registers.f);
    gameboy.cpu.registers.f = flags;
    4
}

/// `INC rr`: the register pair goes up by one, wrapping to zero; no flag
/// changes.
pub open spec fn spec_inc_r16(s: GameboyView, target: Register16bTarget) -> (GameboyView, u8) {
    (s.set_u16(target, wrap16(s.get_u16(target) + 1)), 8)
}

/// Performs `INC rr` and gives the ticks that it took.
pub fn inc_r16(gameboy: &mut Gameboy, target: Register16bTarget) -> (ticks: u8)
    ensures
        (final(gameboy)@, ticks) == spec_inc_r16(old(gameboy)@, target),
        old(gameboy).wf() ==> final(gameboy).wf(),
{
    let current_value = gameboy.cpu.registers.get_u16(target);
    gameboy.cpu.registers.set_u16(target, inc16(current_value));
    8
}

/// `INC (HL)`: the byte that `HL` points at goes up by one, wrapping to
/// zero.
pub open spec fn spec_inc_mem_at_hl(s: GameboyView) -> (GameboyView, u8) {
    let value = s.read_byte(s.hl());
    let written = s.write_byte(s.hl(), wrap8(value + 1));
    (written.with_flags(inc_flags(written.flags(), value)), 8)
}

/// Performs `INC (HL)` and gives the ticks that it took.
pub fn inc_mem_at_hl(gameboy: &mut Gameboy) -> (ticks: u8)
    ensures
        (final(gameboy)@, ticks) == spec_inc_mem_at_hl(old(gameboy)@),
        old(gameboy).wf() ==> final(gameboy).wf(),
{
    let addr = gameboy.cpu.registers.get_u16(Register16bTarget::HL);
    let current_value = gameboy.read_byte(addr);
    let (new_value, flags) = inc8(current_value, gameboy.cpu.registers.f);
    gameboy.write_byte(addr, new_value);
    gameboy.cpu.registers.f = flags;
    8
}

} // verus!
