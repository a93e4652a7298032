//! Decrements.

use vstd::prelude::*;
use crate::cpu::{wrap16, wrap8, Register16bTarget, RegisterTarget};
use crate::gameboy::{Gameboy, GameboyView};
use crate::instructions::alu::{dec16, dec8, dec_flags};

verus! {

/// `DEC r`: the register goes down by one, wrapping to 0xFF.
pub open spec fn spec_dec_r(s: GameboyView, target: RegisterTarget) -> (GameboyView, u8) {
    let value = s.get_u8(target);
    let set = s.set_u8(target, wrap8(value - 1));
    (set.with_flags(dec_flags(set.flags(), value)), 4)
}

/// Performs `DEC r` and gives the ticks that it took.
pub fn dec_r(gameboy: &mut Gameboy, target: RegisterTarget) -> (ticks: u8)
    ensures
        (final(gameboy)@, ticks) == spec_dec_r(old(gameboy)@, target),
        old(gameboy).wf() ==> final(gameboy).wf(),
{
    let current_value = gameboy.cpu.registers.get_u8(target);
    let (new_value, _) = dec8(current_value, gameboy.cpu.registers.f);
    gameboy.cpu.registers.set_u8(target, new_value);
    let (_, flags) = dec8(current_value, gameboy.cpu.registers.f);
    gameboy.cpu.registers.f = flags;
    4
}

/// `DEC (HL)`: the byte that `HL` points at goes down by one, wrapping to
/// 0xFF.
pub open spec fn spec_dec_mem_at_hl(s: GameboyView) -> (GameboyView, u8) {
    let value = s.read_byte(s.hl());
    let written = s.write_byte(s.hl(), wrap8(value - 1));
    (written.with_flags(dec_flags(written.flags(), value)), 12)
}

/// Performs `DEC (HL)` and gives the ticks that it took.
pub fn dec_mem_at_hl(gameboy: &mut Gameboy) -> (ticks: u8)
    ensures
        (final(gameboy)@, ticks) == spec_dec_mem_at_hl(old(gameboy)@),
        old(gameboy).wf() ==> final(gameboy).wf(),
{
    let address = gameboy.cpu.registers.get_u16(Register16bTarget::HL);
    let current_value = gameboy.read_byte(address);
    let (new_value, flags) = dec8(current_value, gameboy.cpu.registers.f);
    gameboy.write_byte(address, new_value);
    gameboy.cpu.registers.f = flags;
    12
}

/// `DEC rr`: the register pair goes down by one, wrapping to 0xFFFF; no
/// flag changes.
pub open spec fn spec_dec_r16(s: GameboyView, target: Register16bTarget) -> (GameboyView, u8) {
    (s.set_u16(target, wrap16(s.get_u16(target) - 1)), 8)
}

/// Performs `DEC rr` and gives the ticks that it took.
pub fn dec_r16(gameboy: &mut Gameboy, target: Register16bTarget) -> (ticks: u8)
    ensures
        (final(gameboy)@, ticks) == spec_dec_r16(old(gameboy)@, target),
        old(gameboy).wf() ==> final(gameboy).wf(),
{
    let current_value = gameboy.cpu.registers.get_u16(target);
    gameboy.cpu.registers.set_u16(target, dec16(current_value));
    8
}

} // verus!
