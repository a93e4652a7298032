//! Restarts: calls to fixed addresses in the first page.

use vstd::prelude::*;
use crate::cpu::wrap16;
use crate::gameboy::{Gameboy, GameboyView};

verus! {

/// `RST n`: the address of the next instruction is pushed, and execution
/// goes on at the address `offset` of the first page.
pub open spec fn spec_rst(s: GameboyView, offset: u8) -> (GameboyView, u8) {
    (s.stack_push(wrap16(s.pc() + 1)).with_pc(offset as u16), 16)
}

/// Performs `RST n` and gives the ticks that it took.
pub fn rst(gameboy: &mut Gameboy, offset: u8) -> (ticks: u8)
    ensures
        (final(gameboy)@, ticks) == spec_rst(old(gameboy)@, offset),
        old(gameboy).wf() ==> final(gameboy).wf(),
{
    let pc = gameboy.cpu.registers.pc.wrapping_add(1);
    gameboy.stack_push(pc);
    gameboy.cpu.registers.pc = offset as u16;
    16
}

} // verus!
