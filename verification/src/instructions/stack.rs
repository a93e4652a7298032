//! Pushing and popping register pairs.

use vstd::prelude::*;
use crate::cpu::Register16bTarget;
use crate::gameboy::{Gameboy, GameboyView};

verus! {

/// `PUSH rr`: the register pair is pushed on the stack.
pub open spec fn spec_push(s: GameboyView, reg: Register16bTarget) -> (GameboyView, u8) {
    (s.stack_push(s.get_u16(reg)), 16)
}

/// Performs `PUSH rr` and gives the ticks that it took.
pub fn push(gameboy: &mut Gameboy, reg: Register16bTarget) -> (ticks: u8)
    ensures
        (final(gameboy)@, ticks) == spec_push(old(gameboy)@, reg),
        old(gameboy).wf() ==> final(gameboy).wf(),
{
    let value = gameboy.cpu.registers.get_u16(reg);
    gameboy.stack_push(value);
    16
}

/// `POP rr`: the register pair takes the value popped off the stack.
pub open spec fn spec_pop(s: GameboyView, reg: Register16bTarget) -> (GameboyView, u8) {
    let (s1, value) = s.stack_pop();
    (s1.set_u16(reg, value), 12)
}

/// Performs `POP rr` and gives the ticks that it took.
pub fn pop(gameboy: &mut Gameboy, reg: Register16bTarget) -> (ticks: u8)
    ensures
        (final(gameboy)@, ticks) == spec_pop(old(gameboy)@, reg),
        old(gameboy).wf() ==> final(gameboy).wf(),
{
    let value = gameboy.stack_pop();
    gameboy.cpu.registers.set_u16(reg, value);
    12
}

} // verus!
