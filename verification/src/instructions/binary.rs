//! A binary operation of the caller's choice between the accumulator and a
//! register.

use vstd::prelude::*;
use crate::cpu::RegisterTarget;
use crate::gameboy::Gameboy;
use crate::instructions::alu::logic_flags;

verus! {

/// Applies `operation` to the accumulator and the register and stores what
/// it returns in the accumulator. The zero flag tells whether the result is
/// zero, the half-carry is set, and the two other flags are cleared.
pub fn operation_on_r_a<F: Fn(u8, u8) -> u8>(
    gameboy: &mut Gameboy,
    target: RegisterTarget,
    operation: F,
)
    requires
        call_requires(operation, (old(gameboy)@.a(), old(gameboy)@.get_u8(target))),
    ensures
        call_ensures(
            operation,
            (old(gameboy)@.a(), old(gameboy)@.get_u8(target)),
            final(gameboy)@.a(),
        ),
        final(gameboy)@ == old(gameboy)@.with_accumulator(
            final(gameboy)@.a(),
            logic_flags(final(gameboy)@.a(), true),
        ),
        old(gameboy).wf() ==> final(gameboy).wf(),
{
    let r = gameboy.cpu.registers.get_u8(target);
    let a = gameboy.cpu.registers.a;
    let value = operation(a, r);
    gameboy.cpu.registers.a = value;
    gameboy.cpu.registers.f.zero = value == 0;
    gameboy.cpu.registers.f.subtract = false;
    gameboy.cpu.registers.f.half_carry = true;
    gameboy.cpu.registers.f.carry = false;
}

} // verus!
