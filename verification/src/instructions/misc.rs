//! Stop and halt, decimal adjustment, and the operations on single flags.

use vstd::prelude::*;
use crate::cpu::{FlagsRegister, CPU};
use crate::gameboy::{Gameboy, GameboyView};
use crate::instructions::alu::{decimal_adjust, decimal_adjusted, decimal_adjusted_flags};

verus! {

/// `STOP`: nothing changes.
pub open spec fn spec_stop(s: GameboyView) -> (GameboyView, u8) {
    (s, 4)
}

/// Performs `STOP` and gives the ticks that it took.
pub fn stop(gameboy: &mut Gameboy) -> (ticks: u8)
    ensures
        (final(gameboy)@, ticks) == spec_stop(old(gameboy)@),
        old(gameboy).wf() ==> final(gameboy).wf(),
{
    4
}

/// `HALT`: the processor is halted.
pub open spec fn spec_halt(s: GameboyView) -> (GameboyView, u8) {
    (GameboyView { cpu: CPU { halted: true, ..s.cpu }, ..s }, 4)
}

/// Performs `HALT` and gives the ticks that it took.
pub fn halt(gameboy: &mut Gameboy) -> (ticks: u8)
    ensures
        (final(gameboy)@, ticks) == spec_halt(old(gameboy)@),
        old(gameboy).wf() ==> final(gameboy).wf(),
{
    gameboy.cpu.halted = true;
    4
}

/// `DAA`: the accumulator is adjusted to packed decimal.
pub open spec fn spec_daa(s: GameboyView) -> (GameboyView, u8) {
    (
        s.with_accumulator(
            decimal_adjusted(s.a(), s.flags()),
            decimal_adjusted_flags(s.a(), s.flags()),
        ),
        4,
    )
}

/// Performs `DAA` and gives the ticks that it took.
pub fn daa(gameboy: &mut Gameboy) -> (ticks: u8)
    ensures
        (final(gameboy)@, ticks) == spec_daa(old(gameboy)@),
        old(gameboy).wf() ==> final(gameboy).wf(),
{
    let (value, flags) = decimal_adjust(gameboy.cpu.registers.a, gameboy.cpu.registers.f);
    gameboy.cpu.registers.a = value;
    gameboy.cpu.registers.f = flags;
    4
}

/// `CPL`: every bit of the accumulator is inverted.
pub open spec fn spec_cpl(s: GameboyView) -> (GameboyView, u8) {
    let flags = FlagsRegister { subtract: true, half_carry: true, ..s.flags() };
    (s.with_accumulator(!s.a(), flags), 4)
}

/// Performs `CPL` and gives the ticks that it took.
pub fn cpl(gameboy: &mut Gameboy) -> (ticks: u8)
    ensures
        (final(gameboy)@, ticks) == spec_cpl(old(gameboy)@),
        old(gameboy).wf() ==> final(gameboy).wf(),
{
    gameboy.cpu.registers.a = !gameboy.cpu.registers.a;
    gameboy.cpu.registers.f.subtract = true;
    gameboy.cpu.registers.f.half_carry = true;
    4
}

/// `CCF`: the carry flag is inverted.
pub open spec fn spec_ccf(s: GameboyView) -> (GameboyView, u8) {
    let flags = FlagsRegister {
        subtract: false,
        half_carry: false,
        carry: !s.flags().carry,
        ..s.flags()
    };
    (s.with_flags(flags), 4)
}

/// Performs `CCF` and gives the ticks that it took.
pub fn ccf(gameboy: &mut Gameboy) -> (ticks: u8)
    ensures
        (final(gameboy)@, ticks) == spec_ccf(old(gameboy)@),
        old(gameboy).wf() ==> final(gameboy).wf(),
{
    gameboy.cpu.registers.f.subtract = false;
    gameboy.cpu.registers.f.half_carry = false;
    gameboy.cpu.registers.f.carry = !gameboy.cpu.registers.f.carry;
    4
}

/// `SCF`: the carry flag is set.
pub open spec fn spec_scf(s: GameboyView) -> (GameboyView, u8) {
    let flags = FlagsRegister { subtract: false, half_carry: false, carry: true, ..s.flags() };
    (s.with_flags(flags), 4)
}

/// Performs `SCF` and gives the ticks that it took.
pub fn scf(gameboy: &mut Gameboy) -> (ticks: u8)
    ensures
        (final(gameboy)@, ticks) == spec_scf(old(gameboy)@),
        old(gameboy).wf() ==> final(gameboy).wf(),
{
    gameboy.cpu.registers.f.subtract = false;
    gameboy.cpu.registers.f.half_carry = false;
    gameboy.cpu.registers.f.carry = true;
    4
}

} // verus!
