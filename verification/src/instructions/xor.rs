//! Bitwise exclusive or with the accumulator.

use vstd::prelude::*;
use crate::cpu::{Register16bTarget, RegisterTarget};
use crate::gameboy::{Gameboy, GameboyView};
use crate::instructions::alu::logic_flags;

verus! {

/// `XOR r`: the accumulator becomes its bitwise exclusive or with the register.
pub open spec fn spec_xor(s: GameboyView, target: RegisterTarget) -> (GameboyView, u8) {
    let value = s.a() ^ s.get_u8(target);
    (s.with_accumulator(value, logic_flags(value, false)), 4)
}

/// Performs `XOR r` and gives the ticks that it took.
pub fn xor(gameboy: &mut Gameboy, target: RegisterTarget) -> (ticks: u8)
    ensures
        (final(gameboy)@, ticks) == spec_xor(old(gameboy)@, target),
        old(gameboy).wf() ==> final(gameboy).wf(),
{
    let r = gameboy.cpu.registers.get_u8(target);
    let value = gameboy.cpu.registers.a ^ r;
    gameboy.cpu.registers.a = value;
    gameboy.cpu.registers.f.zero = value == 0;
    gameboy.cpu.registers.f.subtract = false;
    gameboy.cpu.registers.f.half_carry = false;
    gameboy.cpu.registers.f.carry = false;
    4
}

/// `XOR (rr)`: the accumulator becomes its bitwise exclusive or with the byte that
/// the register pair points at.
pub open spec fn spec_xor_mem_at_r16(s: GameboyView, reg: Register16bTarget) -> (GameboyView, u8) {
    let value = s.a() ^ s.read_byte(s.get_u16(reg));
    (s.with_accumulator(value, logic_flags(value, false)), 8)
}

/// Performs `XOR (rr)` and gives the ticks that it took.
pub fn xor_mem_at_r16(gameboy: &mut Gameboy, reg: Register16bTarget) -> (ticks: u8)
    ensures
        (final(gameboy)@, ticks) == spec_xor_mem_at_r16(old(gameboy)@, reg),
        old(gameboy).wf() ==> final(gameboy).wf(),
{
    let addr = gameboy.cpu.registers.get_u16(reg);
    let operand = gameboy.read_byte(addr);
    let value = gameboy.cpu.registers.a ^ operand;
    gameboy.cpu.registers.a = value;
    gameboy.cpu.registers.f.zero = value == 0;
    gameboy.cpu.registers.f.subtract = false;
    gameboy.cpu.registers.f.half_carry = false;
    gameboy.cpu.registers.f.carry = false;
    8
}

/// `XOR d8`: the accumulator becomes its bitwise exclusive or with the byte after
/// the opcode.
pub open spec fn spec_xor_d8(s: GameboyView) -> (GameboyView, u8) {
    let (s1, operand) = s.read_next_byte();
    let value = s1.a() ^ operand;
    (s1.with_accumulator(value, logic_flags(value, false)), 8)
}

/// Performs `XOR d8` and gives the ticks that it took.
pub fn xor_d8(gameboy: &mut Gameboy) -> (ticks: u8)
    ensures
        (final(gameboy)@, ticks) == spec_xor_d8(old(gameboy)@),
        old(gameboy).wf() ==> final(gameboy).wf(),
{
    let operand = gameboy.read_next_byte();
    let value = gameboy.cpu.registers.a ^ operand;
    gameboy.cpu.registers.a = value;
    gameboy.cpu.registers.f.zero = value == 0;
    gameboy.cpu.registers.f.subtract = false;
    gameboy.cpu.registers.f.half_carry = false;
    gameboy.cpu.registers.f.carry = false;
    8
}

} // verus!
