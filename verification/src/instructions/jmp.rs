//! Jumps: absolute, to `HL`, and relative to the program counter.

use vstd::prelude::*;
use crate::cpu::{signed, wrap16, Register16bTarget};
use crate::gameboy::{Gameboy, GameboyView};
use crate::instructions::alu::{inc16, offset16};

verus! {

/// `JP a16`: execution goes on at the address after the opcode.
pub open spec fn spec_jmp_a16(s: GameboyView) -> (GameboyView, u8) {
    let (s1, target) = s.read_next_word();
    (s1.with_pc(target), 16)
}

/// Performs `JP a16` and gives the ticks that it took.
pub fn jmp_a16(gameboy: &mut Gameboy) -> (ticks: u8)
    ensures
        (final(gameboy)@, ticks) == spec_jmp_a16(old(gameboy)@),
        old(gameboy).wf() ==> final(gameboy).wf(),
{
    let target = gameboy.read_next_word();
    gameboy.cpu.registers.pc = target;
    16
}

/// A conditional absolute jump: taken, it is `JP a16`; not taken, the
/// program counter moves past the three bytes of the instruction.
pub open spec fn spec_jp_if(s: GameboyView, taken: bool) -> (GameboyView, u8) {
    if taken {
        spec_jmp_a16(s)
    } else {
        (s.with_pc(wrap16(s.pc() + 3)), 12)
    }
}

/// Jumps to the address after the opcode if `taken`.
fn jp_if(gameboy: &mut Gameboy, taken: bool) -> (ticks: u8)
    ensures
        (final(gameboy)@, ticks) == spec_jp_if(old(gameboy)@, taken),
        old(gameboy).wf() ==> final(gameboy).wf(),
{
    if taken {
        jmp_a16(gameboy)
    } else {
        gameboy.cpu.registers.pc = gameboy.cpu.registers.pc.wrapping_add(3);
        12
    }
}

/// `JP NZ, a16`: jumps if the zero flag is clear.
pub fn jp_nz_a16(gameboy: &mut Gameboy) -> (ticks: u8)
    ensures
        (final(gameboy)@, ticks) == spec_jp_if(old(gameboy)@, !old(gameboy)@.flags().zero),
        old(gameboy).wf() ==> final(gameboy).wf(),
{
    let taken = !gameboy.cpu.registers.f.zero;
    jp_if(gameboy, taken)
}

/// `JP Z, a16`: jumps if the zero flag is set.
pub fn jp_z_a16(gameboy: &mut Gameboy) -> (ticks: u8)
    ensures
        (final(gameboy)@, ticks) == spec_jp_if(old(gameboy)@, old(gameboy)@.flags().zero),
        old(gameboy).wf() ==> final(gameboy).wf(),
{
    let taken = gameboy.cpu.registers.f.zero;
    jp_if(gameboy, taken)
}

/// `JP NC, a16`: jumps if the carry flag is clear.
pub fn jp_nc_a16(gameboy: &mut Gameboy) -> (ticks: u8)
    ensures
        (final(gameboy)@, ticks) == spec_jp_if(old(gameboy)@, !old(gameboy)@.flags().carry),
        old(gameboy).wf() ==> final(gameboy).wf(),
{
    let taken = !gameboy.cpu.registers.f.carry;
    jp_if(gameboy, taken)
}

/// `JP C, a16`: jumps if the carry flag is set.
pub fn jp_c_a16(gameboy: &mut Gameboy) -> (ticks: u8)
    ensures
        (final(gameboy)@, ticks) == spec_jp_if(old(gameboy)@, old(gameboy)@.flags().carry),
        old(gameboy).wf() ==> final(gameboy).wf(),
{
    let taken = gameboy.cpu.registers.f.carry;
    jp_if(gameboy, taken)
}

/// `JP (HL)`: execution goes on at the address held by `HL`.
pub open spec fn spec_jp_hl(s: GameboyView) -> (GameboyView, u8) {
    (s.with_pc(s.hl()), 4)
}

/// Performs `JP (HL)` and gives the ticks that it took.
pub fn jp_hl(gameboy: &mut Gameboy) -> (ticks: u8)
    ensures
        (final(gameboy)@, ticks) == spec_jp_hl(old(gameboy)@),
        old(gameboy).wf() ==> final(gameboy).wf(),
{
    let hl = gameboy.cpu.registers.get_u16(Register16bTarget::HL);
    gameboy.cpu.registers.pc = hl;
    4
}

/// `JR r8`: execution goes on at the address of the next instruction plus
/// the signed byte after the opcode.
pub open spec fn spec_jr(s: GameboyView) -> (GameboyView, u8) {
    let (s1, offset) = s.read_next_byte();
    (s1.with_pc(wrap16(s.pc() + 2 + signed(offset))), 12)
}

/// Performs `JR r8` and gives the ticks that it took.
pub fn jr(gameboy: &mut Gameboy) -> (ticks: u8)
    ensures
        (final(gameboy)@, ticks) == spec_jr(old(gameboy)@),
        old(gameboy).wf() ==> final(gameboy).wf(),
{
    let offset = gameboy.read_next_byte();
    gameboy.cpu.registers.pc = inc16(offset16(gameboy.cpu.registers.pc, offset));
    12
}

/// A conditional relative jump: taken, it is `JR r8`; not taken, the
/// program counter moves past the two bytes of the instruction.
pub open spec fn spec_jr_if(s: GameboyView, taken: bool) -> (GameboyView, u8) {
    if taken {
        spec_jr(s)
    } else {
        (s.with_pc(wrap16(s.pc() + 2)), 8)
    }
}

/// Jumps relative to the next instruction if `taken`.
fn jr_if(gameboy: &mut Gameboy, taken: bool) -> (ticks: u8)
    ensures
        (final(gameboy)@, ticks) == spec_jr_if(old(gameboy)@, taken),
        old(gameboy).wf() ==> final(gameboy).wf(),
{
    if taken {
        jr(gameboy)
    } else {
        gameboy.cpu.registers.pc = gameboy.cpu.registers.pc.wrapping_add(2);
        8
    }
}

/// `JR Z, r8`: jumps if the zero flag is set.
pub fn jr_z(gameboy: &mut Gameboy) -> (ticks: u8)
    ensures
        (final(gameboy)@, ticks) == spec_jr_if(old(gameboy)@, old(gameboy)@.flags().zero),
        old(gameboy).wf() ==> final(gameboy).wf(),
{
    let taken = gameboy.cpu.registers.f.zero;
    jr_if(gameboy, taken)
}

/// `JR NZ, r8`: jumps if the zero flag is clear.
pub fn jr_nz(gameboy: &mut Gameboy) -> (ticks: u8)
    ensures
        (final(gameboy)@, ticks) == spec_jr_if(old(gameboy)@, !old(gameboy)@.flags().zero),
        old(gameboy).wf() ==> final(gameboy).wf(),
{
    let taken = !gameboy.cpu.registers.f.zero;
    jr_if(gameboy, taken)
}

/// `JR NC, r8`: jumps if the carry flag is clear.
pub fn jr_nc(gameboy: &mut Gameboy) -> (ticks: u8)
    ensures
        (final(gameboy)@, ticks) == spec_jr_if(old(gameboy)@, !old(gameboy)@.flags().carry),
        old(gameboy).wf() ==> final(gameboy).wf(),
{
    let taken = !gameboy.cpu.registers.f.carry;
    jr_if(gameboy, taken)
}

/// `JR C, r8`: jumps if the carry flag is set.
pub fn jr_c(gameboy: &mut Gameboy) -> (ticks: u8)
    ensures
        (final(gameboy)@, ticks) == spec_jr_if(old(gameboy)@, old(gameboy)@.flags().carry),
        old(gameboy).wf() ==> final(gameboy).wf(),
{
    let taken = gameboy.cpu.registers.f.carry;
    jr_if(gameboy, taken)
}

} // verus!
