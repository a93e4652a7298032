//! Additions: to the accumulator, to `HL` and to the stack pointer.

use vstd::prelude::*;
use crate::cpu::{wrap16, FlagsRegister, Register16bTarget, RegisterTarget};
use crate::gameboy::{Gameboy, GameboyView};
use crate::instructions::alu::{add16, add8, sum16_flags, sum8, sum8_flags};

verus! {

/// `ADD A, r`: the register is added to the accumulator.
pub open spec fn spec_add(s: GameboyView, target: RegisterTarget) -> (GameboyView, u8) {
    let b = s.get_u8(target);
    (s.with_accumulator(sum8(s.a(), b, false), sum8_flags(s.a(), b, false)), 4)
}

/// Performs `ADD A, r` and gives the ticks that it took.
pub fn add(gameboy: &mut Gameboy, target: RegisterTarget) -> (ticks: u8)
    ensures
        (final(gameboy)@, ticks) == spec_add(old(gameboy)@, target),
        old(gameboy).wf() ==> final(gameboy).wf(),
{
    let target_value = gameboy.cpu.registers.get_u8(target);
    let (value, flags) = add8(gameboy.cpu.registers.a, target_value, false);
    gameboy.cpu.registers.a = value;
    gameboy.cpu.registers.f = flags;
    4
}

/// `ADD A, (HL)`: the byte that `HL` points at is added to the accumulator.
pub open spec fn spec_add_mem_at_hl(s: GameboyView) -> (GameboyView, u8) {
    let b = s.read_byte(s.hl());
    (s.with_accumulator(sum8(s.a(), b, false), sum8_flags(s.a(), b, false)), 8)
}

/// Performs `ADD A, (HL)` and gives the ticks that it took.
pub fn add_mem_at_hl(gameboy: &mut Gameboy) -> (ticks: u8)
    ensures
        (final(gameboy)@, ticks) == spec_add_mem_at_hl(old(gameboy)@),
        old(gameboy).wf() ==> final(gameboy).wf(),
{
    let hl = gameboy.cpu.registers.get_u16(Register16bTarget::HL);
    let target_value = gameboy.read_byte(hl);
    let (value, flags) = add8(gameboy.cpu.registers.a, target_value, false);
    gameboy.cpu.registers.a = value;
    gameboy.cpu.registers.f = flags;
    8
}

/// `ADD A, d8`: the byte after the opcode is added to the accumulator.
pub open spec fn spec_add_d8(s: GameboyView) -> (GameboyView, u8) {
    let (s1, b) = s.read_next_byte();
    (s1.with_accumulator(sum8(s1.a(), b, false), sum8_flags(s1.a(), b, false)), 8)
}

/// Performs `ADD A, d8` and gives the ticks that it took.
pub fn add_d8(gameboy: &mut Gameboy) -> (ticks: u8)
    ensures
        (final(gameboy)@, ticks) == spec_add_d8(old(gameboy)@),
        old(gameboy).wf() ==> final(gameboy).wf(),
{
    let d8 = gameboy.read_next_byte();
    let (value, flags) = add8(gameboy.cpu.registers.a, d8, false);
    gameboy.cpu.registers.a = value;
    gameboy.cpu.registers.f = flags;
    8
}

/// `ADD HL, rr`: the register pair is added to `HL`. The carry comes out of
/// bit 15 and the half-carry out of bit 11; the zero flag stays.
pub open spec fn spec_add_hl_r16(s: GameboyView, target: Register16bTarget) -> (GameboyView, u8) {
    let hl = s.hl();
    let operand = s.get_u16(target);
    (
        s.set_u16(Register16bTarget::HL, wrap16(hl + operand)).with_flags(
            sum16_flags(s.flags(), hl, operand),
        ),
        8,
    )
}

/// Performs `ADD HL, rr` and gives the ticks that it took.
pub fn add_hl_r16(gameboy: &mut Gameboy, target: Register16bTarget) -> (ticks: u8)
    ensures
        (final(gameboy)@, ticks) == spec_add_hl_r16(old(gameboy)@, target),
        old(gameboy).wf() ==> final(gameboy).wf(),
{
    let hl = gameboy.cpu.registers.get_u16(Register16bTarget::HL);
    let operand = gameboy.cpu.registers.get_u16(target);
    let (new_value, flags) = add16(hl, operand, gameboy.cpu.registers.f);
    gameboy.cpu.registers.set_u16(Register16bTarget::HL, new_value);
    gameboy.cpu.registers.f = flags;
    8
}

/// `ADD SP, r8`: the signed byte after the opcode is added to the stack
/// pointer. A negative operand clears both carries; otherwise they come out
/// of bit 7 and bit 3 of the low byte of the stack pointer.
pub open spec fn spec_add_sp_n8(s: GameboyView) -> (GameboyView, u8) {
    let (s1, n) = s.read_next_byte();
    let sp = s1.sp();
    let flags = if n >= 0x80 {
        FlagsRegister { zero: false, subtract: false, half_carry: false, carry: false }
    } else {
        FlagsRegister {
            zero: false,
            subtract: false,
            half_carry: sp % 0x10 + n % 0x10 > 0xF,
            carry: sp % 0x100 + n > 0xFF,
        }
    };
    (s1.with_sp(wrap16(sp + crate::cpu::signed(n))).with_flags(flags), 16)
}

/// Performs `ADD SP, r8` and gives the ticks that it took.
pub fn add_sp_n8(gameboy: &mut Gameboy) -> (ticks: u8)
    ensures
        (final(gameboy)@, ticks) == spec_add_sp_n8(old(gameboy)@),
        old(gameboy).wf() ==> final(gameboy).wf(),
{
    let n = gameboy.read_next_byte();
    let sp = gameboy.cpu.registers.sp;
    if n >= 0x80 {
        gameboy.cpu.registers.sp = sp.wrapping_sub(0x100 - n as u16);
        gameboy.cpu.registers.f.half_carry = false;
        gameboy.cpu.registers.f.carry = false;
    } else {
        gameboy.cpu.registers.sp = sp.wrapping_add(n as u16);
        gameboy.cpu.registers.f.half_carry = (sp % 0x10) + (n as u16 % 0x10) > 0xF;
        gameboy.cpu.registers.f.carry = (sp % 0x100) + (n as u16) > 0xFF;
    }
    gameboy.cpu.registers.f.zero = false;
    gameboy.cpu.registers.f.subtract = false;
    16
}

} // verus!
