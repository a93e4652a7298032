//! Loads between registers, memory and immediate operands.

use vstd::prelude::*;
use crate::cpu::{
    high_byte, low_byte, signed, split_word, wrap16, Register16bTarget, RegisterTarget,
};
use crate::gameboy::{Gameboy, GameboyView};
use crate::instructions::alu::{
    dec16, high_page, inc16, offset16, stack_offset, stack_offset_flags,
};

verus! {

/// `LD rr, d16`: the register pair takes the two bytes after the opcode.
pub open spec fn spec_ld_r16_n16(s: GameboyView, reg: Register16bTarget) -> (GameboyView, u8) {
    let (s1, value) = s.read_next_word();
    (s1.set_u16(reg, value), 12)
}

/// Performs `LD rr, d16` and gives the ticks that it took.
pub fn ld_r16_n16(gameboy: &mut Gameboy, reg: Register16bTarget) -> (ticks: u8)
    ensures
        (final(gameboy)@, ticks) == spec_ld_r16_n16(old(gameboy)@, reg),
        old(gameboy).wf() ==> final(gameboy).wf(),
{
    let value = gameboy.read_next_word();
    gameboy.cpu.registers.set_u16(reg, value);
    12
}

/// `LD (a16), SP`: the stack pointer is stored at the address after the
/// opcode, low byte first.
pub open spec fn spec_ld_mem_at_d16_sp(s: GameboyView) -> (GameboyView, u8) {
    let sp = s.sp();
    let (s1, addr) = s.read_next_word();
    (s1.write_byte(addr, low_byte(sp)).write_byte(wrap16(addr + 1), high_byte(sp)), 20)
}

/// Performs `LD (a16), SP` and gives the ticks that it took.
pub fn ld_mem_at_d16_sp(gameboy: &mut Gameboy) -> (ticks: u8)
    ensures
        (final(gameboy)@, ticks) == spec_ld_mem_at_d16_sp(old(gameboy)@),
        old(gameboy).wf() ==> final(gameboy).wf(),
{
    let sp = gameboy.cpu.registers.get_u16(Register16bTarget::SP);
    let addr = gameboy.read_next_word();
    let (high, low) = split_word(sp);
    gameboy.write_byte(addr, low);
    gameboy.write_byte(inc16(addr), high);
    20
}

/// `LD r, r'`: the register `dest` takes the value of the register `src`.
pub open spec fn spec_ld_r_r(s: GameboyView, src: RegisterTarget, dest: RegisterTarget) -> (
    GameboyView,
    u8,
) {
    (s.set_u8(dest, s.get_u8(src)), 4)
}

/// Performs `LD r, r'` and gives the ticks that it took.
pub fn ld_r_r(gameboy: &mut Gameboy, src: RegisterTarget, dest: RegisterTarget) -> (ticks: u8)
    ensures
        (final(gameboy)@, ticks) == spec_ld_r_r(old(gameboy)@, src, dest),
        old(gameboy).wf() ==> final(gameboy).wf(),
{
    let value = gameboy.cpu.registers.get_u8(src);
    gameboy.cpu.registers.set_u8(dest, value);
    4
}

/// `LD SP, HL`: the stack pointer takes the value of `HL`.
pub open spec fn spec_ld_sp_hl(s: GameboyView) -> (GameboyView, u8) {
    (s.with_sp(s.hl()), 2)
}

/// Performs `LD SP, HL` and gives the ticks that it took.
pub fn ld_sp_hl(gameboy: &mut Gameboy) -> (ticks: u8)
    ensures
        (final(gameboy)@, ticks) == spec_ld_sp_hl(old(gameboy)@),
        old(gameboy).wf() ==> final(gameboy).wf(),
{
    let hl = gameboy.cpu.registers.get_u16(Register16bTarget::HL);
    gameboy.cpu.registers.sp = hl;
    2
}

/// `LD (a16), r`: the register is stored at the address after the opcode.
pub open spec fn spec_ld_mem_at_d16_r(s: GameboyView, src: RegisterTarget) -> (GameboyView, u8) {
    let (s1, addr) = s.read_next_word();
    (s1.write_byte(addr, s1.get_u8(src)), 16)
}

/// Performs `LD (a16), r` and gives the ticks that it took.
pub fn ld_mem_at_d16_r(gameboy: &mut Gameboy, src: RegisterTarget) -> (ticks: u8)
    ensures
        (final(gameboy)@, ticks) == spec_ld_mem_at_d16_r(old(gameboy)@, src),
        old(gameboy).wf() ==> final(gameboy).wf(),
{
    let addr = gameboy.read_next_word();
    let value = gameboy.cpu.registers.get_u8(src);
    gameboy.write_byte(addr, value);
    16
}

/// `LD r, (a16)`: the register takes the byte at the address after the
/// opcode.
pub open spec fn spec_ld_r_mem_at_d16(s: GameboyView, target: RegisterTarget) -> (GameboyView, u8) {
    let (s1, addr) = s.read_next_word();
    (s1.set_u8(target, s1.read_byte(addr)), 16)
}

/// Performs `LD r, (a16)` and gives the ticks that it took.
pub fn ld_r_mem_at_d16(gameboy: &mut Gameboy, target: RegisterTarget) -> (ticks: u8)
    ensures
        (final(gameboy)@, ticks) == spec_ld_r_mem_at_d16(old(gameboy)@, target),
        old(gameboy).wf() ==> final(gameboy).wf(),
{
    let addr = gameboy.read_next_word();
    let value = gameboy.read_byte(addr);
    gameboy.cpu.registers.set_u8(target, value);
    16
}

/// `LD r, (rr)`: the register takes the byte that the register pair points
/// at.
pub open spec fn spec_ld_r_mem_at_r16(
    s: GameboyView,
    src: Register16bTarget,
    dest: RegisterTarget,
) -> (GameboyView, u8) {
    (s.set_u8(dest, s.read_byte(s.get_u16(src))), 8)
}

/// Performs `LD r, (rr)` and gives the ticks that it took.
pub fn ld_r_mem_at_r16(
    gameboy: &mut Gameboy,
    src: Register16bTarget,
    dest: RegisterTarget,
) -> (ticks: u8)
    ensures
        (final(gameboy)@, ticks) == spec_ld_r_mem_at_r16(old(gameboy)@, src, dest),
        old(gameboy).wf() ==> final(gameboy).wf(),
{
    let addr = gameboy.cpu.registers.get_u16(src);
    let value = gameboy.read_byte(addr);
    gameboy.cpu.registers.set_u8(dest, value);
    8
}

/// `LD (rr), r`: the register is stored where the register pair points.
pub open spec fn spec_ld_mem_at_r16_r(
    s: GameboyView,
    reg: Register16bTarget,
    target: RegisterTarget,
) -> (GameboyView, u8) {
    (s.write_byte(s.get_u16(reg), s.get_u8(target)), 8)
}

/// Performs `LD (rr), r` and gives the ticks that it took.
pub fn ld_mem_at_r16_r(
    gameboy: &mut Gameboy,
    reg: Register16bTarget,
    target: RegisterTarget,
) -> (ticks: u8)
    ensures
        (final(gameboy)@, ticks) == spec_ld_mem_at_r16_r(old(gameboy)@, reg, target),
        old(gameboy).wf() ==> final(gameboy).wf(),
{
    let addr = gameboy.cpu.registers.get_u16(reg);
    let value = gameboy.cpu.registers.get_u8(target);
    gameboy.write_byte(addr, value);
    8
}

/// `LD (rr), d8`: the byte after the opcode is stored where the register
/// pair pointed before the operand was read.
pub open spec fn spec_ld_d8_mem_at_r16(s: GameboyView, reg: Register16bTarget) -> (GameboyView, u8) {
    let addr = s.get_u16(reg);
    let (s1, value) = s.read_next_byte();
    (s1.write_byte(addr, value), 12)
}

/// Performs `LD (rr), d8` and gives the ticks that it took.
pub fn ld_d8_mem_at_r16(gameboy: &mut Gameboy, reg: Register16bTarget) -> (ticks: u8)
    ensures
        (final(gameboy)@, ticks) == spec_ld_d8_mem_at_r16(old(gameboy)@, reg),
        old(gameboy).wf() ==> final(gameboy).wf(),
{
    let addr = gameboy.cpu.registers.get_u16(reg);
    let value = gameboy.read_next_byte();
    gameboy.write_byte(addr, value);
    12
}

/// `LD r, d8`: the register takes the byte after the opcode.
pub open spec fn spec_ld_d8_r(s: GameboyView, target: RegisterTarget) -> (GameboyView, u8) {
    let (s1, value) = s.read_next_byte();
    (s1.set_u8(target, value), 8)
}

/// Performs `LD r, d8` and gives the ticks that it took.
pub fn ld_d8_r(gameboy: &mut Gameboy, target: RegisterTarget) -> (ticks: u8)
    ensures
        (final(gameboy)@, ticks) == spec_ld_d8_r(old(gameboy)@, target),
        old(gameboy).wf() ==> final(gameboy).wf(),
{
    let value = gameboy.read_next_byte();
    gameboy.cpu.registers.set_u8(target, value);
    8
}

/// `LDH (a8), A`: the accumulator is stored in the highest page, at the
/// low byte after the opcode.
pub open spec fn spec_ld_mem_at_d8_a(s: GameboyView) -> (GameboyView, u8) {
    let (s1, low) = s.read_next_byte();
    (s1.write_byte((0xFF00 + low) as u16, s1.a()), 12)
}

/// Performs `LDH (a8), A` and gives the ticks that it took.
pub fn ld_mem_at_d8_a(gameboy: &mut Gameboy) -> (ticks: u8)
    ensures
        (final(gameboy)@, ticks) == spec_ld_mem_at_d8_a(old(gameboy)@),
        old(gameboy).wf() ==> final(gameboy).wf(),
{
    let addr = high_page(gameboy.read_next_byte());
    let value = gameboy.cpu.registers.a;
    gameboy.write_byte(addr, value);
    12
}

/// `LDH A, (a8)`: the accumulator takes the byte in the highest page at
/// the low byte after the opcode.
pub open spec fn spec_ld_a_mem_at_d8(s: GameboyView) -> (GameboyView, u8) {
    let (s1, low) = s.read_next_byte();
    (s1.set_u8(RegisterTarget::A, s1.read_byte((0xFF00 + low) as u16)), 12)
}

/// Performs `LDH A, (a8)` and gives the ticks that it took.
pub fn ld_a_mem_at_d8(gameboy: &mut Gameboy) -> (ticks: u8)
    ensures
        (final(gameboy)@, ticks) == spec_ld_a_mem_at_d8(old(gameboy)@),
        old(gameboy).wf() ==> final(gameboy).wf(),
{
    let addr = high_page(gameboy.read_next_byte());
    let value = gameboy.read_byte(addr);
    gameboy.cpu.registers.a = value;
    12
}

/// `LD (HL), r`: the register is stored where `HL` points.
pub open spec fn spec_ld_mem_at_hl_r(s: GameboyView, target: RegisterTarget) -> (GameboyView, u8) {
    (s.write_byte(s.hl(), s.get_u8(target)), 8)
}

/// Performs `LD (HL), r` and gives the ticks that it took.
pub fn ld_mem_at_hl_r(gameboy: &mut Gameboy, target: RegisterTarget) -> (ticks: u8)
    ensures
        (final(gameboy)@, ticks) == spec_ld_mem_at_hl_r(old(gameboy)@, target),
        old(gameboy).wf() ==> final(gameboy).wf(),
{
    let addr = gameboy.cpu.registers.get_u16(Register16bTarget::HL);
    let value = gameboy.cpu.registers.get_u8(target);
    gameboy.write_byte(addr, value);
    8
}

/// `LD r, (HL)`: the register takes the byte that `HL` points at.
pub open spec fn spec_ld_r_mem_at_hl(s: GameboyView, target: RegisterTarget) -> (GameboyView, u8) {
    (s.set_u8(target, s.read_byte(s.hl())), 8)
}

/// Performs `LD r, (HL)` and gives the ticks that it took.
pub fn ld_r_mem_at_hl(gameboy: &mut Gameboy, target: RegisterTarget) -> (ticks: u8)
    ensures
        (final(gameboy)@, ticks) == spec_ld_r_mem_at_hl(old(gameboy)@, target),
        old(gameboy).wf() ==> final(gameboy).wf(),
{
    let addr = gameboy.cpu.registers.get_u16(Register16bTarget::HL);
    let value = gameboy.read_byte(addr);
    gameboy.cpu.registers.set_u8(target, value);
    8
}

/// `LD (HL+), A`: the accumulator is stored where `HL` points, and `HL`
/// goes up by one.
pub open spec fn spec_ld_mem_at_hl_a_inc(s: GameboyView) -> (GameboyView, u8) {
    (s.write_byte(s.hl(), s.a()).set_u16(Register16bTarget::HL, wrap16(s.hl() + 1)), 8)
}

/// Performs `LD (HL+), A` and gives the ticks that it took.
pub fn ld_mem_at_hl_a_inc(gameboy: &mut Gameboy) -> (ticks: u8)
    ensures
        (final(gameboy)@, ticks) == spec_ld_mem_at_hl_a_inc(old(gameboy)@),
        old(gameboy).wf() ==> final(gameboy).wf(),
{
    let addr = gameboy.cpu.registers.get_u16(Register16bTarget::HL);
    let value = gameboy.cpu.registers.a;
    gameboy.write_byte(addr, value);
    gameboy.cpu.registers.set_u16(Register16bTarget::HL, inc16(addr));
    8
}

/// `LD (HL-), A`: the accumulator is stored where `HL` points, and `HL`
/// goes down by one.
pub open spec fn spec_ld_mem_at_hl_a_dec(s: GameboyView) -> (GameboyView, u8) {
    (s.write_byte(s.hl(), s.a()).set_u16(Register16bTarget::HL, wrap16(s.hl() - 1)), 8)
}

/// Performs `LD (HL-), A` and gives the ticks that it took.
pub fn ld_mem_at_hl_a_dec(gameboy: &mut Gameboy) -> (ticks: u8)
    ensures
        (final(gameboy)@, ticks) == spec_ld_mem_at_hl_a_dec(old(gameboy)@),
        old(gameboy).wf() ==> final(gameboy).wf(),
{
    let addr = gameboy.cpu.registers.get_u16(Register16bTarget::HL);
    let value = gameboy.cpu.registers.a;
    gameboy.write_byte(addr, value);
    gameboy.cpu.registers.set_u16(Register16bTarget::HL, dec16(addr));
    8
}

/// `LD A, (HL+)`: the accumulator takes the byte that `HL` points at, and
/// `HL` goes up by one.
pub open spec fn spec_ld_a_mem_at_hl_inc(s: GameboyView) -> (GameboyView, u8) {
    (
        s.set_u8(RegisterTarget::A, s.read_byte(s.hl())).set_u16(
            Register16bTarget::HL,
            wrap16(s.hl() + 1),
        ),
        8,
    )
}

/// Performs `LD A, (HL+)` and gives the ticks that it took.
pub fn ld_a_mem_at_hl_inc(gameboy: &mut Gameboy) -> (ticks: u8)
    ensures
        (final(gameboy)@, ticks) == spec_ld_a_mem_at_hl_inc(old(gameboy)@),
        old(gameboy).wf() ==> final(gameboy).wf(),
{
    let addr = gameboy.cpu.registers.get_u16(Register16bTarget::HL);
    let value = gameboy.read_byte(addr);
    gameboy.cpu.registers.a = value;
    gameboy.cpu.registers.set_u16(Register16bTarget::HL, inc16(addr));
    8
}

/// `LD A, (HL-)`: the accumulator takes the byte that `HL` points at, and
/// `HL` goes down by one.
pub open spec fn spec_ld_a_mem_at_hl_dec(s: GameboyView) -> (GameboyView, u8) {
    (
        s.set_u8(RegisterTarget::A, s.read_byte(s.hl())).set_u16(
            Register16bTarget::HL,
            wrap16(s.hl() - 1),
        ),
        8,
    )
}

/// Performs `LD A, (HL-)` and gives the ticks that it took.
pub fn ld_a_mem_at_hl_dec(gameboy: &mut Gameboy) -> (ticks: u8)
    ensures
        (final(gameboy)@, ticks) == spec_ld_a_mem_at_hl_dec(old(gameboy)@),
        old(gameboy).wf() ==> final(gameboy).wf(),
{
    let hl = gameboy.cpu.registers.get_u16(Register16bTarget::HL);
    let value = gameboy.read_byte(hl);
    gameboy.cpu.registers.a = value;
    gameboy.cpu.registers.set_u16(Register16bTarget::HL, dec16(hl));
    8
}

/// `LD (C), A`: the accumulator is stored in the highest page, at the low
/// byte held by `C`.
pub open spec fn spec_ld_mem_at_c_a(s: GameboyView) -> (GameboyView, u8) {
    (s.write_byte((0xFF00 + s.cpu.registers.c) as u16, s.a()), 8)
}

/// Performs `LD (C), A` and gives the ticks that it took.
pub fn ld_mem_at_c_a(gameboy: &mut Gameboy) -> (ticks: u8)
    ensures
        (final(gameboy)@, ticks) == spec_ld_mem_at_c_a(old(gameboy)@),
        old(gameboy).wf() ==> final(gameboy).wf(),
{
    let addr = high_page(gameboy.cpu.registers.c);
    let value = gameboy.cpu.registers.a;
    gameboy.write_byte(addr, value);
    8
}

/// `LD A, (C)`: the accumulator takes the byte in the highest page at the
/// low byte held by `C`.
pub open spec fn spec_ld_a_mem_at_c(s: GameboyView) -> (GameboyView, u8) {
    (s.set_u8(RegisterTarget::A, s.read_byte((0xFF00 + s.cpu.registers.c) as u16)), 8)
}

/// Performs `LD A, (C)` and gives the ticks that it took.
pub fn ld_a_mem_at_c(gameboy: &mut Gameboy) -> (ticks: u8)
    ensures
        (final(gameboy)@, ticks) == spec_ld_a_mem_at_c(old(gameboy)@),
        old(gameboy).wf() ==> final(gameboy).wf(),
{
    let addr = high_page(gameboy.cpu.registers.c);
    let value = gameboy.read_byte(addr);
    gameboy.cpu.registers.a = value;
    8
}

/// `LD HL, SP+r8`: `HL` takes the stack pointer plus the signed byte after
/// the opcode.
pub open spec fn spec_ld_hl_sp_n8(s: GameboyView) -> (GameboyView, u8) {
    let (s1, n) = s.read_next_byte();
    let sp = s1.sp();
    (
        s1.set_u16(Register16bTarget::HL, wrap16(sp + signed(n))).with_flags(
            stack_offset_flags(sp, n),
        ),
        12,
    )
}

/// Performs `LD HL, SP+r8` and gives the ticks that it took.
pub fn ld_hl_sp_n8(gameboy: &mut Gameboy) -> (ticks: u8)
    ensures
        (final(gameboy)@, ticks) == spec_ld_hl_sp_n8(old(gameboy)@),
        old(gameboy).wf() ==> final(gameboy).wf(),
{
    let n = gameboy.read_next_byte();
    let sp = gameboy.cpu.registers.get_u16(Register16bTarget::SP);
    gameboy.cpu.registers.set_u16(Register16bTarget::HL, offset16(sp, n));
    gameboy.cpu.registers.f = stack_offset(sp, n);
    12
}

} // verus!
