//! Calls and returns.

use vstd::prelude::*;
use crate::cpu::wrap16;
use crate::gameboy::{lemma_push_pop, plain_address, Gameboy, GameboyView};

verus! {

/// `CALL a16`: the address of the next instruction is pushed, and execution
/// goes on at the address after the opcode.
pub open spec fn spec_call_a16(s: GameboyView) -> (GameboyView, u8) {
    let (s1, target) = s.stack_push(wrap16(s.pc() + 3)).read_next_word();
    (s1.with_pc(target), 24)
}

/// Performs `CALL a16` and gives the ticks that it took.
pub fn call_a16(gameboy: &mut Gameboy) -> (ticks: u8)
    ensures
        (final(gameboy)@, ticks) == spec_call_a16(old(gameboy)@),
        old(gameboy).wf() ==> final(gameboy).wf(),
{
    let return_to = gameboy.cpu.registers.pc.wrapping_add(3);
    gameboy.stack_push(return_to);
    let target = gameboy.read_next_word();
    gameboy.cpu.registers.pc = target;
    24
}

/// A conditional call: taken, it is `CALL a16`; not taken, the program
/// counter moves past the three bytes of the instruction.
pub open spec fn spec_call_if(s: GameboyView, taken: bool) -> (GameboyView, u8) {
    if taken {
        spec_call_a16(s)
    } else {
        (s.with_pc(wrap16(s.pc() + 3)), 12)
    }
}

/// Calls if `taken`.
fn call_if(gameboy: &mut Gameboy, taken: bool) -> (ticks: u8)
    ensures
        (final(gameboy)@, ticks) == spec_call_if(old(gameboy)@, taken),
        old(gameboy).wf() ==> final(gameboy).wf(),
{
    if taken {
        call_a16(gameboy)
    } else {
        gameboy.cpu.registers.pc = gameboy.cpu.registers.pc.wrapping_add(3);
        12
    }
}

/// `CALL NZ, a16`: calls if the zero flag is clear.
pub fn call_nz_a16(gameboy: &mut Gameboy) -> (ticks: u8)
    ensures
        (final(gameboy)@, ticks) == spec_call_if(old(gameboy)@, !old(gameboy)@.flags().zero),
        old(gameboy).wf() ==> final(gameboy).wf(),
{
    let taken = !gameboy.cpu.registers.f.zero;
    call_if(gameboy, taken)
}

/// `CALL Z, a16`: calls if the zero flag is set.
pub fn call_z_a16(gameboy: &mut Gameboy) -> (ticks: u8)
    ensures
        (final(gameboy)@, ticks) == spec_call_if(old(gameboy)@, old(gameboy)@.flags().zero),
        old(gameboy).wf() ==> final(gameboy).wf(),
{
    let taken = gameboy.cpu.registers.f.zero;
    call_if(gameboy, taken)
}

/// `CALL NC, a16`: calls if the carry flag is clear.
pub fn call_nc_a16(gameboy: &mut Gameboy) -> (ticks: u8)
    ensures
        (final(gameboy)@, ticks) == spec_call_if(old(gameboy)@, !old(gameboy)@.flags().carry),
        old(gameboy).wf() ==> final(gameboy).wf(),
{
    let taken = !gameboy.cpu.registers.f.carry;
    call_if(gameboy, taken)
}

/// `CALL C, a16`: calls if the carry flag is set.
pub fn call_c_a16(gameboy: &mut Gameboy) -> (ticks: u8)
    ensures
        (final(gameboy)@, ticks) == spec_call_if(old(gameboy)@, old(gameboy)@.flags().carry),
        old(gameboy).wf() ==> final(gameboy).wf(),
{
    let taken = gameboy.cpu.registers.f.carry;
    call_if(gameboy, taken)
}

/// `RET`: execution goes on at the address popped off the stack.
pub open spec fn spec_ret(s: GameboyView) -> (GameboyView, u8) {
    let (s1, target) = s.stack_pop();
    (s1.with_pc(target), 16)
}

/// Performs `RET` and gives the ticks that it took.
pub fn ret(gameboy: &mut Gameboy) -> (ticks: u8)
    ensures
        (final(gameboy)@, ticks) == spec_ret(old(gameboy)@),
        old(gameboy).wf() ==> final(gameboy).wf(),
{
    let target = gameboy.stack_pop();
    gameboy.cpu.registers.pc = target;
    16
}

/// `RETI`: the interrupt master enable is set, and execution goes on at the
/// address popped off the stack.
pub open spec fn spec_reti(s: GameboyView) -> (GameboyView, u8) {
    spec_ret(GameboyView { interrupts_enabled: true, ..s })
}

/// Performs `RETI` and gives the ticks that it took.
pub fn reti(gameboy: &mut Gameboy) -> (ticks: u8)
    ensures
        (final(gameboy)@, ticks) == spec_reti(old(gameboy)@),
        old(gameboy).wf() ==> final(gameboy).wf(),
{
    gameboy.interrupts_enabled = true;
    ret(gameboy)
}

/// A conditional return: taken, it is `RET` with four more ticks; not
/// taken, the program counter moves past the one byte of the instruction.
pub open spec fn spec_ret_if(s: GameboyView, taken: bool) -> (GameboyView, u8) {
    if taken {
        (spec_ret(s).0, 20)
    } else {
        (s.with_pc(wrap16(s.pc() + 1)), 8)
    }
}

/// Returns if `taken`.
fn ret_if(gameboy: &mut Gameboy, taken: bool) -> (ticks: u8)
    ensures
        (final(gameboy)@, ticks) == spec_ret_if(old(gameboy)@, taken),
        old(gameboy).wf() ==> final(gameboy).wf(),
{
    if taken {
        ret(gameboy);
        20
    } else {
        gameboy.cpu.registers.pc = gameboy.cpu.registers.pc.wrapping_add(1);
        8
    }
}

/// `RET NZ`: returns if the zero flag is clear.
pub fn ret_nz(gameboy: &mut Gameboy) -> (ticks: u8)
    ensures
        (final(gameboy)@, ticks) == spec_ret_if(old(gameboy)@, !old(gameboy)@.flags().zero),
        old(gameboy).wf() ==> final(gameboy).wf(),
{
    let taken = !gameboy.cpu.registers.f.zero;
    ret_if(gameboy, taken)
}

/// `RET Z`: returns if the zero flag is set.
pub fn ret_z(gameboy: &mut Gameboy) -> (ticks: u8)
    ensures
        (final(gameboy)@, ticks) == spec_ret_if(old(gameboy)@, old(gameboy)@.flags().zero),
        old(gameboy).wf() ==> final(gameboy).wf(),
{
    let taken = gameboy.cpu.registers.f.zero;
    ret_if(gameboy, taken)
}

/// `RET NC`: returns if the carry flag is clear.
pub fn ret_nc(gameboy: &mut Gameboy) -> (ticks: u8)
    ensures
        (final(gameboy)@, ticks) == spec_ret_if(old(gameboy)@, !old(gameboy)@.flags().carry),
        old(gameboy).wf() ==> final(gameboy).wf(),
{
    let taken = !gameboy.cpu.registers.f.carry;
    ret_if(gameboy, taken)
}

/// `RET C`: returns if the carry flag is set.
pub fn ret_c(gameboy: &mut Gameboy) -> (ticks: u8)
    ensures
        (final(gameboy)@, ticks) == spec_ret_if(old(gameboy)@, old(gameboy)@.flags().carry),
        old(gameboy).wf() ==> final(gameboy).wf(),
{
    let taken = gameboy.cpu.registers.f.carry;
    ret_if(gameboy, taken)
}

/// A call whose stack lies at plain addresses, followed by a return, goes
/// on at the instruction after the call with the stack pointer where it was
/// before the call.
pub proof fn lemma_call_ret(s: GameboyView)
    requires
        s.wf(),
        plain_address(s, wrap16(s.sp() - 1)),
        plain_address(s, wrap16(s.sp() - 2)),
    ensures
        spec_ret(spec_call_a16(s).0).0.pc() == wrap16(s.pc() + 3),
        spec_ret(spec_call_a16(s).0).0.sp() == s.sp(),
        spec_call_a16(s).0.sp() == wrap16(s.sp() - 2),
        spec_call_a16(s).0.pc() == s.stack_push(wrap16(s.pc() + 3)).read_next_word().1,
{
    lemma_push_pop(s, wrap16(s.pc() + 3));
}

} // verus!
