//! The instruction set: one function for each operation, and the two
//! tables that map an opcode byte to its operation.

use vstd::prelude::*;
use crate::cpu::{wrap16, Register16bTarget, RegisterTarget};
use crate::gameboy::{Gameboy, GameboyView};

pub mod adc;
pub mod add;
pub mod alu;
pub mod and;
pub mod binary;
pub mod bit;
pub mod call;
pub mod cp;
pub mod dec;
pub mod inc;
pub mod interrupts;
pub mod jmp;
pub mod ld;
pub mod misc;
pub mod nop;
pub mod or;
pub mod rot;
pub mod rst;
pub mod sbc;
pub mod shift;
pub mod stack;
pub mod sub;
pub mod swap;
pub mod xor;

verus! {

/// The opcode byte that selects the prefixed table.
pub const PREFIX: u8 = 0xCB;

/// An operation of the processor with its register operands. Operands that
/// follow the opcode in memory are read when the operation is performed.
#[derive(Debug, Copy, Clone, PartialEq, Eq, Structural)]
pub enum Operation {
    Nop,
    Stop,
    Halt,
    Daa,
    Cpl,
    Ccf,
    Scf,
    Di,
    Ei,
    LdR16N16(Register16bTarget),
    LdMemAtD16Sp,
    LdRR(RegisterTarget, RegisterTarget),
    LdSpHl,
    LdMemAtD16R(RegisterTarget),
    LdRMemAtD16(RegisterTarget),
    LdRMemAtR16(Register16bTarget, RegisterTarget),
    LdMemAtR16R(Register16bTarget, RegisterTarget),
    LdD8MemAtR16(Register16bTarget),
    LdD8R(RegisterTarget),
    LdMemAtD8A,
    LdAMemAtD8,
    LdMemAtHlR(RegisterTarget),
    LdRMemAtHl(RegisterTarget),
    LdMemAtHlAInc,
    LdMemAtHlADec,
    LdAMemAtHlInc,
    LdAMemAtHlDec,
    LdMemAtCA,
    LdAMemAtC,
    LdHlSpN8,
    Add(RegisterTarget),
    AddMemAtHl,
    AddD8,
    AddHlR16(Register16bTarget),
    AddSpN8,
    Adc(RegisterTarget),
    AdcMemAtHl,
    AdcN8,
    SubRRA(RegisterTarget),
    SubMemAtHl,
    SubD8,
    SbcRRA(RegisterTarget),
    SbcMemAtHl,
    SbcN8,
    And(RegisterTarget),
    AndMemAtR16(Register16bTarget),
    AndD8,
    Xor(RegisterTarget),
    XorMemAtR16(Register16bTarget),
    XorD8,
    Or(RegisterTarget),
    OrMemAtR16(Register16bTarget),
    OrD8,
    Cp(RegisterTarget),
    CpMemAtR16(Register16bTarget),
    CpD8,
    IncR(RegisterTarget),
    IncR16(Register16bTarget),
    IncMemAtHl,
    DecR(RegisterTarget),
    DecR16(Register16bTarget),
    DecMemAtHl,
    RlcA,
    RrcA,
    RlA,
    RrA,
    RlcR(RegisterTarget),
    RlcMemAtHl,
    RrcR(RegisterTarget),
    RrcMemAtHl,
    RlR(RegisterTarget),
    RlMemAtHl,
    RrR(RegisterTarget),
    RrMemAtHl,
    Sla(RegisterTarget),
    SlaMemAtHl,
    Sra(RegisterTarget),
    SraMemAtHl,
    Swap(RegisterTarget),
    SwapMemAtHl,
    Srl(RegisterTarget),
    SrlMemAtHl,
    BitR(RegisterTarget, u8),
    BitMemAtHl(u8),
    ResR(RegisterTarget, u8),
    ResMemAtHl(u8),
    SetR(RegisterTarget, u8),
    SetMemAtHl(u8),
    Push(Register16bTarget),
    Pop(Register16bTarget),
    JmpA16,
    JpNzA16,
    JpZA16,
    JpNcA16,
    JpCA16,
    JpHl,
    Jr,
    JrNz,
    JrZ,
    JrNc,
    JrC,
    CallA16,
    CallNzA16,
    CallZA16,
    CallNcA16,
    CallCA16,
    Ret,
    Reti,
    RetNz,
    RetZ,
    RetNc,
    RetC,
    Rst(u8),
}

/// The families into which the operations fall.
#[derive(Debug, Copy, Clone, PartialEq, Eq, Structural)]
pub enum Family {
    Processor,
    LoadDirect,
    LoadIndirect,
    Addition,
    Subtraction,
    Logic,
    Step,
    Rotation,
    Shift,
    Bit,
    Jump,
    Call,
}

impl Operation {
    /// The family of the operation.
    pub open spec fn family(self) -> Family {
        match self {
            Operation::Nop
            | Operation::Stop
            | Operation::Halt
            | Operation::Daa
            | Operation::Cpl
            | Operation::Ccf
            | Operation::Scf
            | Operation::Di
            | Operation::Ei => Family::Processor,
            Operation::LdR16N16(_)
            | Operation::LdMemAtD16Sp
            | Operation::LdRR(_, _)
            | Operation::LdSpHl
            | Operation::LdMemAtD16R(_)
            | Operation::LdRMemAtD16(_)
            | Operation::LdD8R(_)
            | Operation::LdMemAtD8A
            | Operation::LdAMemAtD8
            | Operation::LdHlSpN8 => Family::LoadDirect,
            Operation::LdRMemAtR16(_, _)
            | Operation::LdMemAtR16R(_, _)
            | Operation::LdD8MemAtR16(_)
            | Operation::LdMemAtHlR(_)
            | Operation::LdRMemAtHl(_)
            | Operation::LdMemAtHlAInc
            | Operation::LdMemAtHlADec
            | Operation::LdAMemAtHlInc
            | Operation::LdAMemAtHlDec
            | Operation::LdMemAtCA
            | Operation::LdAMemAtC => Family::LoadIndirect,
            Operation::Add(_)
            | Operation::AddMemAtHl
            | Operation::AddD8
            | Operation::AddHlR16(_)
            | Operation::AddSpN8
            | Operation::Adc(_)
            | Operation::AdcMemAtHl
            | Operation::AdcN8 => Family::Addition,
            Operation::SubRRA(_)
            | Operation::SubMemAtHl
            | Operation::SubD8
            | Operation::SbcRRA(_)
            | Operation::SbcMemAtHl
            | Operation::SbcN8
            | Operation::Cp(_)
            | Operation::CpMemAtR16(_)
            | Operation::CpD8 => Family::Subtraction,
            Operation::And(_)
            | Operation::AndMemAtR16(_)
            | Operation::AndD8
            | Operation::Xor(_)
            | Operation::XorMemAtR16(_)
            | Operation::XorD8
            | Operation::Or(_)
            | Operation::OrMemAtR16(_)
            | Operation::OrD8 => Family::Logic,
            Operation::IncR(_)
            | Operation::IncR16(_)
            | Operation::IncMemAtHl
            | Operation::DecR(_)
            | Operation::DecR16(_)
            | Operation::DecMemAtHl => Family::Step,
            Operation::RlcA
            | Operation::RrcA
            | Operation::RlA
            | Operation::RrA
            | Operation::RlcR(_)
            | Operation::RlcMemAtHl
            | Operation::RrcR(_)
            | Operation::RrcMemAtHl
            | Operation::RlR(_)
            | Operation::RlMemAtHl
            | Operation::RrR(_)
            | Operation::RrMemAtHl => Family::Rotation,
            Operation::Sla(_)
            | Operation::SlaMemAtHl
            | Operation::Sra(_)
            | Operation::SraMemAtHl
            | Operation::Swap(_)
            | Operation::SwapMemAtHl
            | Operation::Srl(_)
            | Operation::SrlMemAtHl => Family::Shift,
            Operation::BitR(_, _)
            | Operation::BitMemAtHl(_)
            | Operation::ResR(_, _)
            | Operation::ResMemAtHl(_)
            | Operation::SetR(_, _)
            | Operation::SetMemAtHl(_) => Family::Bit,
            Operation::Push(_)
            | Operation::Pop(_)
            | Operation::JmpA16
            | Operation::JpNzA16
            | Operation::JpZA16
            | Operation::JpNcA16
            | Operation::JpCA16
            | Operation::JpHl
            | Operation::Jr
            | Operation::JrNz
            | Operation::JrZ
            | Operation::JrNc
            | Operation::JrC => Family::Jump,
            Operation::CallA16
            | Operation::CallNzA16
            | Operation::CallZA16
            | Operation::CallNcA16
            | Operation::CallCA16
            | Operation::Ret
            | Operation::Reti
            | Operation::RetNz
            | Operation::RetZ
            | Operation::RetNc
            | Operation::RetC
            | Operation::Rst(_) => Family::Call,
        }
    }

    /// Bit positions are below 8.
    pub open spec fn wf(self) -> bool {
        match self {
            Operation::BitR(_, bit)
            | Operation::BitMemAtHl(bit)
            | Operation::ResR(_, bit)
            | Operation::ResMemAtHl(bit)
            | Operation::SetR(_, bit)
            | Operation::SetMemAtHl(bit) => bit < 8,
            _ => true,
        }
    }

    /// The number of operand bytes that follow the opcode in memory.
    pub open spec fn operand_bytes(self) -> int {
        match self {
            Operation::LdD8MemAtR16(_)
            | Operation::LdD8R(_)
            | Operation::LdMemAtD8A
            | Operation::LdAMemAtD8
            | Operation::LdHlSpN8
            | Operation::AddD8
            | Operation::AddSpN8
            | Operation::AdcN8
            | Operation::SubD8
            | Operation::SbcN8
            | Operation::AndD8
            | Operation::XorD8
            | Operation::OrD8
            | Operation::CpD8
            | Operation::Jr
            | Operation::JrNz
            | Operation::JrZ
            | Operation::JrNc
            | Operation::JrC => 1,
            Operation::LdR16N16(_)
            | Operation::LdMemAtD16Sp
            | Operation::LdMemAtD16R(_)
            | Operation::LdRMemAtD16(_)
            | Operation::JmpA16
            | Operation::JpNzA16
            | Operation::JpZA16
            | Operation::JpNcA16
            | Operation::JpCA16
            | Operation::CallA16
            | Operation::CallNzA16
            | Operation::CallZA16
            | Operation::CallNcA16
            | Operation::CallCA16 => 2,
            _ => 0,
        }
    }

    /// Whether the operation sets the program counter itself: the jumps,
    /// calls, returns and restarts, and an operation whose destination is
    /// the program counter taken as a register pair.
    pub open spec fn is_control_transfer(self) -> bool {
        match self {
            Operation::JmpA16
            | Operation::JpNzA16
            | Operation::JpZA16
            | Operation::JpNcA16
            | Operation::JpCA16
            | Operation::JpHl
            | Operation::Jr
            | Operation::JrNz
            | Operation::JrZ
            | Operation::JrNc
            | Operation::JrC
            | Operation::CallA16
            | Operation::CallNzA16
            | Operation::CallZA16
            | Operation::CallNcA16
            | Operation::CallCA16
            | Operation::Ret
            | Operation::Reti
            | Operation::RetNz
            | Operation::RetZ
            | Operation::RetNc
            | Operation::RetC
            | Operation::Rst(_) => true,
            Operation::LdR16N16(rr)
            | Operation::IncR16(rr)
            | Operation::DecR16(rr)
            | Operation::Pop(rr) => rr == Register16bTarget::PC,
            _ => false,
        }
    }

    /// What the operation makes of a state, and the ticks that it takes.
    /// The definition is opaque, so that a proof meets it only where it
    /// asks for it with `reveal`.
    #[verifier::opaque]
    pub open spec fn effect(self, s: GameboyView) -> (GameboyView, u8) {
        match self {
            Operation::Nop => nop::spec_nop(s),
            Operation::Stop => misc::spec_stop(s),
            Operation::Halt => misc::spec_halt(s),
            Operation::Daa => misc::spec_daa(s),
            Operation::Cpl => misc::spec_cpl(s),
            Operation::Ccf => misc::spec_ccf(s),
            Operation::Scf => misc::spec_scf(s),
            Operation::Di => interrupts::spec_di(s),
            Operation::Ei => interrupts::spec_ei(s),
            Operation::LdR16N16(rr) => ld::spec_ld_r16_n16(s, rr),
            Operation::LdMemAtD16Sp => ld::spec_ld_mem_at_d16_sp(s),
            Operation::LdRR(r1, r2) => ld::spec_ld_r_r(s, r1, r2),
            Operation::LdSpHl => ld::spec_ld_sp_hl(s),
            Operation::LdMemAtD16R(r) => ld::spec_ld_mem_at_d16_r(s, r),
            Operation::LdRMemAtD16(r) => ld::spec_ld_r_mem_at_d16(s, r),
            Operation::LdRMemAtR16(rr, r) => ld::spec_ld_r_mem_at_r16(s, rr, r),
            Operation::LdMemAtR16R(rr, r) => ld::spec_ld_mem_at_r16_r(s, rr, r),
            Operation::LdD8MemAtR16(rr) => ld::spec_ld_d8_mem_at_r16(s, rr),
            Operation::LdD8R(r) => ld::spec_ld_d8_r(s, r),
            Operation::LdMemAtD8A => ld::spec_ld_mem_at_d8_a(s),
            Operation::LdAMemAtD8 => ld::spec_ld_a_mem_at_d8(s),
            Operation::LdMemAtHlR(r) => ld::spec_ld_mem_at_hl_r(s, r),
            Operation::LdRMemAtHl(r) => ld::spec_ld_r_mem_at_hl(s, r),
            Operation::LdMemAtHlAInc => ld::spec_ld_mem_at_hl_a_inc(s),
            Operation::LdMemAtHlADec => ld::spec_ld_mem_at_hl_a_dec(s),
            Operation::LdAMemAtHlInc => ld::spec_ld_a_mem_at_hl_inc(s),
            Operation::LdAMemAtHlDec => ld::spec_ld_a_mem_at_hl_dec(s),
            Operation::LdMemAtCA => ld::spec_ld_mem_at_c_a(s),
            Operation::LdAMemAtC => ld::spec_ld_a_mem_at_c(s),
            Operation::LdHlSpN8 => ld::spec_ld_hl_sp_n8(s),
            Operation::Add(r) => add::spec_add(s, r),
            Operation::AddMemAtHl => add::spec_add_mem_at_hl(s),
            Operation::AddD8 => add::spec_add_d8(s),
            Operation::AddHlR16(rr) => add::spec_add_hl_r16(s, rr),
            Operation::AddSpN8 => add::spec_add_sp_n8(s),
            Operation::Adc(r) => adc::spec_adc(s, r),
            Operation::AdcMemAtHl => adc::spec_adc_mem_at_hl(s),
            Operation::AdcN8 => adc::spec_adc_n8(s),
            Operation::SubRRA(r) => sub::spec_sub_r_r_a(s, r),
            Operation::SubMemAtHl => sub::spec_sub_mem_at_hl(s),
            Operation::SubD8 => sub::spec_sub_d8(s),
            Operation::SbcRRA(r) => sbc::spec_sbc_r_r_a(s, r),
            Operation::SbcMemAtHl => sbc::spec_sbc_mem_at_hl(s),
            Operation::SbcN8 => sbc::spec_sbc_n8(s),
            Operation::And(r) => and::spec_and(s, r),
            Operation::AndMemAtR16(rr) => and::spec_and_mem_at_r16(s, rr),
            Operation::AndD8 => and::spec_and_d8(s),
            Operation::Xor(r) => xor::spec_xor(s, r),
            Operation::XorMemAtR16(rr) => xor::spec_xor_mem_at_r16(s, rr),
            Operation::XorD8 => xor::spec_xor_d8(s),
            Operation::Or(r) => or::spec_or(s, r),
            Operation::OrMemAtR16(rr) => or::spec_or_mem_at_r16(s, rr),
            Operation::OrD8 => or::spec_or_d8(s),
            Operation::Cp(r) => cp::spec_cp(s, r),
            Operation::CpMemAtR16(rr) => cp::spec_cp_mem_at_r16(s, rr),
            Operation::CpD8 => cp::spec_cp_d8(s),
            Operation::IncR(r) => inc::spec_inc_r(s, r),
            Operation::IncR16(rr) => inc::spec_inc_r16(s, rr),
            Operation::IncMemAtHl => inc::spec_inc_mem_at_hl(s),
            Operation::DecR(r) => dec::spec_dec_r(s, r),
            Operation::DecR16(rr) => dec::spec_dec_r16(s, rr),
            Operation::DecMemAtHl => dec::spec_dec_mem_at_hl(s),
            Operation::RlcA => rot::spec_rlc_a(s),
            Operation::RrcA => rot::spec_rrc_a(s),
            Operation::RlA => rot::spec_rl_a(s),
            Operation::RrA => rot::spec_rr_a(s),
            Operation::RlcR(r) => rot::spec_rlc_r(s, r),
            Operation::RlcMemAtHl => rot::spec_rlc_mem_at_hl(s),
            Operation::RrcR(r) => rot::spec_rrc_r(s, r),
            Operation::RrcMemAtHl => rot::spec_rrc_mem_at_hl(s),
            Operation::RlR(r) => rot::spec_rl_r(s, r),
            Operation::RlMemAtHl => rot::spec_rl_mem_at_hl(s),
            Operation::RrR(r) => rot::spec_rr_r(s, r),
            Operation::RrMemAtHl => rot::spec_rr_mem_at_hl(s),
            Operation::Sla(r) => shift::spec_sla(s, r),
            Operation::SlaMemAtHl => shift::spec_sla_mem_at_hl(s),
            Operation::Sra(r) => shift::spec_sra(s, r),
            Operation::SraMemAtHl => shift::spec_sra_mem_at_hl(s),
            Operation::Swap(r) => swap::spec_swap(s, r),
            Operation::SwapMemAtHl => swap::spec_swap_mem_at_hl(s),
            Operation::Srl(r) => shift::spec_srl(s, r),
            Operation::SrlMemAtHl => shift::spec_srl_mem_at_hl(s),
            Operation::BitR(r, bit) => bit::spec_bit_r(s, r, bit),
            Operation::BitMemAtHl(bit) => bit::spec_bit_mem_at_hl(s, bit),
            Operation::ResR(r, bit) => bit::spec_res_r(s, r, bit),
            Operation::ResMemAtHl(bit) => bit::spec_res_mem_at_hl(s, bit),
            Operation::SetR(r, bit) => bit::spec_set_r(s, r, bit),
            Operation::SetMemAtHl(bit) => bit::spec_set_mem_at_hl(s, bit),
            Operation::Push(rr) => stack::spec_push(s, rr),
            Operation::Pop(rr) => stack::spec_pop(s, rr),
            Operation::JmpA16 => jmp::spec_jmp_a16(s),
            Operation::JpNzA16 => jmp::spec_jp_if(s, !s.flags().zero),
            Operation::JpZA16 => jmp::spec_jp_if(s, s.flags().zero),
            Operation::JpNcA16 => jmp::spec_jp_if(s, !s.flags().carry),
            Operation::JpCA16 => jmp::spec_jp_if(s, s.flags().carry),
            Operation::JpHl => jmp::spec_jp_hl(s),
            Operation::Jr => jmp::spec_jr(s),
            Operation::JrNz => jmp::spec_jr_if(s, !s.flags().zero),
            Operation::JrZ => jmp::spec_jr_if(s, s.flags().zero),
            Operation::JrNc => jmp::spec_jr_if(s, !s.flags().carry),
            Operation::JrC => jmp::spec_jr_if(s, s.flags().carry),
            Operation::CallA16 => call::spec_call_a16(s),
            Operation::CallNzA16 => call::spec_call_if(s, !s.flags().zero),
            Operation::CallZA16 => call::spec_call_if(s, s.flags().zero),
            Operation::CallNcA16 => call::spec_call_if(s, !s.flags().carry),
            Operation::CallCA16 => call::spec_call_if(s, s.flags().carry),
            Operation::Ret => call::spec_ret(s),
            Operation::Reti => call::spec_reti(s),
            Operation::RetNz => call::spec_ret_if(s, !s.flags().zero),
            Operation::RetZ => call::spec_ret_if(s, s.flags().zero),
            Operation::RetNc => call::spec_ret_if(s, !s.flags().carry),
            Operation::RetC => call::spec_ret_if(s, s.flags().carry),
            Operation::Rst(offset) => rst::spec_rst(s, offset),
        }
    }

    /// Performs the operation on the console and gives the ticks that it
    /// took.
    pub fn perform(&self, gameboy: &mut Gameboy) -> (ticks: u8)
        requires
            self.wf(),
        ensures
            (final(gameboy)@, ticks) == self.effect(old(gameboy)@),
            old(gameboy).wf() ==> final(gameboy).wf(),
    {
        match *self {
            Operation::Nop
            | Operation::Stop
            | Operation::Halt
            | Operation::Daa
            | Operation::Cpl
            | Operation::Ccf
            | Operation::Scf
            | Operation::Di
            | Operation::Ei => perform_processor(self, gameboy),
            Operation::LdR16N16(_)
            | Operation::LdMemAtD16Sp
            | Operation::LdRR(_, _)
            | Operation::LdSpHl
            | Operation::LdMemAtD16R(_)
            | Operation::LdRMemAtD16(_)
            | Operation::LdD8R(_)
            | Operation::LdMemAtD8A
            | Operation::LdAMemAtD8
            | Operation::LdHlSpN8 => perform_load_direct(self, gameboy),
            Operation::LdRMemAtR16(_, _)
            | Operation::LdMemAtR16R(_, _)
            | Operation::LdD8MemAtR16(_)
            | Operation::LdMemAtHlR(_)
            | Operation::LdRMemAtHl(_)
            | Operation::LdMemAtHlAInc
            | Operation::LdMemAtHlADec
            | Operation::LdAMemAtHlInc
            | Operation::LdAMemAtHlDec
            | Operation::LdMemAtCA
            | Operation::LdAMemAtC => perform_load_indirect(self, gameboy),
            Operation::Add(_)
            | Operation::AddMemAtHl
            | Operation::AddD8
            | Operation::AddHlR16(_)
            | Operation::AddSpN8
            | Operation::Adc(_)
            | Operation::AdcMemAtHl
            | Operation::AdcN8 => perform_addition(self, gameboy),
            Operation::SubRRA(_)
            | Operation::SubMemAtHl
            | Operation::SubD8
            | Operation::SbcRRA(_)
            | Operation::SbcMemAtHl
            | Operation::SbcN8
            | Operation::Cp(_)
            | Operation::CpMemAtR16(_)
            | Operation::CpD8 => perform_subtraction(self, gameboy),
            Operation::And(_)
            | Operation::AndMemAtR16(_)
            | Operation::AndD8
            | Operation::Xor(_)
            | Operation::XorMemAtR16(_)
            | Operation::XorD8
            | Operation::Or(_)
            | Operation::OrMemAtR16(_)
            | Operation::OrD8 => perform_logic(self, gameboy),
            Operation::IncR(_)
            | Operation::IncR16(_)
            | Operation::IncMemAtHl
            | Operation::DecR(_)
            | Operation::DecR16(_)
            | Operation::DecMemAtHl => perform_step(self, gameboy),
            Operation::RlcA
            | Operation::RrcA
            | Operation::RlA
            | Operation::RrA
            | Operation::RlcR(_)
            | Operation::RlcMemAtHl
            | Operation::RrcR(_)
            | Operation::RrcMemAtHl
            | Operation::RlR(_)
            | Operation::RlMemAtHl
            | Operation::RrR(_)
            | Operation::RrMemAtHl => perform_rotation(self, gameboy),
            Operation::Sla(_)
            | Operation::SlaMemAtHl
            | Operation::Sra(_)
            | Operation::SraMemAtHl
            | Operation::Swap(_)
            | Operation::SwapMemAtHl
            | Operation::Srl(_)
            | Operation::SrlMemAtHl => perform_shift(self, gameboy),
            Operation::BitR(_, _)
            | Operation::BitMemAtHl(_)
            | Operation::ResR(_, _)
            | Operation::ResMemAtHl(_)
            | Operation::SetR(_, _)
            | Operation::SetMemAtHl(_) => perform_bit(self, gameboy),
            Operation::Push(_)
            | Operation::Pop(_)
            | Operation::JmpA16
            | Operation::JpNzA16
            | Operation::JpZA16
            | Operation::JpNcA16
            | Operation::JpCA16
            | Operation::JpHl
            | Operation::Jr
            | Operation::JrNz
            | Operation::JrZ
            | Operation::JrNc
            | Operation::JrC => perform_jump(self, gameboy),
            Operation::CallA16
            | Operation::CallNzA16
            | Operation::CallZA16
            | Operation::CallNcA16
            | Operation::CallCA16
            | Operation::Ret
            | Operation::Reti
            | Operation::RetNz
            | Operation::RetZ
            | Operation::RetNc
            | Operation::RetC
            | Operation::Rst(_) => perform_call(self, gameboy),
        }
    }
}

/// Operations on the processor itself.
fn perform_processor(operation: &Operation, gameboy: &mut Gameboy) -> (ticks: u8)
    requires
        operation.family() == Family::Processor,
        operation.wf(),
    ensures
        (final(gameboy)@, ticks) == operation.effect(old(gameboy)@),
        old(gameboy).wf() ==> final(gameboy).wf(),
{
    reveal(Operation::effect);
    match *operation {
        Operation::Nop => crate::instructions::nop::nop(gameboy),
        Operation::Stop => crate::instructions::misc::stop(gameboy),
        Operation::Halt => crate::instructions::misc::halt(gameboy),
        Operation::Daa => crate::instructions::misc::daa(gameboy),
        Operation::Cpl => crate::instructions::misc::cpl(gameboy),
        Operation::Ccf => crate::instructions::misc::ccf(gameboy),
        Operation::Scf => crate::instructions::misc::scf(gameboy),
        Operation::Di => crate::instructions::interrupts::di(gameboy),
        Operation::Ei => crate::instructions::interrupts::ei(gameboy),
        _ => crate::instructions::nop::nop(gameboy),
    }
}

/// Loads between registers, immediate operands and absolute addresses.
fn perform_load_direct(operation: &Operation, gameboy: &mut Gameboy) -> (ticks: u8)
    requires
        operation.family() == Family::LoadDirect,
        operation.wf(),
    ensures
        (final(gameboy)@, ticks) == operation.effect(old(gameboy)@),
        old(gameboy).wf() ==> final(gameboy).wf(),
{
    reveal(Operation::effect);
    match *operation {
        Operation::LdR16N16(rr) => crate::instructions::ld::ld_r16_n16(gameboy, rr),
        Operation::LdMemAtD16Sp => crate::instructions::ld::ld_mem_at_d16_sp(gameboy),
        Operation::LdRR(r1, r2) => crate::instructions::ld::ld_r_r(gameboy, r1, r2),
        Operation::LdSpHl => crate::instructions::ld::ld_sp_hl(gameboy),
        Operation::LdMemAtD16R(r) => crate::instructions::ld::ld_mem_at_d16_r(gameboy, r),
        Operation::LdRMemAtD16(r) => crate::instructions::ld::ld_r_mem_at_d16(gameboy, r),
        Operation::LdD8R(r) => crate::instructions::ld::ld_d8_r(gameboy, r),
        Operation::LdMemAtD8A => crate::instructions::ld::ld_mem_at_d8_a(gameboy),
        Operation::LdAMemAtD8 => crate::instructions::ld::ld_a_mem_at_d8(gameboy),
        Operation::LdHlSpN8 => crate::instructions::ld::ld_hl_sp_n8(gameboy),
        _ => crate::instructions::nop::nop(gameboy),
    }
}

/// Loads through a register that holds an address.
fn perform_load_indirect(operation: &Operation, gameboy: &mut Gameboy) -> (ticks: u8)
    requires
        operation.family() == Family::LoadIndirect,
        operation.wf(),
    ensures
        (final(gameboy)@, ticks) == operation.effect(old(gameboy)@),
        old(gameboy).wf() ==> final(gameboy).wf(),
{
    reveal(Operation::effect);
    match *operation {
        Operation::LdRMemAtR16(rr, r) => crate::instructions::ld::ld_r_mem_at_r16(gameboy, rr, r),
        Operation::LdMemAtR16R(rr, r) => crate::instructions::ld::ld_mem_at_r16_r(gameboy, rr, r),
        Operation::LdD8MemAtR16(rr) => crate::instructions::ld::ld_d8_mem_at_r16(gameboy, rr),
        Operation::LdMemAtHlR(r) => crate::instructions::ld::ld_mem_at_hl_r(gameboy, r),
        Operation::LdRMemAtHl(r) => crate::instructions::ld::ld_r_mem_at_hl(gameboy, r),
        Operation::LdMemAtHlAInc => crate::instructions::ld::ld_mem_at_hl_a_inc(gameboy),
        Operation::LdMemAtHlADec => crate::instructions::ld::ld_mem_at_hl_a_dec(gameboy),
        Operation::LdAMemAtHlInc => crate::instructions::ld::ld_a_mem_at_hl_inc(gameboy),
        Operation::LdAMemAtHlDec => crate::instructions::ld::ld_a_mem_at_hl_dec(gameboy),
        Operation::LdMemAtCA => crate::instructions::ld::ld_mem_at_c_a(gameboy),
        Operation::LdAMemAtC => crate::instructions::ld::ld_a_mem_at_c(gameboy),
        _ => crate::instructions::nop::nop(gameboy),
    }
}

/// Additions.
fn perform_addition(operation: &Operation, gameboy: &mut Gameboy) -> (ticks: u8)
    requires
        operation.family() == Family::Addition,
        operation.wf(),
    ensures
        (final(gameboy)@, ticks) == operation.effect(old(gameboy)@),
        old(gameboy).wf() ==> final(gameboy).wf(),
{
    reveal(Operation::effect);
    match *operation {
        Operation::Add(r) => crate::instructions::add::add(gameboy, r),
        Operation::AddMemAtHl => crate::instructions::add::add_mem_at_hl(gameboy),
        Operation::AddD8 => crate::instructions::add::add_d8(gameboy),
        Operation::AddHlR16(rr) => crate::instructions::add::add_hl_r16(gameboy, rr),
        Operation::AddSpN8 => crate::instructions::add::add_sp_n8(gameboy),
        Operation::Adc(r) => crate::instructions::adc::adc(gameboy, r),
        Operation::AdcMemAtHl => crate::instructions::adc::adc_mem_at_hl(gameboy),
        Operation::AdcN8 => crate::instructions::adc::adc_n8(gameboy),
        _ => crate::instructions::nop::nop(gameboy),
    }
}

/// Subtractions and comparisons.
fn perform_subtraction(operation: &Operation, gameboy: &mut Gameboy) -> (ticks: u8)
    requires
        operation.family() == Family::Subtraction,
        operation.wf(),
    ensures
        (final(gameboy)@, ticks) == operation.effect(old(gameboy)@),
        old(gameboy).wf() ==> final(gameboy).wf(),
{
    reveal(Operation::effect);
    match *operation {
        Operation::SubRRA(r) => crate::instructions::sub::sub_r_r_a(gameboy, r),
        Operation::SubMemAtHl => crate::instructions::sub::sub_mem_at_hl(gameboy),
        Operation::SubD8 => crate::instructions::sub::sub_d8(gameboy),
        Operation::SbcRRA(r) => crate::instructions::sbc::sbc_r_r_a(gameboy, r),
        Operation::SbcMemAtHl => crate::instructions::sbc::sbc_mem_at_hl(gameboy),
        Operation::SbcN8 => crate::instructions::sbc::sbc_n8(gameboy),
        Operation::Cp(r) => crate::instructions::cp::cp(gameboy, r),
        Operation::CpMemAtR16(rr) => crate::instructions::cp::cp_mem_at_r16(gameboy, rr),
        Operation::CpD8 => crate::instructions::cp::cp_d8(gameboy),
        _ => crate::instructions::nop::nop(gameboy),
    }
}

/// Bitwise operations on the accumulator.
fn perform_logic(operation: &Operation, gameboy: &mut Gameboy) -> (ticks: u8)
    requires
        operation.family() == Family::Logic,
        operation.wf(),
    ensures
        (final(gameboy)@, ticks) == operation.effect(old(gameboy)@),
        old(gameboy).wf() ==> final(gameboy).wf(),
{
    reveal(Operation::effect);
    match *operation {
        Operation::And(r) => crate::instructions::and::and(gameboy, r),
        Operation::AndMemAtR16(rr) => crate::instructions::and::and_mem_at_r16(gameboy, rr),
        Operation::AndD8 => crate::instructions::and::and_d8(gameboy),
        Operation::Xor(r) => crate::instructions::xor::xor(gameboy, r),
        Operation::XorMemAtR16(rr) => crate::instructions::xor::xor_mem_at_r16(gameboy, rr),
        Operation::XorD8 => crate::instructions::xor::xor_d8(gameboy),
        Operation::Or(r) => crate::instructions::or::or(gameboy, r),
        Operation::OrMemAtR16(rr) => crate::instructions::or::or_mem_at_r16(gameboy, rr),
        Operation::OrD8 => crate::instructions::or::or_d8(gameboy),
        _ => crate::instructions::nop::nop(gameboy),
    }
}

/// Increments and decrements.
fn perform_step(operation: &Operation, gameboy: &mut Gameboy) -> (ticks: u8)
    requires
        operation.family() == Family::Step,
        operation.wf(),
    ensures
        (final(gameboy)@, ticks) == operation.effect(old(gameboy)@),
        old(gameboy).wf() ==> final(gameboy).wf(),
{
    reveal(Operation::effect);
    match *operation {
        Operation::IncR(r) => crate::instructions::inc::inc_r(gameboy, r),
        Operation::IncR16(rr) => crate::instructions::inc::inc_r16(gameboy, rr),
        Operation::IncMemAtHl => crate::instructions::inc::inc_mem_at_hl(gameboy),
        Operation::DecR(r) => crate::instructions::dec::dec_r(gameboy, r),
        Operation::DecR16(rr) => crate::instructions::dec::dec_r16(gameboy, rr),
        Operation::DecMemAtHl => crate::instructions::dec::dec_mem_at_hl(gameboy),
        _ => crate::instructions::nop::nop(gameboy),
    }
}

/// Rotations.
fn perform_rotation(operation: &Operation, gameboy: &mut Gameboy) -> (ticks: u8)
    requires
        operation.family() == Family::Rotation,
        operation.wf(),
    ensures
        (final(gameboy)@, ticks) == operation.effect(old(gameboy)@),
        old(gameboy).wf() ==> final(gameboy).wf(),
{
    reveal(Operation::effect);
    match *operation {
        Operation::RlcA => crate::instructions::rot::rlc_a(gameboy),
        Operation::RrcA => crate::instructions::rot::rrc_a(gameboy),
        Operation::RlA => crate::instructions::rot::rl_a(gameboy),
        Operation::RrA => crate::instructions::rot::rr_a(gameboy),
        Operation::RlcR(r) => crate::instructions::rot::rlc_r(gameboy, r),
        Operation::RlcMemAtHl => crate::instructions::rot::rlc_mem_at_hl(gameboy),
        Operation::RrcR(r) => crate::instructions::rot::rrc_r(gameboy, r),
        Operation::RrcMemAtHl => crate::instructions::rot::rrc_mem_at_hl(gameboy),
        Operation::RlR(r) => crate::instructions::rot::rl_r(gameboy, r),
        Operation::RlMemAtHl => crate::instructions::rot::rl_mem_at_hl(gameboy),
        Operation::RrR(r) => crate::instructions::rot::rr_r(gameboy, r),
        Operation::RrMemAtHl => crate::instructions::rot::rr_mem_at_hl(gameboy),
        _ => crate::instructions::nop::nop(gameboy),
    }
}

/// Shifts and nibble swaps.
fn perform_shift(operation: &Operation, gameboy: &mut Gameboy) -> (ticks: u8)
    requires
        operation.family() == Family::Shift,
        operation.wf(),
    ensures
        (final(gameboy)@, ticks) == operation.effect(old(gameboy)@),
        old(gameboy).wf() ==> final(gameboy).wf(),
{
    reveal(Operation::effect);
    match *operation {
        Operation::Sla(r) => crate::instructions::shift::sla(gameboy, r),
        Operation::SlaMemAtHl => crate::instructions::shift::sla_mem_at_hl(gameboy),
        Operation::Sra(r) => crate::instructions::shift::sra(gameboy, r),
        Operation::SraMemAtHl => crate::instructions::shift::sra_mem_at_hl(gameboy),
        Operation::Swap(r) => crate::instructions::swap::swap(gameboy, r),
        Operation::SwapMemAtHl => crate::instructions::swap::swap_mem_at_hl(gameboy),
        Operation::Srl(r) => crate::instructions::shift::srl(gameboy, r),
        Operation::SrlMemAtHl => crate::instructions::shift::srl_mem_at_hl(gameboy),
        _ => crate::instructions::nop::nop(gameboy),
    }
}

/// Operations on single bits.
fn perform_bit(operation: &Operation, gameboy: &mut Gameboy) -> (ticks: u8)
    requires
        operation.family() == Family::Bit,
        operation.wf(),
    ensures
        (final(gameboy)@, ticks) == operation.effect(old(gameboy)@),
        old(gameboy).wf() ==> final(gameboy).wf(),
{
    reveal(Operation::effect);
    match *operation {
        Operation::BitR(r, bit) => crate::instructions::bit::bit_r(gameboy, r, bit),
        Operation::BitMemAtHl(bit) => crate::instructions::bit::bit_mem_at_hl(gameboy, bit),
        Operation::ResR(r, bit) => crate::instructions::bit::res_r(gameboy, r, bit),
        Operation::ResMemAtHl(bit) => crate::instructions::bit::res_mem_at_hl(gameboy, bit),
        Operation::SetR(r, bit) => crate::instructions::bit::set_r(gameboy, r, bit),
        Operation::SetMemAtHl(bit) => crate::instructions::bit::set_mem_at_hl(gameboy, bit),
        _ => crate::instructions::nop::nop(gameboy),
    }
}

/// Stack transfers and jumps.
fn perform_jump(operation: &Operation, gameboy: &mut Gameboy) -> (ticks: u8)
    requires
        operation.family() == Family::Jump,
        operation.wf(),
    ensures
        (final(gameboy)@, ticks) == operation.effect(old(gameboy)@),
        old(gameboy).wf() ==> final(gameboy).wf(),
{
    reveal(Operation::effect);
    match *operation {
        Operation::Push(rr) => crate::instructions::stack::push(gameboy, rr),
        Operation::Pop(rr) => crate::instructions::stack::pop(gameboy, rr),
        Operation::JmpA16 => crate::instructions::jmp::jmp_a16(gameboy),
        Operation::JpNzA16 => crate::instructions::jmp::jp_nz_a16(gameboy),
        Operation::JpZA16 => crate::instructions::jmp::jp_z_a16(gameboy),
        Operation::JpNcA16 => crate::instructions::jmp::jp_nc_a16(gameboy),
        Operation::JpCA16 => crate::instructions::jmp::jp_c_a16(gameboy),
        Operation::JpHl => crate::instructions::jmp::jp_hl(gameboy),
        Operation::Jr => crate::instructions::jmp::jr(gameboy),
        Operation::JrNz => crate::instructions::jmp::jr_nz(gameboy),
        Operation::JrZ => crate::instructions::jmp::jr_z(gameboy),
        Operation::JrNc => crate::instructions::jmp::jr_nc(gameboy),
        Operation::JrC => crate::instructions::jmp::jr_c(gameboy),
        _ => crate::instructions::nop::nop(gameboy),
    }
}

/// Calls, returns and restarts.
fn perform_call(operation: &Operation, gameboy: &mut Gameboy) -> (ticks: u8)
    requires
        operation.family() == Family::Call,
        operation.wf(),
    ensures
        (final(gameboy)@, ticks) == operation.effect(old(gameboy)@),
        old(gameboy).wf() ==> final(gameboy).wf(),
{
    reveal(Operation::effect);
    match *operation {
        Operation::CallA16 => crate::instructions::call::call_a16(gameboy),
        Operation::CallNzA16 => crate::instructions::call::call_nz_a16(gameboy),
        Operation::CallZA16 => crate::instructions::call::call_z_a16(gameboy),
        Operation::CallNcA16 => crate::instructions::call::call_nc_a16(gameboy),
        Operation::CallCA16 => crate::instructions::call::call_c_a16(gameboy),
        Operation::Ret => crate::instructions::call::ret(gameboy),
        Operation::Reti => crate::instructions::call::reti(gameboy),
        Operation::RetNz => crate::instructions::call::ret_nz(gameboy),
        Operation::RetZ => crate::instructions::call::ret_z(gameboy),
        Operation::RetNc => crate::instructions::call::ret_nc(gameboy),
        Operation::RetC => crate::instructions::call::ret_c(gameboy),
        Operation::Rst(offset) => crate::instructions::rst::rst(gameboy, offset),
        _ => crate::instructions::nop::nop(gameboy),
    }
}

/// Every operation takes at least two ticks.
pub proof fn lemma_ticks_positive(operation: Operation, s: GameboyView)
    ensures
        operation.effect(s).1 >= 2,
{
    reveal(Operation::effect);
}

/// An operation together with the number of bytes by which the program
/// counter moves on after it. Operand reads move the program counter
/// themselves, so this is 1 for an operation of the plain table, 2 for one
/// of the prefixed table, and 0 for a control transfer.
#[derive(Debug, Copy, Clone, PartialEq, Eq, Structural)]
pub struct Instruction {
    pub operation: Operation,
    pub advance: u8,
}

impl Instruction {
    /// The bit position of the operation, if it has one, is below 8.
    pub open spec fn wf(self) -> bool {
        self.operation.wf()
    }

    /// The length of the instruction in bytes: what is skipped after the
    /// operation and the operand bytes that the operation reads.
    pub open spec fn length(self) -> int {
        self.advance + self.operation.operand_bytes()
    }

    /// What the instruction makes of a state: the effect of its operation,
    /// then the move of the program counter.
    pub open spec fn spec_execute(self, s: GameboyView) -> (GameboyView, u8) {
        let (after, ticks) = self.operation.effect(s);
        (after.with_pc(wrap16(after.pc() + self.advance)), ticks)
    }

    /// Executes the instruction and gives the ticks that it took.
    pub fn execute(&self, gameboy: &mut Gameboy) -> (ticks: u8)
        requires
            self.wf(),
        ensures
            (final(gameboy)@, ticks) == self.spec_execute(old(gameboy)@),
            old(gameboy).wf() ==> final(gameboy).wf(),
    {
        let ticks = self.operation.perform(gameboy);
        gameboy.cpu.registers.pc = gameboy.cpu.registers.pc.wrapping_add(self.advance as u16);
        ticks
    }
}

/// The operation as it is, for one that sets the program counter itself.
pub open spec fn spec_transfer(operation: Operation) -> Instruction {
    Instruction { operation, advance: 0 }
}

/// The operation followed by a move of the program counter past the opcode.
pub open spec fn spec_pai(operation: Operation) -> Instruction {
    Instruction { operation, advance: 1 }
}

/// The operation followed by a move of the program counter past the prefix
/// and the opcode.
pub open spec fn spec_dpai(operation: Operation) -> Instruction {
    Instruction { operation, advance: 2 }
}

/// Makes the instruction of an operation that sets the program counter
/// itself.
pub fn transfer(operation: Operation) -> (instruction: Instruction)
    ensures
        instruction == spec_transfer(operation),
{
    Instruction { operation, advance: 0 }
}

/// Makes the instruction of an operation of the plain table: the program
/// counter moves past the opcode after the operation.
pub fn pai(operation: Operation) -> (instruction: Instruction)
    ensures
        instruction == spec_pai(operation),
{
    Instruction { operation, advance: 1 }
}

/// Makes the instruction of an operation of the prefixed table: the
/// program counter moves past the prefix and the opcode after the operation.
pub fn dpai(operation: Operation) -> (instruction: Instruction)
    ensures
        instruction == spec_dpai(operation),
{
    Instruction { operation, advance: 2 }
}

/// The 8-bit operand that three bits of an opcode select; `None` stands for
/// the byte that `HL` points at.
pub open spec fn register_operand(index: int) -> Option<RegisterTarget> {
    if index == 0 {
        Some(RegisterTarget::B)
    } else if index == 1 {
        Some(RegisterTarget::C)
    } else if index == 2 {
        Some(RegisterTarget::D)
    } else if index == 3 {
        Some(RegisterTarget::E)
    } else if index == 4 {
        Some(RegisterTarget::H)
    } else if index == 5 {
        Some(RegisterTarget::L)
    } else if index == 6 {
        None
    } else {
        Some(RegisterTarget::A)
    }
}

/// The register pair that two bits of an opcode select; the last one is
/// the stack pointer, or `AF` for pushes and pops.
pub open spec fn pair_operand(index: int, last: Register16bTarget) -> Register16bTarget {
    if index == 0 {
        Register16bTarget::BC
    } else if index == 1 {
        Register16bTarget::DE
    } else if index == 2 {
        Register16bTarget::HL
    } else {
        last
    }
}

/// The arithmetic or logic operation that three bits of an opcode select,
/// on a register or on the byte that `HL` points at.
pub open spec fn accumulator_operation(kind: int, operand: Option<RegisterTarget>) -> Operation {
    match operand {
        Some(r) => if kind == 0 {
            Operation::Add(r)
        } else if kind == 1 {
            Operation::Adc(r)
        } else if kind == 2 {
            Operation::SubRRA(r)
        } else if kind == 3 {
            Operation::SbcRRA(r)
        } else if kind == 4 {
            Operation::And(r)
        } else if kind == 5 {
            Operation::Xor(r)
        } else if kind == 6 {
            Operation::Or(r)
        } else {
            Operation::Cp(r)
        },
        None => if kind == 0 {
            Operation::AddMemAtHl
        } else if kind == 1 {
            Operation::AdcMemAtHl
        } else if kind == 2 {
            Operation::SubMemAtHl
        } else if kind == 3 {
            Operation::SbcMemAtHl
        } else if kind == 4 {
            Operation::AndMemAtR16(Register16bTarget::HL)
        } else if kind == 5 {
            Operation::XorMemAtR16(Register16bTarget::HL)
        } else if kind == 6 {
            Operation::OrMemAtR16(Register16bTarget::HL)
        } else {
            Operation::CpMemAtR16(Register16bTarget::HL)
        },
    }
}

/// The arithmetic or logic operation that three bits of an opcode select,
/// on the byte after the opcode.
pub open spec fn immediate_operation(kind: int) -> Operation {
    if kind == 0 {
        Operation::AddD8
    } else if kind == 1 {
        Operation::AdcN8
    } else if kind == 2 {
        Operation::SubD8
    } else if kind == 3 {
        Operation::SbcN8
    } else if kind == 4 {
        Operation::AndD8
    } else if kind == 5 {
        Operation::XorD8
    } else if kind == 6 {
        Operation::OrD8
    } else {
        Operation::CpD8
    }
}

/// The rotation or shift that three bits of a prefixed opcode select.
pub open spec fn rotation_operation(kind: int, operand: Option<RegisterTarget>) -> Operation {
    match operand {
        Some(r) => if kind == 0 {
            Operation::RlcR(r)
        } else if kind == 1 {
            Operation::RrcR(r)
        } else if kind == 2 {
            Operation::RlR(r)
        } else if kind == 3 {
            Operation::RrR(r)
        } else if kind == 4 {
            Operation::Sla(r)
        } else if kind == 5 {
            Operation::Sra(r)
        } else if kind == 6 {
            Operation::Swap(r)
        } else {
            Operation::Srl(r)
        },
        None => if kind == 0 {
            Operation::RlcMemAtHl
        } else if kind == 1 {
            Operation::RrcMemAtHl
        } else if kind == 2 {
            Operation::RlMemAtHl
        } else if kind == 3 {
            Operation::RrMemAtHl
        } else if kind == 4 {
            Operation::SlaMemAtHl
        } else if kind == 5 {
            Operation::SraMemAtHl
        } else if kind == 6 {
            Operation::SwapMemAtHl
        } else {
            Operation::SrlMemAtHl
        },
    }
}

/// The instruction of a prefixed opcode. Its two high bits select among
/// rotations, bit tests, bit clears and bit sets; the next three the kind
/// of rotation or the bit; the low three the operand.
pub open spec fn decode_prefixed(byte: u8) -> Instruction {
    let group = byte / 64;
    let y = (byte / 8) % 8;
    let operand = register_operand((byte % 8) as int);
    spec_dpai(
        if group == 0 {
            rotation_operation(y as int, operand)
        } else if group == 1 {
            match operand {
                Some(r) => Operation::BitR(r, y),
                None => Operation::BitMemAtHl(y),
            }
        } else if group == 2 {
            match operand {
                Some(r) => Operation::ResR(r, y),
                None => Operation::ResMemAtHl(y),
            }
        } else {
            match operand {
                Some(r) => Operation::SetR(r, y),
                None => Operation::SetMemAtHl(y),
            }
        },
    )
}

/// The instructions of the first quarter of the plain table.
pub open spec fn decode_low(y: int, z: int) -> Instruction {
    let pair = pair_operand(y / 2, Register16bTarget::SP);
    if z == 0 {
        if y == 0 {
            spec_pai(Operation::Nop)
        } else if y == 1 {
            spec_pai(Operation::LdMemAtD16Sp)
        } else if y == 2 {
            spec_pai(Operation::Stop)
        } else if y == 3 {
            spec_transfer(Operation::Jr)
        } else if y == 4 {
            spec_transfer(Operation::JrNz)
        } else if y == 5 {
            spec_transfer(Operation::JrZ)
        } else if y == 6 {
            spec_transfer(Operation::JrNc)
        } else {
            spec_transfer(Operation::JrC)
        }
    } else if z == 1 {
        if y % 2 == 0 {
            spec_pai(Operation::LdR16N16(pair))
        } else {
            spec_pai(Operation::AddHlR16(pair))
        }
    } else if z == 2 {
        spec_pai(
            if y == 0 {
                Operation::LdMemAtR16R(Register16bTarget::BC, RegisterTarget::A)
            } else if y == 1 {
                Operation::LdRMemAtR16(Register16bTarget::BC, RegisterTarget::A)
            } else if y == 2 {
                Operation::LdMemAtR16R(Register16bTarget::DE, RegisterTarget::A)
            } else if y == 3 {
                Operation::LdRMemAtR16(Register16bTarget::DE, RegisterTarget::A)
            } else if y == 4 {
                Operation::LdMemAtHlAInc
            } else if y == 5 {
                Operation::LdAMemAtHlInc
            } else if y == 6 {
                Operation::LdMemAtHlADec
            } else {
                Operation::LdAMemAtHlDec
            },
        )
    } else if z == 3 {
        if y % 2 == 0 {
            spec_pai(Operation::IncR16(pair))
        } else {
            spec_pai(Operation::DecR16(pair))
        }
    } else if z == 4 {
        match register_operand(y) {
            Some(r) => spec_pai(Operation::IncR(r)),
            None => spec_pai(Operation::IncMemAtHl),
        }
    } else if z == 5 {
        match register_operand(y) {
            Some(r) => spec_pai(Operation::DecR(r)),
            None => spec_pai(Operation::DecMemAtHl),
        }
    } else if z == 6 {
        match register_operand(y) {
            Some(r) => spec_pai(Operation::LdD8R(r)),
            None => spec_pai(Operation::LdD8MemAtR16(Register16bTarget::HL)),
        }
    } else {
        spec_pai(
            if y == 0 {
                Operation::RlcA
            } else if y == 1 {
                Operation::RrcA
            } else if y == 2 {
                Operation::RlA
            } else if y == 3 {
                Operation::RrA
            } else if y == 4 {
                Operation::Daa
            } else if y == 5 {
                Operation::Cpl
            } else if y == 6 {
                Operation::Scf
            } else {
                Operation::Ccf
            },
        )
    }
}

/// The register-to-register loads, with `HALT` in the place of a load from
/// and to the byte that `HL` points at.
pub open spec fn decode_load(y: int, z: int) -> Instruction {
    spec_pai(
        match (register_operand(y), register_operand(z)) {
            (Some(dest), Some(src)) => Operation::LdRR(src, dest),
            (Some(dest), None) => Operation::LdRMemAtHl(dest),
            (None, Some(src)) => Operation::LdMemAtHlR(src),
            (None, None) => Operation::Halt,
        },
    )
}

/// The instructions of the last quarter of the plain table, where it is
/// defined.
pub open spec fn decode_high(y: int, z: int) -> Option<Instruction> {
    let pair = pair_operand(y / 2, Register16bTarget::AF);
    if z == 0 {
        Some(
            if y == 0 {
                spec_transfer(Operation::RetNz)
            } else if y == 1 {
                spec_transfer(Operation::RetZ)
            } else if y == 2 {
                spec_transfer(Operation::RetNc)
            } else if y == 3 {
                spec_transfer(Operation::RetC)
            } else if y == 4 {
                spec_pai(Operation::LdMemAtD8A)
            } else if y == 5 {
                spec_pai(Operation::AddSpN8)
            } else if y == 6 {
                spec_pai(Operation::LdAMemAtD8)
            } else {
                spec_pai(Operation::LdHlSpN8)
            },
        )
    } else if z == 1 {
        Some(
            if y % 2 == 0 {
                spec_pai(Operation::Pop(pair))
            } else if y == 1 {
                spec_transfer(Operation::Ret)
            } else if y == 3 {
                spec_transfer(Operation::Reti)
            } else if y == 5 {
                spec_transfer(Operation::JpHl)
            } else {
                spec_pai(Operation::LdSpHl)
            },
        )
    } else if z == 2 {
        Some(
            if y == 0 {
                spec_transfer(Operation::JpNzA16)
            } else if y == 1 {
                spec_transfer(Operation::JpZA16)
            } else if y == 2 {
                spec_transfer(Operation::JpNcA16)
            } else if y == 3 {
                spec_transfer(Operation::JpCA16)
            } else if y == 4 {
                spec_pai(Operation::LdMemAtCA)
            } else if y == 5 {
                spec_pai(Operation::LdMemAtD16R(RegisterTarget::A))
            } else if y == 6 {
                spec_pai(Operation::LdAMemAtC)
            } else {
                spec_pai(Operation::LdRMemAtD16(RegisterTarget::A))
            },
        )
    } else if z == 3 {
        if y == 0 {
            Some(spec_transfer(Operation::JmpA16))
        } else if y == 6 {
            Some(spec_pai(Operation::Di))
        } else if y == 7 {
            Some(spec_pai(Operation::Ei))
        } else {
            None
        }
    } else if z == 4 {
        if y == 0 {
            Some(spec_transfer(Operation::CallNzA16))
        } else if y == 1 {
            Some(spec_transfer(Operation::CallZA16))
        } else if y == 2 {
            Some(spec_transfer(Operation::CallNcA16))
        } else if y == 3 {
            Some(spec_transfer(Operation::CallCA16))
        } else {
            None
        }
    } else if z == 5 {
        if y % 2 == 0 {
            Some(spec_pai(Operation::Push(pair)))
        } else if y == 1 {
            Some(spec_transfer(Operation::CallA16))
        } else {
            None
        }
    } else if z == 6 {
        Some(spec_pai(immediate_operation(y)))
    } else {
        Some(spec_transfer(Operation::Rst((y * 8) as u8)))
    }
}

/// The instruction of a plain opcode, where the opcode is defined. The two
/// high bits of the opcode select a quarter of the table, the next three
/// and the low three an entry of it. The prefix byte and eleven bytes of
/// the last quarter select no instruction.
pub open spec fn decode(byte: u8) -> Option<Instruction> {
    let quarter = byte / 64;
    let y = (byte / 8) % 8;
    let z = byte % 8;
    if quarter == 0 {
        Some(decode_low(y as int, z as int))
    } else if quarter == 1 {
        Some(decode_load(y as int, z as int))
    } else if quarter == 2 {
        Some(spec_pai(accumulator_operation(y as int, register_operand(z as int))))
    } else {
        decode_high(y as int, z as int)
    }
}

/// Whether the plain table has an instruction for the byte.
pub open spec fn supported(byte: u8) -> bool {
    decode(byte) is Some
}

/// Tells whether the plain table has an instruction for the byte.
pub fn is_supported(byte: u8) -> (defined: bool)
    ensures
        defined == supported(byte),
{
    match byte {
        0xCB | 0xD3 | 0xDB | 0xDD | 0xE3 | 0xE4 | 0xEB | 0xEC | 0xED | 0xF4 | 0xFC | 0xFD => false,
        _ => true,
    }
}

/// The first row of the plain table.
fn plain_first_row(byte: u8) -> (instruction: Instruction)
    requires
        byte / 16 == 0,
    ensures
        Some(instruction) == decode(byte),
        instruction.wf(),
{
    match byte {
        0x00 => pai(Operation::Nop),
        0x01 => pai(Operation::LdR16N16(Register16bTarget::BC)),
        0x02 => pai(Operation::LdMemAtR16R(Register16bTarget::BC, RegisterTarget::A)),
        0x03 => pai(Operation::IncR16(Register16bTarget::BC)),
        0x04 => pai(Operation::IncR(RegisterTarget::B)),
        0x05 => pai(Operation::DecR(RegisterTarget::B)),
        0x06 => pai(Operation::LdD8R(RegisterTarget::B)),
        0x07 => pai(Operation::RlcA),
        0x08 => pai(Operation::LdMemAtD16Sp),
        0x09 => pai(Operation::AddHlR16(Register16bTarget::BC)),
        0x0A => pai(Operation::LdRMemAtR16(Register16bTarget::BC, RegisterTarget::A)),
        0x0B => pai(Operation::DecR16(Register16bTarget::BC)),
        0x0C => pai(Operation::IncR(RegisterTarget::C)),
        0x0D => pai(Operation::DecR(RegisterTarget::C)),
        0x0E => pai(Operation::LdD8R(RegisterTarget::C)),
        _ => pai(Operation::RrcA),
    }
}

/// The second row of the plain table.
fn plain_second_row(byte: u8) -> (instruction: Instruction)
    requires
        byte / 16 == 1,
    ensures
        Some(instruction) == decode(byte),
        instruction.wf(),
{
    match byte {
        0x10 => pai(Operation::Stop),
        0x11 => pai(Operation::LdR16N16(Register16bTarget::DE)),
        0x12 => pai(Operation::LdMemAtR16R(Register16bTarget::DE, RegisterTarget::A)),
        0x13 => pai(Operation::IncR16(Register16bTarget::DE)),
        0x14 => pai(Operation::IncR(RegisterTarget::D)),
        0x15 => pai(Operation::DecR(RegisterTarget::D)),
        0x16 => pai(Operation::LdD8R(RegisterTarget::D)),
        0x17 => pai(Operation::RlA),
        0x18 => transfer(Operation::Jr),
        0x19 => pai(Operation::AddHlR16(Register16bTarget::DE)),
        0x1A => pai(Operation::LdRMemAtR16(Register16bTarget::DE, RegisterTarget::A)),
        0x1B => pai(Operation::DecR16(Register16bTarget::DE)),
        0x1C => pai(Operation::IncR(RegisterTarget::E)),
        0x1D => pai(Operation::DecR(RegisterTarget::E)),
        0x1E => pai(Operation::LdD8R(RegisterTarget::E)),
        _ => pai(Operation::RrA),
    }
}

/// The third row of the plain table.
fn plain_third_row(byte: u8) -> (instruction: Instruction)
    requires
        byte / 16 == 2,
    ensures
        Some(instruction) == decode(byte),
        instruction.wf(),
{
    match byte {
        0x20 => transfer(Operation::JrNz),
        0x21 => pai(Operation::LdR16N16(Register16bTarget::HL)),
        0x22 => pai(Operation::LdMemAtHlAInc),
        0x23 => pai(Operation::IncR16(Register16bTarget::HL)),
        0x24 => pai(Operation::IncR(RegisterTarget::H)),
        0x25 => pai(Operation::DecR(RegisterTarget::H)),
        0x26 => pai(Operation::LdD8R(RegisterTarget::H)),
        0x27 => pai(Operation::Daa),
        0x28 => transfer(Operation::JrZ),
        0x29 => pai(Operation::AddHlR16(Register16bTarget::HL)),
        0x2A => pai(Operation::LdAMemAtHlInc),
        0x2B => pai(Operation::DecR16(Register16bTarget::HL)),
        0x2C => pai(Operation::IncR(RegisterTarget::L)),
        0x2D => pai(Operation::DecR(RegisterTarget::L)),
        0x2E => pai(Operation::LdD8R(RegisterTarget::L)),
        _ => pai(Operation::Cpl),
    }
}

/// The fourth row of the plain table.
fn plain_fourth_row(byte: u8) -> (instruction: Instruction)
    requires
        byte / 16 == 3,
    ensures
        Some(instruction) == decode(byte),
        instruction.wf(),
{
    match byte {
        0x30 => transfer(Operation::JrNc),
        0x31 => pai(Operation::LdR16N16(Register16bTarget::SP)),
        0x32 => pai(Operation::LdMemAtHlADec),
        0x33 => pai(Operation::IncR16(Register16bTarget::SP)),
        0x34 => pai(Operation::IncMemAtHl),
        0x35 => pai(Operation::DecMemAtHl),
        0x36 => pai(Operation::LdD8MemAtR16(Register16bTarget::HL)),
        0x37 => pai(Operation::Scf),
        0x38 => transfer(Operation::JrC),
        0x39 => pai(Operation::AddHlR16(Register16bTarget::SP)),
        0x3A => pai(Operation::LdAMemAtHlDec),
        0x3B => pai(Operation::DecR16(Register16bTarget::SP)),
        0x3C => pai(Operation::IncR(RegisterTarget::A)),
        0x3D => pai(Operation::DecR(RegisterTarget::A)),
        0x3E => pai(Operation::LdD8R(RegisterTarget::A)),
        _ => pai(Operation::Ccf),
    }
}

/// The fifth row of the plain table.
fn plain_fifth_row(byte: u8) -> (instruction: Instruction)
    requires
        byte / 16 == 4,
    ensures
        Some(instruction) == decode(byte),
        instruction.wf(),
{
    match byte {
        0x40 => pai(Operation::LdRR(RegisterTarget::B, RegisterTarget::B)),
        0x41 => pai(Operation::LdRR(RegisterTarget::C, RegisterTarget::B)),
        0x42 => pai(Operation::LdRR(RegisterTarget::D, RegisterTarget::B)),
        0x43 => pai(Operation::LdRR(RegisterTarget::E, RegisterTarget::B)),
        0x44 => pai(Operation::LdRR(RegisterTarget::H, RegisterTarget::B)),
        0x45 => pai(Operation::LdRR(RegisterTarget::L, RegisterTarget::B)),
        0x46 => pai(Operation::LdRMemAtHl(RegisterTarget::B)),
        0x47 => pai(Operation::LdRR(RegisterTarget::A, RegisterTarget::B)),
        0x48 => pai(Operation::LdRR(RegisterTarget::B, RegisterTarget::C)),
        0x49 => pai(Operation::LdRR(RegisterTarget::C, RegisterTarget::C)),
        0x4A => pai(Operation::LdRR(RegisterTarget::D, RegisterTarget::C)),
        0x4B => pai(Operation::LdRR(RegisterTarget::E, RegisterTarget::C)),
        0x4C => pai(Operation::LdRR(RegisterTarget::H, RegisterTarget::C)),
        0x4D => pai(Operation::LdRR(RegisterTarget::L, RegisterTarget::C)),
        0x4E => pai(Operation::LdRMemAtHl(RegisterTarget::C)),
        _ => pai(Operation::LdRR(RegisterTarget::A, RegisterTarget::C)),
    }
}

/// The sixth row of the plain table.
fn plain_sixth_row(byte: u8) -> (instruction: Instruction)
    requires
        byte / 16 == 5,
    ensures
        Some(instruction) == decode(byte),
        instruction.wf(),
{
    match byte {
        0x50 => pai(Operation::LdRR(RegisterTarget::B, RegisterTarget::D)),
        0x51 => pai(Operation::LdRR(RegisterTarget::C, RegisterTarget::D)),
        0x52 => pai(Operation::LdRR(RegisterTarget::D, RegisterTarget::D)),
        0x53 => pai(Operation::LdRR(RegisterTarget::E, RegisterTarget::D)),
        0x54 => pai(Operation::LdRR(RegisterTarget::H, RegisterTarget::D)),
        0x55 => pai(Operation::LdRR(RegisterTarget::L, RegisterTarget::D)),
        0x56 => pai(Operation::LdRMemAtHl(RegisterTarget::D)),
        0x57 => pai(Operation::LdRR(RegisterTarget::A, RegisterTarget::D)),
        0x58 => pai(Operation::LdRR(RegisterTarget::B, RegisterTarget::E)),
        0x59 => pai(Operation::LdRR(RegisterTarget::C, RegisterTarget::E)),
        0x5A => pai(Operation::LdRR(RegisterTarget::D, RegisterTarget::E)),
        0x5B => pai(Operation::LdRR(RegisterTarget::E, RegisterTarget::E)),
        0x5C => pai(Operation::LdRR(RegisterTarget::H, RegisterTarget::E)),
        0x5D => pai(Operation::LdRR(RegisterTarget::L, RegisterTarget::E)),
        0x5E => pai(Operation::LdRMemAtHl(RegisterTarget::E)),
        _ => pai(Operation::LdRR(RegisterTarget::A, RegisterTarget::E)),
    }
}

/// The seventh row of the plain table.
fn plain_seventh_row(byte: u8) -> (instruction: Instruction)
    requires
        byte / 16 == 6,
    ensures
        Some(instruction) == decode(byte),
        instruction.wf(),
{
    match byte {
        0x60 => pai(Operation::LdRR(RegisterTarget::B, RegisterTarget::H)),
        0x61 => pai(Operation::LdRR(RegisterTarget::C, RegisterTarget::H)),
        0x62 => pai(Operation::LdRR(RegisterTarget::D, RegisterTarget::H)),
        0x63 => pai(Operation::LdRR(RegisterTarget::E, RegisterTarget::H)),
        0x64 => pai(Operation::LdRR(RegisterTarget::H, RegisterTarget::H)),
        0x65 => pai(Operation::LdRR(RegisterTarget::L, RegisterTarget::H)),
        0x66 => pai(Operation::LdRMemAtHl(RegisterTarget::H)),
        0x67 => pai(Operation::LdRR(RegisterTarget::A, RegisterTarget::H)),
        0x68 => pai(Operation::LdRR(RegisterTarget::B, RegisterTarget::L)),
        0x69 => pai(Operation::LdRR(RegisterTarget::C, RegisterTarget::L)),
        0x6A => pai(Operation::LdRR(RegisterTarget::D, RegisterTarget::L)),
        0x6B => pai(Operation::LdRR(RegisterTarget::E, RegisterTarget::L)),
        0x6C => pai(Operation::LdRR(RegisterTarget::H, RegisterTarget::L)),
        0x6D => pai(Operation::LdRR(RegisterTarget::L, RegisterTarget::L)),
        0x6E => pai(Operation::LdRMemAtHl(RegisterTarget::L)),
        _ => pai(Operation::LdRR(RegisterTarget::A, RegisterTarget::L)),
    }
}

/// The eighth row of the plain table.
fn plain_eighth_row(byte: u8) -> (instruction: Instruction)
    requires
        byte / 16 == 7,
    ensures
        Some(instruction) == decode(byte),
        instruction.wf(),
{
    match byte {
        0x70 => pai(Operation::LdMemAtHlR(RegisterTarget::B)),
        0x71 => pai(Operation::LdMemAtHlR(RegisterTarget::C)),
        0x72 => pai(Operation::LdMemAtHlR(RegisterTarget::D)),
        0x73 => pai(Operation::LdMemAtHlR(RegisterTarget::E)),
        0x74 => pai(Operation::LdMemAtHlR(RegisterTarget::H)),
        0x75 => pai(Operation::LdMemAtHlR(RegisterTarget::L)),
        0x76 => pai(Operation::Halt),
        0x77 => pai(Operation::LdMemAtHlR(RegisterTarget::A)),
        0x78 => pai(Operation::LdRR(RegisterTarget::B, RegisterTarget::A)),
        0x79 => pai(Operation::LdRR(RegisterTarget::C, RegisterTarget::A)),
        0x7A => pai(Operation::LdRR(RegisterTarget::D, RegisterTarget::A)),
        0x7B => pai(Operation::LdRR(RegisterTarget::E, RegisterTarget::A)),
        0x7C => pai(Operation::LdRR(RegisterTarget::H, RegisterTarget::A)),
        0x7D => pai(Operation::LdRR(RegisterTarget::L, RegisterTarget::A)),
        0x7E => pai(Operation::LdRMemAtHl(RegisterTarget::A)),
        _ => pai(Operation::LdRR(RegisterTarget::A, RegisterTarget::A)),
    }
}

/// The ninth row of the plain table.
fn plain_ninth_row(byte: u8) -> (instruction: Instruction)
    requires
        byte / 16 == 8,
    ensures
        Some(instruction) == decode(byte),
        instruction.wf(),
{
    match byte {
        0x80 => pai(Operation::Add(RegisterTarget::B)),
        0x81 => pai(Operation::Add(RegisterTarget::C)),
        0x82 => pai(Operation::Add(RegisterTarget::D)),
        0x83 => pai(Operation::Add(RegisterTarget::E)),
        0x84 => pai(Operation::Add(RegisterTarget::H)),
        0x85 => pai(Operation::Add(RegisterTarget::L)),
        0x86 => pai(Operation::AddMemAtHl),
        0x87 => pai(Operation::Add(RegisterTarget::A)),
        0x88 => pai(Operation::Adc(RegisterTarget::B)),
        0x89 => pai(Operation::Adc(RegisterTarget::C)),
        0x8A => pai(Operation::Adc(RegisterTarget::D)),
        0x8B => pai(Operation::Adc(RegisterTarget::E)),
        0x8C => pai(Operation::Adc(RegisterTarget::H)),
        0x8D => pai(Operation::Adc(RegisterTarget::L)),
        0x8E => pai(Operation::AdcMemAtHl),
        _ => pai(Operation::Adc(RegisterTarget::A)),
    }
}

/// The tenth row of the plain table.
fn plain_tenth_row(byte: u8) -> (instruction: Instruction)
    requires
        byte / 16 == 9,
    ensures
        Some(instruction) == decode(byte),
        instruction.wf(),
{
    match byte {
        0x90 => pai(Operation::SubRRA(RegisterTarget::B)),
        0x91 => pai(Operation::SubRRA(RegisterTarget::C)),
        0x92 => pai(Operation::SubRRA(RegisterTarget::D)),
        0x93 => pai(Operation::SubRRA(RegisterTarget::E)),
        0x94 => pai(Operation::SubRRA(RegisterTarget::H)),
        0x95 => pai(Operation::SubRRA(RegisterTarget::L)),
        0x96 => pai(Operation::SubMemAtHl),
        0x97 => pai(Operation::SubRRA(RegisterTarget::A)),
        0x98 => pai(Operation::SbcRRA(RegisterTarget::B)),
        0x99 => pai(Operation::SbcRRA(RegisterTarget::C)),
        0x9A => pai(Operation::SbcRRA(RegisterTarget::D)),
        0x9B => pai(Operation::SbcRRA(RegisterTarget::E)),
        0x9C => pai(Operation::SbcRRA(RegisterTarget::H)),
        0x9D => pai(Operation::SbcRRA(RegisterTarget::L)),
        0x9E => pai(Operation::SbcMemAtHl),
        _ => pai(Operation::SbcRRA(RegisterTarget::A)),
    }
}

/// The eleventh row of the plain table.
fn plain_eleventh_row(byte: u8) -> (instruction: Instruction)
    requires
        byte / 16 == 10,
    ensures
        Some(instruction) == decode(byte),
        instruction.wf(),
{
    match byte {
        0xA0 => pai(Operation::And(RegisterTarget::B)),
        0xA1 => pai(Operation::And(RegisterTarget::C)),
        0xA2 => pai(Operation::And(RegisterTarget::D)),
        0xA3 => pai(Operation::And(RegisterTarget::E)),
        0xA4 => pai(Operation::And(RegisterTarget::H)),
        0xA5 => pai(Operation::And(RegisterTarget::L)),
        0xA6 => pai(Operation::AndMemAtR16(Register16bTarget::HL)),
        0xA7 => pai(Operation::And(RegisterTarget::A)),
        0xA8 => pai(Operation::Xor(RegisterTarget::B)),
        0xA9 => pai(Operation::Xor(RegisterTarget::C)),
        0xAA => pai(Operation::Xor(RegisterTarget::D)),
        0xAB => pai(Operation::Xor(RegisterTarget::E)),
        0xAC => pai(Operation::Xor(RegisterTarget::H)),
        0xAD => pai(Operation::Xor(RegisterTarget::L)),
        0xAE => pai(Operation::XorMemAtR16(Register16bTarget::HL)),
        _ => pai(Operation::Xor(RegisterTarget::A)),
    }
}

/// The twelfth row of the plain table.
fn plain_twelfth_row(byte: u8) -> (instruction: Instruction)
    requires
        byte / 16 == 11,
    ensures
        Some(instruction) == decode(byte),
        instruction.wf(),
{
    match byte {
        0xB0 => pai(Operation::Or(RegisterTarget::B)),
        0xB1 => pai(Operation::Or(RegisterTarget::C)),
        0xB2 => pai(Operation::Or(RegisterTarget::D)),
        0xB3 => pai(Operation::Or(RegisterTarget::E)),
        0xB4 => pai(Operation::Or(RegisterTarget::H)),
        0xB5 => pai(Operation::Or(RegisterTarget::L)),
        0xB6 => pai(Operation::OrMemAtR16(Register16bTarget::HL)),
        0xB7 => pai(Operation::Or(RegisterTarget::A)),
        0xB8 => pai(Operation::Cp(RegisterTarget::B)),
        0xB9 => pai(Operation::Cp(RegisterTarget::C)),
        0xBA => pai(Operation::Cp(RegisterTarget::D)),
        0xBB => pai(Operation::Cp(RegisterTarget::E)),
        0xBC => pai(Operation::Cp(RegisterTarget::H)),
        0xBD => pai(Operation::Cp(RegisterTarget::L)),
        0xBE => pai(Operation::CpMemAtR16(Register16bTarget::HL)),
        _ => pai(Operation::Cp(RegisterTarget::A)),
    }
}

/// The thirteenth row of the plain table.
fn plain_thirteenth_row(byte: u8) -> (instruction: Instruction)
    requires
        byte / 16 == 12,
        supported(byte),
    ensures
        Some(instruction) == decode(byte),
        instruction.wf(),
{
    match byte {
        0xC0 => transfer(Operation::RetNz),
        0xC1 => pai(Operation::Pop(Register16bTarget::BC)),
        0xC2 => transfer(Operation::JpNzA16),
        0xC3 => transfer(Operation::JmpA16),
        0xC4 => transfer(Operation::CallNzA16),
        0xC5 => pai(Operation::Push(Register16bTarget::BC)),
        0xC6 => pai(Operation::AddD8),
        0xC7 => transfer(Operation::Rst(0x00)),
        0xC8 => transfer(Operation::RetZ),
        0xC9 => transfer(Operation::Ret),
        0xCA => transfer(Operation::JpZA16),
        0xCC => transfer(Operation::CallZA16),
        0xCD => transfer(Operation::CallA16),
        0xCE => pai(Operation::AdcN8),
        _ => transfer(Operation::Rst(0x08)),
    }
}

/// The fourteenth row of the plain table.
fn plain_fourteenth_row(byte: u8) -> (instruction: Instruction)
    requires
        byte / 16 == 13,
        supported(byte),
    ensures
        Some(instruction) == decode(byte),
        instruction.wf(),
{
    match byte {
        0xD0 => transfer(Operation::RetNc),
        0xD1 => pai(Operation::Pop(Register16bTarget::DE)),
        0xD2 => transfer(Operation::JpNcA16),
        0xD4 => transfer(Operation::CallNcA16),
        0xD5 => pai(Operation::Push(Register16bTarget::DE)),
        0xD6 => pai(Operation::SubD8),
        0xD7 => transfer(Operation::Rst(0x10)),
        0xD8 => transfer(Operation::RetC),
        0xD9 => transfer(Operation::Reti),
        0xDA => transfer(Operation::JpCA16),
        0xDC => transfer(Operation::CallCA16),
        0xDE => pai(Operation::SbcN8),
        _ => transfer(Operation::Rst(0x18)),
    }
}

/// The fifteenth row of the plain table.
fn plain_fifteenth_row(byte: u8) -> (instruction: Instruction)
    requires
        byte / 16 == 14,
        supported(byte),
    ensures
        Some(instruction) == decode(byte),
        instruction.wf(),
{
    match byte {
        0xE0 => pai(Operation::LdMemAtD8A),
        0xE1 => pai(Operation::Pop(Register16bTarget::HL)),
        0xE2 => pai(Operation::LdMemAtCA),
        0xE5 => pai(Operation::Push(Register16bTarget::HL)),
        0xE6 => pai(Operation::AndD8),
        0xE7 => transfer(Operation::Rst(0x20)),
        0xE8 => pai(Operation::AddSpN8),
        0xE9 => transfer(Operation::JpHl),
        0xEA => pai(Operation::LdMemAtD16R(RegisterTarget::A)),
        0xEE => pai(Operation::XorD8),
        _ => transfer(Operation::Rst(0x28)),
    }
}

/// The last row of the plain table.
fn plain_last_row(byte: u8) -> (instruction: Instruction)
    requires
        byte / 16 == 15,
        supported(byte),
    ensures
        Some(instruction) == decode(byte),
        instruction.wf(),
{
    match byte {
        0xF0 => pai(Operation::LdAMemAtD8),
        0xF1 => pai(Operation::Pop(Register16bTarget::AF)),
        0xF2 => pai(Operation::LdAMemAtC),
        0xF3 => pai(Operation::Di),
        0xF5 => pai(Operation::Push(Register16bTarget::AF)),
        0xF6 => pai(Operation::OrD8),
        0xF7 => transfer(Operation::Rst(0x30)),
        0xF8 => pai(Operation::LdHlSpN8),
        0xF9 => pai(Operation::LdSpHl),
        0xFA => pai(Operation::LdRMemAtD16(RegisterTarget::A)),
        0xFB => pai(Operation::Ei),
        0xFE => pai(Operation::CpD8),
        _ => transfer(Operation::Rst(0x38)),
    }
}

/// The instruction of a plain opcode. The byte must be one for which the
/// table has an instruction.
pub fn from_byte(byte: u8) -> (instruction: Instruction)
    requires
        supported(byte),
    ensures
        Some(instruction) == decode(byte),
        instruction.wf(),
{
    if byte < 0x10 {
        plain_first_row(byte)
    } else if byte < 0x20 {
        plain_second_row(byte)
    } else if byte < 0x30 {
        plain_third_row(byte)
    } else if byte < 0x40 {
        plain_fourth_row(byte)
    } else if byte < 0x50 {
        plain_fifth_row(byte)
    } else if byte < 0x60 {
        plain_sixth_row(byte)
    } else if byte < 0x70 {
        plain_seventh_row(byte)
    } else if byte < 0x80 {
        plain_eighth_row(byte)
    } else if byte < 0x90 {
        plain_ninth_row(byte)
    } else if byte < 0xA0 {
        plain_tenth_row(byte)
    } else if byte < 0xB0 {
        plain_eleventh_row(byte)
    } else if byte < 0xC0 {
        plain_twelfth_row(byte)
    } else if byte < 0xD0 {
        plain_thirteenth_row(byte)
    } else if byte < 0xE0 {
        plain_fourteenth_row(byte)
    } else if byte < 0xF0 {
        plain_fifteenth_row(byte)
    } else {
        plain_last_row(byte)
    }
}

/// The first row of the prefixed table.
fn prefixed_first_row(byte: u8) -> (instruction: Instruction)
    requires
        byte / 16 == 0,
    ensures
        instruction == decode_prefixed(byte),
        instruction.wf(),
{
    match byte {
        0x00 => dpai(Operation::RlcR(RegisterTarget::B)),
        0x01 => dpai(Operation::RlcR(RegisterTarget::C)),
        0x02 => dpai(Operation::RlcR(RegisterTarget::D)),
        0x03 => dpai(Operation::RlcR(RegisterTarget::E)),
        0x04 => dpai(Operation::RlcR(RegisterTarget::H)),
        0x05 => dpai(Operation::RlcR(RegisterTarget::L)),
        0x06 => dpai(Operation::RlcMemAtHl),
        0x07 => dpai(Operation::RlcR(RegisterTarget::A)),
        0x08 => dpai(Operation::RrcR(RegisterTarget::B)),
        0x09 => dpai(Operation::RrcR(RegisterTarget::C)),
        0x0A => dpai(Operation::RrcR(RegisterTarget::D)),
        0x0B => dpai(Operation::RrcR(RegisterTarget::E)),
        0x0C => dpai(Operation::RrcR(RegisterTarget::H)),
        0x0D => dpai(Operation::RrcR(RegisterTarget::L)),
        0x0E => dpai(Operation::RrcMemAtHl),
        _ => dpai(Operation::RrcR(RegisterTarget::A)),
    }
}

/// The second row of the prefixed table.
fn prefixed_second_row(byte: u8) -> (instruction: Instruction)
    requires
        byte / 16 == 1,
    ensures
        instruction == decode_prefixed(byte),
        instruction.wf(),
{
    match byte {
        0x10 => dpai(Operation::RlR(RegisterTarget::B)),
        0x11 => dpai(Operation::RlR(RegisterTarget::C)),
        0x12 => dpai(Operation::RlR(RegisterTarget::D)),
        0x13 => dpai(Operation::RlR(RegisterTarget::E)),
        0x14 => dpai(Operation::RlR(RegisterTarget::H)),
        0x15 => dpai(Operation::RlR(RegisterTarget::L)),
        0x16 => dpai(Operation::RlMemAtHl),
        0x17 => dpai(Operation::RlR(RegisterTarget::A)),
        0x18 => dpai(Operation::RrR(RegisterTarget::B)),
        0x19 => dpai(Operation::RrR(RegisterTarget::C)),
        0x1A => dpai(Operation::RrR(RegisterTarget::D)),
        0x1B => dpai(Operation::RrR(RegisterTarget::E)),
        0x1C => dpai(Operation::RrR(RegisterTarget::H)),
        0x1D => dpai(Operation::RrR(RegisterTarget::L)),
        0x1E => dpai(Operation::RrMemAtHl),
        _ => dpai(Operation::RrR(RegisterTarget::A)),
    }
}

/// The third row of the prefixed table.
fn prefixed_third_row(byte: u8) -> (instruction: Instruction)
    requires
        byte / 16 == 2,
    ensures
        instruction == decode_prefixed(byte),
        instruction.wf(),
{
    match byte {
        0x20 => dpai(Operation::Sla(RegisterTarget::B)),
        0x21 => dpai(Operation::Sla(RegisterTarget::C)),
        0x22 => dpai(Operation::Sla(RegisterTarget::D)),
        0x23 => dpai(Operation::Sla(RegisterTarget::E)),
        0x24 => dpai(Operation::Sla(RegisterTarget::H)),
        0x25 => dpai(Operation::Sla(RegisterTarget::L)),
        0x26 => dpai(Operation::SlaMemAtHl),
        0x27 => dpai(Operation::Sla(RegisterTarget::A)),
        0x28 => dpai(Operation::Sra(RegisterTarget::B)),
        0x29 => dpai(Operation::Sra(RegisterTarget::C)),
        0x2A => dpai(Operation::Sra(RegisterTarget::D)),
        0x2B => dpai(Operation::Sra(RegisterTarget::E)),
        0x2C => dpai(Operation::Sra(RegisterTarget::H)),
        0x2D => dpai(Operation::Sra(RegisterTarget::L)),
        0x2E => dpai(Operation::SraMemAtHl),
        _ => dpai(Operation::Sra(RegisterTarget::A)),
    }
}

/// The fourth row of the prefixed table.
fn prefixed_fourth_row(byte: u8) -> (instruction: Instruction)
    requires
        byte / 16 == 3,
    ensures
        instruction == decode_prefixed(byte),
        instruction.wf(),
{
    match byte {
        0x30 => dpai(Operation::Swap(RegisterTarget::B)),
        0x31 => dpai(Operation::Swap(RegisterTarget::C)),
        0x32 => dpai(Operation::Swap(RegisterTarget::D)),
        0x33 => dpai(Operation::Swap(RegisterTarget::E)),
        0x34 => dpai(Operation::Swap(RegisterTarget::H)),
        0x35 => dpai(Operation::Swap(RegisterTarget::L)),
        0x36 => dpai(Operation::SwapMemAtHl),
        0x37 => dpai(Operation::Swap(RegisterTarget::A)),
        0x38 => dpai(Operation::Srl(RegisterTarget::B)),
        0x39 => dpai(Operation::Srl(RegisterTarget::C)),
        0x3A => dpai(Operation::Srl(RegisterTarget::D)),
        0x3B => dpai(Operation::Srl(RegisterTarget::E)),
        0x3C => dpai(Operation::Srl(RegisterTarget::H)),
        0x3D => dpai(Operation::Srl(RegisterTarget::L)),
        0x3E => dpai(Operation::SrlMemAtHl),
        _ => dpai(Operation::Srl(RegisterTarget::A)),
    }
}

/// The fifth row of the prefixed table.
fn prefixed_fifth_row(byte: u8) -> (instruction: Instruction)
    requires
        byte / 16 == 4,
    ensures
        instruction == decode_prefixed(byte),
        instruction.wf(),
{
    match byte {
        0x40 => dpai(Operation::BitR(RegisterTarget::B, 0)),
        0x41 => dpai(Operation::BitR(RegisterTarget::C, 0)),
        0x42 => dpai(Operation::BitR(RegisterTarget::D, 0)),
        0x43 => dpai(Operation::BitR(RegisterTarget::E, 0)),
        0x44 => dpai(Operation::BitR(RegisterTarget::H, 0)),
        0x45 => dpai(Operation::BitR(RegisterTarget::L, 0)),
        0x46 => dpai(Operation::BitMemAtHl(0)),
        0x47 => dpai(Operation::BitR(RegisterTarget::A, 0)),
        0x48 => dpai(Operation::BitR(RegisterTarget::B, 1)),
        0x49 => dpai(Operation::BitR(RegisterTarget::C, 1)),
        0x4A => dpai(Operation::BitR(RegisterTarget::D, 1)),
        0x4B => dpai(Operation::BitR(RegisterTarget::E, 1)),
        0x4C => dpai(Operation::BitR(RegisterTarget::H, 1)),
        0x4D => dpai(Operation::BitR(RegisterTarget::L, 1)),
        0x4E => dpai(Operation::BitMemAtHl(1)),
        _ => dpai(Operation::BitR(RegisterTarget::A, 1)),
    }
}

/// The sixth row of the prefixed table.
fn prefixed_sixth_row(byte: u8) -> (instruction: Instruction)
    requires
        byte / 16 == 5,
    ensures
        instruction == decode_prefixed(byte),
        instruction.wf(),
{
    match byte {
        0x50 => dpai(Operation::BitR(RegisterTarget::B, 2)),
        0x51 => dpai(Operation::BitR(RegisterTarget::C, 2)),
        0x52 => dpai(Operation::BitR(RegisterTarget::D, 2)),
        0x53 => dpai(Operation::BitR(RegisterTarget::E, 2)),
        0x54 => dpai(Operation::BitR(RegisterTarget::H, 2)),
        0x55 => dpai(Operation::BitR(RegisterTarget::L, 2)),
        0x56 => dpai(Operation::BitMemAtHl(2)),
        0x57 => dpai(Operation::BitR(RegisterTarget::A, 2)),
        0x58 => dpai(Operation::BitR(RegisterTarget::B, 3)),
        0x59 => dpai(Operation::BitR(RegisterTarget::C, 3)),
        0x5A => dpai(Operation::BitR(RegisterTarget::D, 3)),
        0x5B => dpai(Operation::BitR(RegisterTarget::E, 3)),
        0x5C => dpai(Operation::BitR(RegisterTarget::H, 3)),
        0x5D => dpai(Operation::BitR(RegisterTarget::L, 3)),
        0x5E => dpai(Operation::BitMemAtHl(3)),
        _ => dpai(Operation::BitR(RegisterTarget::A, 3)),
    }
}

/// The seventh row of the prefixed table.
fn prefixed_seventh_row(byte: u8) -> (instruction: Instruction)
    requires
        byte / 16 == 6,
    ensures
        instruction == decode_prefixed(byte),
        instruction.wf(),
{
    match byte {
        0x60 => dpai(Operation::BitR(RegisterTarget::B, 4)),
        0x61 => dpai(Operation::BitR(RegisterTarget::C, 4)),
        0x62 => dpai(Operation::BitR(RegisterTarget::D, 4)),
        0x63 => dpai(Operation::BitR(RegisterTarget::E, 4)),
        0x64 => dpai(Operation::BitR(RegisterTarget::H, 4)),
        0x65 => dpai(Operation::BitR(RegisterTarget::L, 4)),
        0x66 => dpai(Operation::BitMemAtHl(4)),
        0x67 => dpai(Operation::BitR(RegisterTarget::A, 4)),
        0x68 => dpai(Operation::BitR(RegisterTarget::B, 5)),
        0x69 => dpai(Operation::BitR(RegisterTarget::C, 5)),
        0x6A => dpai(Operation::BitR(RegisterTarget::D, 5)),
        0x6B => dpai(Operation::BitR(RegisterTarget::E, 5)),
        0x6C => dpai(Operation::BitR(RegisterTarget::H, 5)),
        0x6D => dpai(Operation::BitR(RegisterTarget::L, 5)),
        0x6E => dpai(Operation::BitMemAtHl(5)),
        _ => dpai(Operation::BitR(RegisterTarget::A, 5)),
    }
}

/// The eighth row of the prefixed table.
fn prefixed_eighth_row(byte: u8) -> (instruction: Instruction)
    requires
        byte / 16 == 7,
    ensures
        instruction == decode_prefixed(byte),
        instruction.wf(),
{
    match byte {
        0x70 => dpai(Operation::BitR(RegisterTarget::B, 6)),
        0x71 => dpai(Operation::BitR(RegisterTarget::C, 6)),
        0x72 => dpai(Operation::BitR(RegisterTarget::D, 6)),
        0x73 => dpai(Operation::BitR(RegisterTarget::E, 6)),
        0x74 => dpai(Operation::BitR(RegisterTarget::H, 6)),
        0x75 => dpai(Operation::BitR(RegisterTarget::L, 6)),
        0x76 => dpai(Operation::BitMemAtHl(6)),
        0x77 => dpai(Operation::BitR(RegisterTarget::A, 6)),
        0x78 => dpai(Operation::BitR(RegisterTarget::B, 7)),
        0x79 => dpai(Operation::BitR(RegisterTarget::C, 7)),
        0x7A => dpai(Operation::BitR(RegisterTarget::D, 7)),
        0x7B => dpai(Operation::BitR(RegisterTarget::E, 7)),
        0x7C => dpai(Operation::BitR(RegisterTarget::H, 7)),
        0x7D => dpai(Operation::BitR(RegisterTarget::L, 7)),
        0x7E => dpai(Operation::BitMemAtHl(7)),
        _ => dpai(Operation::BitR(RegisterTarget::A, 7)),
    }
}

/// The ninth row of the prefixed table.
fn prefixed_ninth_row(byte: u8) -> (instruction: Instruction)
    requires
        byte / 16 == 8,
    ensures
        instruction == decode_prefixed(byte),
        instruction.wf(),
{
    match byte {
        0x80 => dpai(Operation::ResR(RegisterTarget::B, 0)),
        0x81 => dpai(Operation::ResR(RegisterTarget::C, 0)),
        0x82 => dpai(Operation::ResR(RegisterTarget::D, 0)),
        0x83 => dpai(Operation::ResR(RegisterTarget::E, 0)),
        0x84 => dpai(Operation::ResR(RegisterTarget::H, 0)),
        0x85 => dpai(Operation::ResR(RegisterTarget::L, 0)),
        0x86 => dpai(Operation::ResMemAtHl(0)),
        0x87 => dpai(Operation::ResR(RegisterTarget::A, 0)),
        0x88 => dpai(Operation::ResR(RegisterTarget::B, 1)),
        0x89 => dpai(Operation::ResR(RegisterTarget::C, 1)),
        0x8A => dpai(Operation::ResR(RegisterTarget::D, 1)),
        0x8B => dpai(Operation::ResR(RegisterTarget::E, 1)),
        0x8C => dpai(Operation::ResR(RegisterTarget::H, 1)),
        0x8D => dpai(Operation::ResR(RegisterTarget::L, 1)),
        0x8E => dpai(Operation::ResMemAtHl(1)),
        _ => dpai(Operation::ResR(RegisterTarget::A, 1)),
    }
}

/// The tenth row of the prefixed table.
fn prefixed_tenth_row(byte: u8) -> (instruction: Instruction)
    requires
        byte / 16 == 9,
    ensures
        instruction == decode_prefixed(byte),
        instruction.wf(),
{
    match byte {
        0x90 => dpai(Operation::ResR(RegisterTarget::B, 2)),
        0x91 => dpai(Operation::ResR(RegisterTarget::C, 2)),
        0x92 => dpai(Operation::ResR(RegisterTarget::D, 2)),
        0x93 => dpai(Operation::ResR(RegisterTarget::E, 2)),
        0x94 => dpai(Operation::ResR(RegisterTarget::H, 2)),
        0x95 => dpai(Operation::ResR(RegisterTarget::L, 2)),
        0x96 => dpai(Operation::ResMemAtHl(2)),
        0x97 => dpai(Operation::ResR(RegisterTarget::A, 2)),
        0x98 => dpai(Operation::ResR(RegisterTarget::B, 3)),
        0x99 => dpai(Operation::ResR(RegisterTarget::C, 3)),
        0x9A => dpai(Operation::ResR(RegisterTarget::D, 3)),
        0x9B => dpai(Operation::ResR(RegisterTarget::E, 3)),
        0x9C => dpai(Operation::ResR(RegisterTarget::H, 3)),
        0x9D => dpai(Operation::ResR(RegisterTarget::L, 3)),
        0x9E => dpai(Operation::ResMemAtHl(3)),
        _ => dpai(Operation::ResR(RegisterTarget::A, 3)),
    }
}

/// The eleventh row of the prefixed table.
fn prefixed_eleventh_row(byte: u8) -> (instruction: Instruction)
    requires
        byte / 16 == 10,
    ensures
        instruction == decode_prefixed(byte),
        instruction.wf(),
{
    match byte {
        0xA0 => dpai(Operation::ResR(RegisterTarget::B, 4)),
        0xA1 => dpai(Operation::ResR(RegisterTarget::C, 4)),
        0xA2 => dpai(Operation::ResR(RegisterTarget::D, 4)),
        0xA3 => dpai(Operation::ResR(RegisterTarget::E, 4)),
        0xA4 => dpai(Operation::ResR(RegisterTarget::H, 4)),
        0xA5 => dpai(Operation::ResR(RegisterTarget::L, 4)),
        0xA6 => dpai(Operation::ResMemAtHl(4)),
        0xA7 => dpai(Operation::ResR(RegisterTarget::A, 4)),
        0xA8 => dpai(Operation::ResR(RegisterTarget::B, 5)),
        0xA9 => dpai(Operation::ResR(RegisterTarget::C, 5)),
        0xAA => dpai(Operation::ResR(RegisterTarget::D, 5)),
        0xAB => dpai(Operation::ResR(RegisterTarget::E, 5)),
        0xAC => dpai(Operation::ResR(RegisterTarget::H, 5)),
        0xAD => dpai(Operation::ResR(RegisterTarget::L, 5)),
        0xAE => dpai(Operation::ResMemAtHl(5)),
        _ => dpai(Operation::ResR(RegisterTarget::A, 5)),
    }
}

/// The twelfth row of the prefixed table.
fn prefixed_twelfth_row(byte: u8) -> (instruction: Instruction)
    requires
        byte / 16 == 11,
    ensures
        instruction == decode_prefixed(byte),
        instruction.wf(),
{
    match byte {
        0xB0 => dpai(Operation::ResR(RegisterTarget::B, 6)),
        0xB1 => dpai(Operation::ResR(RegisterTarget::C, 6)),
        0xB2 => dpai(Operation::ResR(RegisterTarget::D, 6)),
        0xB3 => dpai(Operation::ResR(RegisterTarget::E, 6)),
        0xB4 => dpai(Operation::ResR(RegisterTarget::H, 6)),
        0xB5 => dpai(Operation::ResR(RegisterTarget::L, 6)),
        0xB6 => dpai(Operation::ResMemAtHl(6)),
        0xB7 => dpai(Operation::ResR(RegisterTarget::A, 6)),
        0xB8 => dpai(Operation::ResR(RegisterTarget::B, 7)),
        0xB9 => dpai(Operation::ResR(RegisterTarget::C, 7)),
        0xBA => dpai(Operation::ResR(RegisterTarget::D, 7)),
        0xBB => dpai(Operation::ResR(RegisterTarget::E, 7)),
        0xBC => dpai(Operation::ResR(RegisterTarget::H, 7)),
        0xBD => dpai(Operation::ResR(RegisterTarget::L, 7)),
        0xBE => dpai(Operation::ResMemAtHl(7)),
        _ => dpai(Operation::ResR(RegisterTarget::A, 7)),
    }
}

/// The thirteenth row of the prefixed table.
fn prefixed_thirteenth_row(byte: u8) -> (instruction: Instruction)
    requires
        byte / 16 == 12,
    ensures
        instruction == decode_prefixed(byte),
        instruction.wf(),
{
    match byte {
        0xC0 => dpai(Operation::SetR(RegisterTarget::B, 0)),
        0xC1 => dpai(Operation::SetR(RegisterTarget::C, 0)),
        0xC2 => dpai(Operation::SetR(RegisterTarget::D, 0)),
        0xC3 => dpai(Operation::SetR(RegisterTarget::E, 0)),
        0xC4 => dpai(Operation::SetR(RegisterTarget::H, 0)),
        0xC5 => dpai(Operation::SetR(RegisterTarget::L, 0)),
        0xC6 => dpai(Operation::SetMemAtHl(0)),
        0xC7 => dpai(Operation::SetR(RegisterTarget::A, 0)),
        0xC8 => dpai(Operation::SetR(RegisterTarget::B, 1)),
        0xC9 => dpai(Operation::SetR(RegisterTarget::C, 1)),
        0xCA => dpai(Operation::SetR(RegisterTarget::D, 1)),
        0xCB => dpai(Operation::SetR(RegisterTarget::E, 1)),
        0xCC => dpai(Operation::SetR(RegisterTarget::H, 1)),
        0xCD => dpai(Operation::SetR(RegisterTarget::L, 1)),
        0xCE => dpai(Operation::SetMemAtHl(1)),
        _ => dpai(Operation::SetR(RegisterTarget::A, 1)),
    }
}

/// The fourteenth row of the prefixed table.
fn prefixed_fourteenth_row(byte: u8) -> (instruction: Instruction)
    requires
        byte / 16 == 13,
    ensures
        instruction == decode_prefixed(byte),
        instruction.wf(),
{
    match byte {
        0xD0 => dpai(Operation::SetR(RegisterTarget::B, 2)),
        0xD1 => dpai(Operation::SetR(RegisterTarget::C, 2)),
        0xD2 => dpai(Operation::SetR(RegisterTarget::D, 2)),
        0xD3 => dpai(Operation::SetR(RegisterTarget::E, 2)),
        0xD4 => dpai(Operation::SetR(RegisterTarget::H, 2)),
        0xD5 => dpai(Operation::SetR(RegisterTarget::L, 2)),
        0xD6 => dpai(Operation::SetMemAtHl(2)),
        0xD7 => dpai(Operation::SetR(RegisterTarget::A, 2)),
        0xD8 => dpai(Operation::SetR(RegisterTarget::B, 3)),
        0xD9 => dpai(Operation::SetR(RegisterTarget::C, 3)),
        0xDA => dpai(Operation::SetR(RegisterTarget::D, 3)),
        0xDB => dpai(Operation::SetR(RegisterTarget::E, 3)),
        0xDC => dpai(Operation::SetR(RegisterTarget::H, 3)),
        0xDD => dpai(Operation::SetR(RegisterTarget::L, 3)),
        0xDE => dpai(Operation::SetMemAtHl(3)),
        _ => dpai(Operation::SetR(RegisterTarget::A, 3)),
    }
}

/// The fifteenth row of the prefixed table.
fn prefixed_fifteenth_row(byte: u8) -> (instruction: Instruction)
    requires
        byte / 16 == 14,
    ensures
        instruction == decode_prefixed(byte),
        instruction.wf(),
{
    match byte {
        0xE0 => dpai(Operation::SetR(RegisterTarget::B, 4)),
        0xE1 => dpai(Operation::SetR(RegisterTarget::C, 4)),
        0xE2 => dpai(Operation::SetR(RegisterTarget::D, 4)),
        0xE3 => dpai(Operation::SetR(RegisterTarget::E, 4)),
        0xE4 => dpai(Operation::SetR(RegisterTarget::H, 4)),
        0xE5 => dpai(Operation::SetR(RegisterTarget::L, 4)),
        0xE6 => dpai(Operation::SetMemAtHl(4)),
        0xE7 => dpai(Operation::SetR(RegisterTarget::A, 4)),
        0xE8 => dpai(Operation::SetR(RegisterTarget::B, 5)),
        0xE9 => dpai(Operation::SetR(RegisterTarget::C, 5)),
        0xEA => dpai(Operation::SetR(RegisterTarget::D, 5)),
        0xEB => dpai(Operation::SetR(RegisterTarget::E, 5)),
        0xEC => dpai(Operation::SetR(RegisterTarget::H, 5)),
        0xED => dpai(Operation::SetR(RegisterTarget::L, 5)),
        0xEE => dpai(Operation::SetMemAtHl(5)),
        _ => dpai(Operation::SetR(RegisterTarget::A, 5)),
    }
}

/// The last row of the prefixed table.
fn prefixed_last_row(byte: u8) -> (instruction: Instruction)
    requires
        byte / 16 == 15,
    ensures
        instruction == decode_prefixed(byte),
        instruction.wf(),
{
    match byte {
        0xF0 => dpai(Operation::SetR(RegisterTarget::B, 6)),
        0xF1 => dpai(Operation::SetR(RegisterTarget::C, 6)),
        0xF2 => dpai(Operation::SetR(RegisterTarget::D, 6)),
        0xF3 => dpai(Operation::SetR(RegisterTarget::E, 6)),
        0xF4 => dpai(Operation::SetR(RegisterTarget::H, 6)),
        0xF5 => dpai(Operation::SetR(RegisterTarget::L, 6)),
        0xF6 => dpai(Operation::SetMemAtHl(6)),
        0xF7 => dpai(Operation::SetR(RegisterTarget::A, 6)),
        0xF8 => dpai(Operation::SetR(RegisterTarget::B, 7)),
        0xF9 => dpai(Operation::SetR(RegisterTarget::C, 7)),
        0xFA => dpai(Operation::SetR(RegisterTarget::D, 7)),
        0xFB => dpai(Operation::SetR(RegisterTarget::E, 7)),
        0xFC => dpai(Operation::SetR(RegisterTarget::H, 7)),
        0xFD => dpai(Operation::SetR(RegisterTarget::L, 7)),
        0xFE => dpai(Operation::SetMemAtHl(7)),
        _ => dpai(Operation::SetR(RegisterTarget::A, 7)),
    }
}

/// The instruction of a prefixed opcode. The prefixed table has an
/// instruction for every byte.
pub fn from_prefixed_byte(byte: u8) -> (instruction: Instruction)
    ensures
        instruction == decode_prefixed(byte),
        instruction.wf(),
{
    if byte < 0x10 {
        prefixed_first_row(byte)
    } else if byte < 0x20 {
        prefixed_second_row(byte)
    } else if byte < 0x30 {
        prefixed_third_row(byte)
    } else if byte < 0x40 {
        prefixed_fourth_row(byte)
    } else if byte < 0x50 {
        prefixed_fifth_row(byte)
    } else if byte < 0x60 {
        prefixed_sixth_row(byte)
    } else if byte < 0x70 {
        prefixed_seventh_row(byte)
    } else if byte < 0x80 {
        prefixed_eighth_row(byte)
    } else if byte < 0x90 {
        prefixed_ninth_row(byte)
    } else if byte < 0xA0 {
        prefixed_tenth_row(byte)
    } else if byte < 0xB0 {
        prefixed_eleventh_row(byte)
    } else if byte < 0xC0 {
        prefixed_twelfth_row(byte)
    } else if byte < 0xD0 {
        prefixed_thirteenth_row(byte)
    } else if byte < 0xE0 {
        prefixed_fourteenth_row(byte)
    } else if byte < 0xF0 {
        prefixed_fifteenth_row(byte)
    } else {
        prefixed_last_row(byte)
    }
}

/// Wrapping a sum whose first term was wrapped before gives the wrapped sum.
pub proof fn lemma_wrap16_twice(a: int, b: int)
    requires
        0 <= a < 0x20000,
        0 <= b < 0x10000,
    ensures
        wrap16(wrap16(a) + b) == wrap16(a + b),
{
}

/// Executing an instruction whose operation is no control transfer moves
/// the program counter on by exactly the length of the instruction,
/// wrapping from 0xFFFF to 0x0000.
pub proof fn lemma_pc_advance(instruction: Instruction, s: GameboyView)
    requires
        !instruction.operation.is_control_transfer(),
    ensures
        instruction.spec_execute(s).0.pc() == wrap16(s.pc() + instruction.length()),
{
    lemma_operation_pc(instruction.operation, s);
    lemma_wrap16_twice(s.pc() + instruction.operation.operand_bytes(), instruction.advance as int);
}

/// An operation that is no control transfer moves the program counter past
/// its operand bytes and no further.
pub proof fn lemma_operation_pc(operation: Operation, s: GameboyView)
    requires
        !operation.is_control_transfer(),
    ensures
        operation.effect(s).0.pc() == wrap16(s.pc() + operation.operand_bytes()),
{
    match operation.family() {
        Family::Processor => lemma_pc_processor(operation, s),
        Family::LoadDirect => lemma_pc_load_direct(operation, s),
        Family::LoadIndirect => lemma_pc_load_indirect(operation, s),
        Family::Addition => lemma_pc_addition(operation, s),
        Family::Subtraction => lemma_pc_subtraction(operation, s),
        Family::Logic => lemma_pc_logic(operation, s),
        Family::Step => lemma_pc_step(operation, s),
        Family::Rotation => lemma_pc_rotation(operation, s),
        Family::Shift => lemma_pc_shift(operation, s),
        Family::Bit => lemma_pc_bit(operation, s),
        Family::Jump => lemma_pc_jump(operation, s),
        Family::Call => lemma_pc_call(operation, s),
    }
}

proof fn lemma_pc_processor(operation: Operation, s: GameboyView)
    requires
        operation.family() == Family::Processor,
        !operation.is_control_transfer(),
    ensures
        operation.effect(s).0.pc() == wrap16(s.pc() + operation.operand_bytes()),
{
    reveal(Operation::effect);
}

proof fn lemma_pc_load_direct(operation: Operation, s: GameboyView)
    requires
        operation.family() == Family::LoadDirect,
        !operation.is_control_transfer(),
    ensures
        operation.effect(s).0.pc() == wrap16(s.pc() + operation.operand_bytes()),
{
    reveal(Operation::effect);
}

proof fn lemma_pc_load_indirect(operation: Operation, s: GameboyView)
    requires
        operation.family() == Family::LoadIndirect,
        !operation.is_control_transfer(),
    ensures
        operation.effect(s).0.pc() == wrap16(s.pc() + operation.operand_bytes()),
{
    reveal(Operation::effect);
}

proof fn lemma_pc_addition(operation: Operation, s: GameboyView)
    requires
        operation.family() == Family::Addition,
        !operation.is_control_transfer(),
    ensures
        operation.effect(s).0.pc() == wrap16(s.pc() + operation.operand_bytes()),
{
    reveal(Operation::effect);
}

proof fn lemma_pc_subtraction(operation: Operation, s: GameboyView)
    requires
        operation.family() == Family::Subtraction,
        !operation.is_control_transfer(),
    ensures
        operation.effect(s).0.pc() == wrap16(s.pc() + operation.operand_bytes()),
{
    reveal(Operation::effect);
}

proof fn lemma_pc_logic(operation: Operation, s: GameboyView)
    requires
        operation.family() == Family::Logic,
        !operation.is_control_transfer(),
    ensures
        operation.effect(s).0.pc() == wrap16(s.pc() + operation.operand_bytes()),
{
    reveal(Operation::effect);
}

proof fn lemma_pc_step(operation: Operation, s: GameboyView)
    requires
        operation.family() == Family::Step,
        !operation.is_control_transfer(),
    ensures
        operation.effect(s).0.pc() == wrap16(s.pc() + operation.operand_bytes()),
{
    reveal(Operation::effect);
}

proof fn lemma_pc_rotation(operation: Operation, s: GameboyView)
    requires
        operation.family() == Family::Rotation,
        !operation.is_control_transfer(),
    ensures
        operation.effect(s).0.pc() == wrap16(s.pc() + operation.operand_bytes()),
{
    reveal(Operation::effect);
}

proof fn lemma_pc_shift(operation: Operation, s: GameboyView)
    requires
        operation.family() == Family::Shift,
        !operation.is_control_transfer(),
    ensures
        operation.effect(s).0.pc() == wrap16(s.pc() + operation.operand_bytes()),
{
    reveal(Operation::effect);
}

proof fn lemma_pc_bit(operation: Operation, s: GameboyView)
    requires
        operation.family() == Family::Bit,
        !operation.is_control_transfer(),
    ensures
        operation.effect(s).0.pc() == wrap16(s.pc() + operation.operand_bytes()),
{
    reveal(Operation::effect);
}

proof fn lemma_pc_jump(operation: Operation, s: GameboyView)
    requires
        operation.family() == Family::Jump,
        !operation.is_control_transfer(),
    ensures
        operation.effect(s).0.pc() == wrap16(s.pc() + operation.operand_bytes()),
{
    reveal(Operation::effect);
}

proof fn lemma_pc_call(operation: Operation, s: GameboyView)
    requires
        operation.family() == Family::Call,
        !operation.is_control_transfer(),
    ensures
        operation.effect(s).0.pc() == wrap16(s.pc() + operation.operand_bytes()),
{
    reveal(Operation::effect);
}

/// Every instruction of the plain table is one, two or three bytes long and
/// has its bit positions in range, and it leaves the program counter to its
/// operation exactly when that is a control transfer.
pub proof fn lemma_decode(byte: u8)
    requires
        supported(byte),
    ensures
        ({
            let instruction = decode(byte).unwrap();
            let transfers = instruction.operation.is_control_transfer();
            &&& instruction.wf()
            &&& transfers <==> instruction.advance == 0
            &&& !transfers ==> instruction.advance == 1 && 1 <= instruction.length() <= 3
        }),
{
}

/// Every instruction of the prefixed table is two bytes long, prefix
/// included, has its bit positions in range and is no control transfer.
pub proof fn lemma_decode_prefixed(byte: u8)
    ensures
        decode_prefixed(byte).wf(),
        decode_prefixed(byte).length() == 2,
        !decode_prefixed(byte).operation.is_control_transfer(),
{
}

} // verus!
