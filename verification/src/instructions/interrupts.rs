//! The interrupt master enable.

use vstd::prelude::*;
use crate::gameboy::{Gameboy, GameboyView};

verus! {

/// `DI`: the interrupt master enable is cleared.
pub open spec fn spec_di(s: GameboyView) -> (GameboyView, u8) {
    (GameboyView { interrupts_enabled: false, ..s }, 4)
}

/// Performs `DI` and gives the ticks that it took.
pub fn di(gameboy: &mut Gameboy) -> (ticks: u8)
    ensures
        (final(gameboy)@, ticks) == spec_di(old(gameboy)@),
        old(gameboy).wf() ==> final(gameboy).wf(),
{
    gameboy.interrupts_enabled = false;
    4
}

/// `EI`: the interrupt master enable is set.
pub open spec fn spec_ei(s: GameboyView) -> (GameboyView, u8) {
    (GameboyView { interrupts_enabled: true, ..s }, 4)
}

/// Performs `EI` and gives the ticks that it took.
pub fn ei(gameboy: &mut Gameboy) -> (ticks: u8)
    ensures
        (final(gameboy)@, ticks) == spec_ei(old(gameboy)@),
        old(gameboy).wf() ==> final(gameboy).wf(),
{
    gameboy.interrupts_enabled = true;
    4
}

} // verus!
