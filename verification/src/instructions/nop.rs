//! The operation that does nothing.

use vstd::prelude::*;
use crate::gameboy::{Gameboy, GameboyView};

verus! {

/// `NOP`: nothing changes.
pub open spec fn spec_nop(s: GameboyView) -> (GameboyView, u8) {
    (s, 4)
}

/// Performs `NOP` and gives the ticks that it took.
pub fn nop(gameboy: &mut Gameboy) -> (ticks: u8)
    ensures
        (final(gameboy)@, ticks) == spec_nop(old(gameboy)@),
        old(gameboy).wf() ==> final(gameboy).wf(),
{
    4
}

} // verus!
