//! Switching the console on.

use vstd::prelude::*;
use crate::gameboy::{initialize, Gameboy, GameboyView};

verus! {

/// Makes a console with the two images in place and the bootstrap values in
/// its registers, ready for its first frame.
pub fn power_on<'a>(boot_rom: &'a [u8], cartridge: &'a [u8]) -> (gameboy: Gameboy<'a>)
    ensures
        gameboy@ == GameboyView::fresh(boot_rom@, cartridge@).initialize(),
        gameboy.wf(),
{
    let mut gameboy = Gameboy::default();
    gameboy.bus.boot_rom = boot_rom;
    gameboy.bus.cartridge_rom = cartridge;
    initialize(&mut gameboy);
    gameboy
}

} // verus!
