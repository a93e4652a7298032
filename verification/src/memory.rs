//! The storage beneath the memory bus.

use vstd::prelude::*;

pub mod special_addresses;

verus! {

/// The main 64 KiB array with the two read-only images that overlay its low
/// addresses: the boot image while `boot_rom_enabled` is set, and the
/// cartridge image in the ROM window.
pub struct MemoryBus<'a> {
    pub memory: [u8; 0x10000],
    pub boot_rom: &'a [u8],
    pub cartridge_rom: &'a [u8],
    pub boot_rom_enabled: bool,
}

impl<'a> Default for MemoryBus<'a> {
    /// A zeroed main array, no images, and the boot overlay switched on.
    fn default() -> (bus: MemoryBus<'a>)
        ensures
            forall|i: int| 0 <= i < 0x10000 ==> bus.memory@[i] == 0,
            bus.boot_rom@.len() == 0,
            bus.cartridge_rom@.len() == 0,
            bus.boot_rom_enabled,
    {
        MemoryBus { memory: [0;0x10000], boot_rom: &[], cartridge_rom: &[], boot_rom_enabled: true }
    }
}

} // verus!
