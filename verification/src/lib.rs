//! A verified model of an 8-bit handheld game console: the processor's
//! register file and instruction set, the memory bus with its
//! address-dependent side effects, the interrupt controller, the timer and
//! the scanline compositor.

pub mod bits;
pub mod cpu;
pub mod emulator;
pub mod gameboy;
pub mod instructions;
pub mod joypad;
pub mod memory;
pub mod opcode_info;
pub mod ppu;
