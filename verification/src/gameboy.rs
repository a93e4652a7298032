//! The console as one owned aggregate: processor, memory bus, interrupt
//! controller and timers.

use vstd::prelude::*;
use crate::bits::{bit_is_set, flag_set_at};
use crate::cpu::{
    high_byte, join_word, low_byte, split_word, word, wrap16, wrap8, FlagsRegister,
    Register16bTarget, RegisterTarget, Registers, CPU,
};
use crate::joypad::{Joypad, JoypadButton};
use crate::instructions::{
    decode, decode_prefixed, from_byte, from_prefixed_byte, is_supported, lemma_ticks_positive,
    Instruction, PREFIX,
};
use crate::memory::special_addresses::{
    BGP, BOOT_OFF, DIV, DMA, IE, IF, LCDC, LY, LYC, NR10, NR11, NR12, NR13, NR14, NR21, NR22, NR23,
    NR24, NR30, NR31, NR32, NR33, NR41, NR42, NR43, NR50, NR51, NR52, OAM, OAM_LEN, OBP0, OBP1,
    P1, ROM_END, SB, SC, SCX, SCY, TAC, TIMA, TMA, WX, WY,
};
use crate::memory::MemoryBus;
use crate::ppu::{rendered, PPU};

verus! {

/// The five interrupt sources, from the highest priority to the lowest.
#[derive(Debug, Copy, Clone, PartialEq, Eq, Structural)]
pub enum Interrupt {
    VBlank,
    LCDStat,
    Timer,
    Serial,
    Joypad,
}

impl Interrupt {
    /// The bit of the source in the enable and pending-flags registers.
    pub open spec fn spec_mask(self) -> u8 {
        match self {
            Interrupt::VBlank => 0x01,
            Interrupt::LCDStat => 0x02,
            Interrupt::Timer => 0x04,
            Interrupt::Serial => 0x08,
            Interrupt::Joypad => 0x10,
        }
    }

    /// The address of the handler of the source.
    pub open spec fn handler(self) -> u16 {
        match self {
            Interrupt::VBlank => 0x0040,
            Interrupt::LCDStat => 0x0048,
            Interrupt::Timer => 0x0050,
            Interrupt::Serial => 0x0058,
            Interrupt::Joypad => 0x0060,
        }
    }

    /// The source of the highest priority among the bits of `value`: the one
    /// with the lowest bit.
    pub open spec fn highest_priority(value: u8) -> Interrupt {
        if value & 0x01 != 0 {
            Interrupt::VBlank
        } else if value & 0x02 != 0 {
            Interrupt::LCDStat
        } else if value & 0x04 != 0 {
            Interrupt::Timer
        } else if value & 0x08 != 0 {
            Interrupt::Serial
        } else {
            Interrupt::Joypad
        }
    }

    #[verifier::when_used_as_spec(spec_mask)]
    pub fn mask(self) -> (mask: u8)
        ensures
            mask == self.spec_mask(),
    {
        match self {
            Interrupt::VBlank => 0x01,
            Interrupt::LCDStat => 0x02,
            Interrupt::Timer => 0x04,
            Interrupt::Serial => 0x08,
            Interrupt::Joypad => 0x10,
        }
    }

    /// The source to service among the pending and enabled ones, with the
    /// address of its handler.
    pub fn interrupt_address(value: u8) -> (served: (Interrupt, u16))
        requires
            value & 0x1F != 0,
        ensures
            served.0 == Interrupt::highest_priority(value),
            served.1 == served.0.handler(),
            value & served.0.spec_mask() != 0,
    {
        proof {
            lemma_some_source(value);
        }
        if value & 0x01 != 0 {
            (Interrupt::VBlank, 0x0040)
        } else if value & 0x02 != 0 {
            (Interrupt::LCDStat, 0x0048)
        } else if value & 0x04 != 0 {
            (Interrupt::Timer, 0x0050)
        } else if value & 0x08 != 0 {
            (Interrupt::Serial, 0x0058)
        } else {
            (Interrupt::Joypad, 0x0060)
        }
    }
}

impl From<Interrupt> for u8 {
    fn from(value: Interrupt) -> (mask: u8) {
        value.mask()
    }
}

impl vstd::std_specs::convert::FromSpecImpl<Interrupt> for u8 {
    open spec fn obeys_from_spec() -> bool {
        true
    }

    open spec fn from_spec(value: Interrupt) -> u8 {
        value.spec_mask()
    }
}

/// A byte with one of its five low bits set has bit 0, 1, 2, 3 or 4 set.
pub proof fn lemma_some_source(value: u8)
    by (bit_vector)
    requires
        value & 0x1F != 0,
    ensures
        value & 0x01 != 0 || value & 0x02 != 0 || value & 0x04 != 0 || value & 0x08 != 0 || value
            & 0x10 != 0,
{
}

/// Ticks of the system clock in one second.
pub const CLOCK_SPEED: u64 = 4194304;

/// Ticks that one scanline lasts.
pub const SCANLINE_TICKS: u64 = 1824;

/// The last scanline of a frame.
pub const LAST_SCANLINE: u8 = 153;

/// The scanline with which the vertical blank begins.
pub const VBLANK_SCANLINE: u8 = 144;

/// Ticks that a halted processor consumes in one step.
pub const HALTED_TICKS: u8 = 4;

/// The frequency in Hz that the two low bits of the timer control select.
pub open spec fn timer_frequency(tac: u8) -> u64 {
    let select = tac & 0x3;
    if select == 0 {
        4096
    } else if select == 1 {
        262144
    } else if select == 2 {
        65536
    } else {
        16384
    }
}

/// Ticks between two increments of the timer counter.
pub open spec fn timer_period(tac: u8) -> u64 {
    CLOCK_SPEED / timer_frequency(tac)
}

/// The accumulators and registers of the divider and the timer.
#[derive(Debug, Copy, Clone, PartialEq, Eq, Structural)]
pub struct TimerState {
    pub divider_counter: u8,
    pub div: u8,
    pub timer_counter: u64,
    pub tima: u8,
    pub tma: u8,
    pub tac: u8,
}

/// What a step makes of the divider and the timer, and whether the timer
/// counter wrapped.
#[derive(Debug, Copy, Clone, PartialEq, Eq, Structural)]
pub struct TimerStep {
    pub now: TimerState,
    pub overflows: bool,
}

/// Whether `ticks` more ticks complete a period of the running timer.
pub open spec fn timer_fires(state: TimerState, ticks: u8) -> bool {
    bit_is_set(state.tac, 2) && state.timer_counter + ticks >= timer_period(state.tac)
}

/// The divider and the timer after `ticks` more ticks. Each wrap of the
/// 8-bit divider accumulator adds one to the divider register. While bit 2
/// of the control register is set the timer runs: its accumulator is reset
/// on reaching the period and the counter goes up by one; a counter that
/// wraps is reloaded from the modulo register.
pub open spec fn timer_step(state: TimerState, ticks: u8) -> TimerStep {
    let fires = timer_fires(state, ticks);
    let overflows = fires && state.tima == 0xFF;
    TimerStep {
        now: TimerState {
            divider_counter: wrap8(state.divider_counter + ticks),
            div: if state.divider_counter + ticks > 0xFF {
                wrap8(state.div + 1)
            } else {
                state.div
            },
            timer_counter: if !bit_is_set(state.tac, 2) {
                state.timer_counter
            } else if fires {
                0
            } else {
                (state.timer_counter + ticks) as u64
            },
            tima: if overflows {
                state.tma
            } else if fires {
                (state.tima + 1) as u8
            } else {
                state.tima
            },
            tma: state.tma,
            tac: state.tac,
        },
        overflows,
    }
}

/// The two low bits of the timer control select a period of 1024, 16, 64
/// or 256 ticks: the ticks of one second over 4096, 262144, 65536 and
/// 16384 Hz.
pub proof fn lemma_timer_periods(tac: u8)
    ensures
        tac % 4 == 0 ==> timer_period(tac) == 1024,
        tac % 4 == 1 ==> timer_period(tac) == 16,
        tac % 4 == 2 ==> timer_period(tac) == 64,
        tac % 4 == 3 ==> timer_period(tac) == 256,
{
    assert(tac & 0x3 == tac % 4) by (bit_vector);
}

/// Computes the period of the timer.
pub fn get_timer_period(tac: u8) -> (period: u64)
    ensures
        period == timer_period(tac),
        period == 1024 || period == 16 || period == 64 || period == 256,
{
    proof {
        lemma_timer_periods(tac);
    }
    let select = tac & 0x3;
    let frequency: u64 = if select == 0 {
        4096
    } else if select == 1 {
        262144
    } else if select == 2 {
        65536
    } else {
        16384
    };
    CLOCK_SPEED / frequency
}

/// Advances the divider and the timer by the ticks of one step.
pub fn advance_timers(state: TimerState, ticks: u8) -> (step: TimerStep)
    requires
        state.timer_counter < 1024,
    ensures
        step == timer_step(state, ticks),
        step.now.timer_counter < 1024,
{
    let mut now = state;
    let mut overflows = false;
    if state.divider_counter as u16 + ticks as u16 > 0xFF {
        now.div = state.div.wrapping_add(1);
    }
    now.divider_counter = state.divider_counter.wrapping_add(ticks);
    if flag_set_at(state.tac, 2) {
        let period = get_timer_period(state.tac);
        now.timer_counter = state.timer_counter + ticks as u64;
        if now.timer_counter >= period {
            now.timer_counter = 0;
            if state.tima == 0xFF {
                now.tima = state.tma;
                overflows = true;
            } else {
                now.tima = state.tima + 1;
            }
        }
    }
    TimerStep { now, overflows }
}

/// What OAM DMA from the page `page` makes of the main array: the sprite
/// attribute table holds a copy of the first bytes of the page. The
/// definition is opaque; `lemma_dma_copy` states what it holds.
#[verifier::opaque]
pub open spec fn dma_copy(memory: Seq<u8>, page: u8) -> Seq<u8> {
    Seq::new(
        memory.len(),
        |i: int|
            if OAM <= i < OAM + OAM_LEN {
                memory[page * 256 + (i - OAM)]
            } else {
                memory[i]
            },
    )
}

/// OAM DMA keeps the length of the main array, gives every byte of the
/// sprite attribute table the value of the byte at the same offset in the
/// source page, and leaves every other byte as it was.
pub proof fn lemma_dma_copy(memory: Seq<u8>, page: u8)
    requires
        memory.len() == 0x10000,
    ensures
        dma_copy(memory, page).len() == 0x10000,
        forall|i: int|
            0 <= i < OAM_LEN ==> #[trigger] dma_copy(memory, page)[OAM + i] == memory[page * 256
                + i],
        forall|i: int|
            0 <= i < 0x10000 && !(OAM <= i < OAM + OAM_LEN) ==> #[trigger] dma_copy(
                memory,
                page,
            )[i] == memory[i],
{
    reveal(dma_copy);
}

/// The state of the console as plain mathematical values.
#[verifier::ext_equal]
pub struct GameboyView {
    pub cpu: CPU,
    pub memory: Seq<u8>,
    pub boot_rom: Seq<u8>,
    pub cartridge_rom: Seq<u8>,
    pub boot_rom_enabled: bool,
    pub interrupts_enabled: bool,
    pub scanline_counter: u64,
    pub divider_counter: u8,
    pub timer_counter: u64,
    pub joypad: Joypad,
}

impl GameboyView {
    /// The state of a console that has just been made: registers and memory
    /// are zero, the boot overlay is switched on, interrupts are disabled,
    /// no button is held down, and the two images are the given ones.
    pub open spec fn fresh(boot_rom: Seq<u8>, cartridge_rom: Seq<u8>) -> GameboyView {
        GameboyView {
            cpu: CPU { registers: Registers::zeroed(), halted: false },
            memory: Seq::new(0x10000, |i: int| 0u8),
            boot_rom,
            cartridge_rom,
            boot_rom_enabled: true,
            interrupts_enabled: false,
            scanline_counter: 0,
            divider_counter: 0,
            timer_counter: 0,
            joypad: Joypad { directional_keys: 0x0F, standard_buttons: 0x0F },
        }
    }

    /// The main array covers the whole address space, and the two tick
    /// accumulators are below the thresholds at which they are reset.
    pub open spec fn wf(self) -> bool {
        &&& self.memory.len() == 0x10000
        &&& self.scanline_counter < SCANLINE_TICKS
        &&& self.timer_counter < 1024
    }

    /// The register file.
    pub open spec fn registers(self) -> Registers {
        self.cpu.registers
    }

    /// The state with the given register file.
    pub open spec fn with_registers(self, registers: Registers) -> GameboyView {
        GameboyView { cpu: CPU { registers, ..self.cpu }, ..self }
    }

    /// The state with the given main array.
    pub open spec fn with_memory(self, memory: Seq<u8>) -> GameboyView {
        GameboyView { memory, ..self }
    }

    /// The state with the given program counter.
    pub open spec fn with_pc(self, pc: u16) -> GameboyView {
        self.with_registers(Registers { pc, ..self.cpu.registers })
    }

    /// The state with the given stack pointer.
    pub open spec fn with_sp(self, sp: u16) -> GameboyView {
        self.with_registers(Registers { sp, ..self.cpu.registers })
    }

    /// The state with the given flags.
    pub open spec fn with_flags(self, flags: FlagsRegister) -> GameboyView {
        self.with_registers(Registers { f: flags, ..self.cpu.registers })
    }

    /// The state in which the accumulator and the flags hold the given
    /// values.
    pub open spec fn with_accumulator(self, value: u8, flags: FlagsRegister) -> GameboyView {
        self.with_registers(Registers { a: value, f: flags, ..self.cpu.registers })
    }

    /// The value of an 8-bit register.
    pub open spec fn get_u8(self, target: RegisterTarget) -> u8 {
        self.cpu.registers.spec_get_u8(target)
    }

    /// The state after an 8-bit register is set.
    pub open spec fn set_u8(self, target: RegisterTarget, value: u8) -> GameboyView {
        self.with_registers(self.cpu.registers.spec_set_u8(target, value))
    }

    /// The value of a register pair.
    pub open spec fn get_u16(self, target: Register16bTarget) -> u16 {
        self.cpu.registers.spec_get_u16(target)
    }

    /// The state after a register pair is set.
    pub open spec fn set_u16(self, target: Register16bTarget, value: u16) -> GameboyView {
        self.with_registers(self.cpu.registers.spec_set_u16(target, value))
    }

    /// The accumulator.
    pub open spec fn a(self) -> u8 {
        self.cpu.registers.a
    }

    /// The flags.
    pub open spec fn flags(self) -> FlagsRegister {
        self.cpu.registers.f
    }

    /// The program counter.
    pub open spec fn pc(self) -> u16 {
        self.cpu.registers.pc
    }

    /// The stack pointer.
    pub open spec fn sp(self) -> u16 {
        self.cpu.registers.sp
    }

    /// The register pair `HL`.
    pub open spec fn hl(self) -> u16 {
        self.cpu.registers.spec_get_u16(Register16bTarget::HL)
    }

    /// What a read of the joypad register yields: the nibble that bit 4 of
    /// the stored register selects.
    pub open spec fn joypad_state(self) -> u8 {
        if bit_is_set(self.memory[P1 as int], 4) {
            self.joypad.standard_buttons
        } else {
            self.joypad.directional_keys
        }
    }

    /// The byte to which an address resolves. The boot image overlays the
    /// addresses below its length while it is enabled; the cartridge image
    /// overlays the ROM window as far as it reaches; the joypad register is
    /// composed from the buttons; every other address reads the main array.
    pub open spec fn read_byte(self, address: u16) -> u8 {
        if self.boot_rom_enabled && address < self.boot_rom.len() {
            self.boot_rom[address as int]
        } else if address < ROM_END && address < self.cartridge_rom.len() {
            self.cartridge_rom[address as int]
        } else if address == P1 {
            self.joypad_state()
        } else {
            self.memory[address as int]
        }
    }

    /// The state after a write. The DMA trigger also copies a page into the
    /// sprite attribute table; the divider register always becomes zero;
    /// the ROM window discards the write; the boot switch clears the boot
    /// overlay for good; every other address stores the byte.
    pub open spec fn write_byte(self, address: u16, value: u8) -> GameboyView {
        if address == DMA {
            self.with_memory(dma_copy(self.memory, value).update(DMA as int, value))
        } else if address == DIV {
            self.with_memory(self.memory.update(DIV as int, 0))
        } else if address < ROM_END {
            self
        } else if address == BOOT_OFF {
            GameboyView {
                boot_rom_enabled: false,
                memory: self.memory.update(address as int, value),
                ..self
            }
        } else {
            self.with_memory(self.memory.update(address as int, value))
        }
    }

    /// The state after a 16-bit value is pushed: the stack pointer goes down
    /// by one before each of the two writes, high byte first.
    pub open spec fn stack_push(self, value: u16) -> GameboyView {
        let high_at = wrap16(self.sp() - 1);
        let low_at = wrap16(self.sp() - 2);
        self.with_sp(high_at).write_byte(high_at, high_byte(value)).with_sp(low_at).write_byte(
            low_at,
            low_byte(value),
        )
    }

    /// The state after a 16-bit value is popped, with the value: the low
    /// byte is read first, and the stack pointer goes up by one after each
    /// of the two reads.
    pub open spec fn stack_pop(self) -> (GameboyView, u16) {
        let low = self.read_byte(self.sp());
        let high = self.read_byte(wrap16(self.sp() + 1));
        (self.with_sp(wrap16(self.sp() + 2)), word(high, low))
    }

    /// The state after the program counter has moved on by one, with the
    /// byte that it then points at.
    pub open spec fn read_next_byte(self) -> (GameboyView, u8) {
        let moved = self.with_pc(wrap16(self.pc() + 1));
        (moved, moved.read_byte(moved.pc()))
    }

    /// The state after the program counter has moved on by two, with the
    /// 16-bit value that the two bytes form, the low byte first.
    pub open spec fn read_next_word(self) -> (GameboyView, u16) {
        let (first, low) = self.read_next_byte();
        let (second, high) = first.read_next_byte();
        (second, word(high, low))
    }

    /// The state after an interrupt is requested: its bit is set in the
    /// pending-flags register.
    pub open spec fn request_interrupt(self, interrupt: Interrupt) -> GameboyView {
        self.with_memory(
            self.memory.update(IF as int, self.memory[IF as int] | interrupt.spec_mask()),
        )
    }

    /// The sources that are both enabled and pending.
    pub open spec fn deliverable(self) -> u8 {
        self.memory[IE as int] & self.memory[IF as int] & 0x1F
    }

    /// The state after the interrupt controller has looked at the registers.
    /// A deliverable source wakes a halted processor; if the master enable
    /// is set, the source of the highest priority is also serviced: the
    /// master enable and the pending bit of the source are cleared, the
    /// program counter is pushed, and execution goes on at the handler.
    pub open spec fn handle_interrupts(self) -> GameboyView {
        let value = self.deliverable();
        if value == 0 {
            self
        } else if !self.interrupts_enabled {
            GameboyView { cpu: CPU { halted: false, ..self.cpu }, ..self }
        } else {
            let interrupt = Interrupt::highest_priority(value);
            let cleared = GameboyView {
                cpu: CPU { halted: false, ..self.cpu },
                interrupts_enabled: false,
                memory: self.memory.update(
                    IF as int,
                    self.memory[IF as int] & !interrupt.spec_mask(),
                ),
                ..self
            };
            cleared.stack_push(self.cpu.registers.pc).with_pc(interrupt.handler())
        }
    }

    /// Whether a byte waits in the serial port to be sent.
    pub open spec fn serial_requested(self) -> bool {
        self.memory[SC as int] == 0x81
    }

    /// The state after the serial port has been served: a byte that waited
    /// has left the data register.
    pub open spec fn serial_comm(self) -> GameboyView {
        if self.serial_requested() {
            self.with_memory(self.memory.update(SB as int, 0))
        } else {
            self
        }
    }

    /// The state after the divider and the timer have advanced by `ticks`:
    /// the two accumulators and the two registers take the values of the
    /// timer step, and a timer interrupt is requested if the counter
    /// wrapped.
    pub open spec fn update_timers(self, ticks: u8) -> GameboyView {
        let step = timer_step(self.timer_state(), ticks);
        let requested = if step.overflows {
            self.request_interrupt(Interrupt::Timer)
        } else {
            self
        };
        GameboyView {
            divider_counter: step.now.divider_counter,
            timer_counter: step.now.timer_counter,
            memory: requested.memory.update(DIV as int, step.now.div).update(
                TIMA as int,
                step.now.tima,
            ),
            ..self
        }
    }

    /// The accumulators and registers of the divider and the timer.
    pub open spec fn timer_state(self) -> TimerState {
        TimerState {
            divider_counter: self.divider_counter,
            div: self.memory[DIV as int],
            timer_counter: self.timer_counter,
            tima: self.memory[TIMA as int],
            tma: self.memory[TMA as int],
            tac: self.memory[TAC as int],
        }
    }

    /// Whether `ticks` more ticks complete a scanline.
    pub open spec fn scanline_ends(self, ticks: u8) -> bool {
        self.scanline_counter + ticks >= SCANLINE_TICKS
    }

    /// The scanline that follows the one in the scanline register.
    pub open spec fn next_scanline(self) -> u8 {
        if self.memory[LY as int] >= LAST_SCANLINE {
            0
        } else {
            (self.memory[LY as int] + 1) as u8
        }
    }

    /// The state after the scanline clock has advanced by `ticks`. When a
    /// scanline is complete the accumulator starts again, the scanline
    /// register moves on, and entering the vertical blank requests the
    /// VBlank interrupt.
    pub open spec fn advance_scanline(self, ticks: u8) -> GameboyView {
        if self.scanline_ends(ticks) {
            let line = self.next_scanline();
            let moved = GameboyView {
                scanline_counter: 0,
                memory: self.memory.update(LY as int, line),
                ..self
            };
            if line == VBLANK_SCANLINE {
                moved.request_interrupt(Interrupt::VBlank)
            } else {
                moved
            }
        } else {
            GameboyView { scanline_counter: (self.scanline_counter + ticks) as u64, ..self }
        }
    }

    /// The state after a button is pressed or released: a press that changes
    /// the state of the button requests the joypad interrupt.
    pub open spec fn update_joypad_state(self, button: JoypadButton, pressed: bool) -> GameboyView {
        let set = GameboyView { joypad: self.joypad.with_button(button, pressed), ..self };
        if pressed && !self.joypad.pressed(button) {
            set.request_interrupt(Interrupt::Joypad)
        } else {
            set
        }
    }

    /// The instruction at the program counter, if the byte there selects
    /// one. The prefix byte selects the instruction of the byte after it in
    /// the prefixed table.
    pub open spec fn next_instruction(self) -> Option<Instruction> {
        let opcode = self.read_byte(self.pc());
        if opcode == PREFIX {
            Some(decode_prefixed(self.read_byte(wrap16(self.pc() + 1))))
        } else {
            decode(opcode)
        }
    }

    /// The state after the instruction at the program counter has been
    /// executed, with the ticks that it took.
    pub open spec fn run_next_instruction(self) -> (GameboyView, u8)
        recommends
            self.next_instruction() is Some,
    {
        self.next_instruction().unwrap().spec_execute(self)
    }

    /// Whether the engine can make a step: the processor is halted, or the
    /// byte at the program counter selects an instruction.
    pub open spec fn can_step(self) -> bool {
        self.cpu.halted || self.next_instruction() is Some
    }

    /// The state after one step of the engine, with the ticks that it took:
    /// a halted processor fetches nothing and takes the ticks of a halted
    /// step.
    pub open spec fn engine_step(self) -> (GameboyView, u8) {
        if self.cpu.halted {
            (self, HALTED_TICKS)
        } else {
            self.run_next_instruction()
        }
    }

    /// The state after the bootstrap: the registers and the hardware
    /// registers hold the values that the boot program leaves.
    pub open spec fn initialize(self) -> GameboyView {
        GameboyView {
            cpu: CPU {
                registers: Registers {
                    a: 0x01,
                    b: 0x00,
                    c: 0x13,
                    e: 0xD8,
                    h: 0x01,
                    l: 0x4D,
                    f: FlagsRegister { zero: true, ..self.cpu.registers.f },
                    ..self.cpu.registers
                },
                ..self.cpu
            },
            memory: bootstrap_video(
                bootstrap_wave_and_noise(
                    bootstrap_tone_channels(bootstrap_serial_and_timer(self.memory)),
                ),
            ),
            ..self
        }
    }
}

/// The main array with the bootstrap values of the serial port, the timer
/// and the interrupt flags.
pub open spec fn bootstrap_serial_and_timer(memory: Seq<u8>) -> Seq<u8> {
    memory.update(SB as int, 0x00).update(SC as int, 0x7E).update(DIV as int, 0x18)
        .update(TIMA as int, 0x00).update(TMA as int, 0x00).update(TAC as int, 0xF8)
        .update(IF as int, 0xE1)
}

/// Writes the bootstrap values of the serial port, the timer and the
/// interrupt flags.
fn set_serial_and_timer(memory: &mut [u8; 0x10000])
    ensures
        final(memory)@ == bootstrap_serial_and_timer(old(memory)@),
{
    memory[SB] = 0x00;
    memory[SC] = 0x7E;
    memory[DIV] = 0x18;
    memory[TIMA] = 0x00;
    memory[TMA] = 0x00;
    memory[TAC] = 0xF8;
    memory[IF] = 0xE1;
}

/// The main array with the bootstrap values of the two tone channels.
pub open spec fn bootstrap_tone_channels(memory: Seq<u8>) -> Seq<u8> {
    memory.update(NR10 as int, 0x80).update(NR11 as int, 0xBF).update(NR12 as int, 0xF3)
        .update(NR13 as int, 0xFF).update(NR14 as int, 0xBF).update(NR21 as int, 0x3F)
        .update(NR22 as int, 0x00).update(NR23 as int, 0xFF).update(NR24 as int, 0xBF)
}

/// Writes the bootstrap values of the two tone channels.
fn set_tone_channels(memory: &mut [u8; 0x10000])
    ensures
        final(memory)@ == bootstrap_tone_channels(old(memory)@),
{
    memory[NR10] = 0x80;
    memory[NR11] = 0xBF;
    memory[NR12] = 0xF3;
    memory[NR13] = 0xFF;
    memory[NR14] = 0xBF;
    memory[NR21] = 0x3F;
    memory[NR22] = 0x00;
    memory[NR23] = 0xFF;
    memory[NR24] = 0xBF;
}

/// The main array with the bootstrap values of the wave channel, the noise
/// channel and the sound control.
pub open spec fn bootstrap_wave_and_noise(memory: Seq<u8>) -> Seq<u8> {
    memory.update(NR30 as int, 0xBF).update(NR31 as int, 0xFF).update(NR32 as int, 0x9F)
        .update(NR33 as int, 0xBF).update(NR41 as int, 0xFF).update(NR42 as int, 0x00)
        .update(NR43 as int, 0x00).update(NR50 as int, 0x77).update(NR51 as int, 0xF3)
        .update(NR52 as int, 0xF1)
}

/// Writes the bootstrap values of the wave channel, the noise channel and
/// the sound control.
fn set_wave_and_noise(memory: &mut [u8; 0x10000])
    ensures
        final(memory)@ == bootstrap_wave_and_noise(old(memory)@),
{
    memory[NR30] = 0xBF;
    memory[NR31] = 0xFF;
    memory[NR32] = 0x9F;
    memory[NR33] = 0xBF;
    memory[NR41] = 0xFF;
    memory[NR42] = 0x00;
    memory[NR43] = 0x00;
    memory[NR50] = 0x77;
    memory[NR51] = 0xF3;
    memory[NR52] = 0xF1;
}

/// The main array with the bootstrap values of the video registers.
pub open spec fn bootstrap_video(memory: Seq<u8>) -> Seq<u8> {
    memory.update(LCDC as int, 0x91).update(SCY as int, 0x00).update(SCX as int, 0x00)
        .update(LY as int, 0x85).update(LYC as int, 0x85).update(DMA as int, 0xFF)
        .update(BGP as int, 0xFC).update(OBP0 as int, 0x00).update(OBP1 as int, 0x00)
        .update(WY as int, 0x00).update(WX as int, 0x00)
}

/// Writes the bootstrap values of the video registers.
fn set_video(memory: &mut [u8; 0x10000])
    ensures
        final(memory)@ == bootstrap_video(old(memory)@),
{
    memory[LCDC] = 0x91;
    memory[SCY] = 0x00;
    memory[SCX] = 0x00;
    memory[LY] = 0x85;
    memory[LYC] = 0x85;
    memory[DMA] = 0xFF;
    memory[BGP] = 0xFC;
    memory[OBP0] = 0x00;
    memory[OBP1] = 0x00;
    memory[WY] = 0x00;
    memory[WX] = 0x00;
}

/// Among the pending and enabled sources the one that is serviced is
/// pending and enabled itself, and no source of a higher priority is.
pub proof fn lemma_highest_priority(value: u8, other: Interrupt)
    requires
        value & 0x1F != 0,
        other.spec_mask() < Interrupt::highest_priority(value).spec_mask(),
    ensures
        value & Interrupt::highest_priority(value).spec_mask() != 0,
        value & other.spec_mask() == 0,
{
    lemma_some_source(value);
}

/// Clearing the bit of one source in the pending flags clears that bit and
/// leaves the bit of every other source as it was.
pub proof fn lemma_clear_pending(flags: u8, served: Interrupt, other: Interrupt)
    requires
        other != served,
    ensures
        (flags & !served.spec_mask()) & served.spec_mask() == 0,
        (flags & !served.spec_mask()) & other.spec_mask() == flags & other.spec_mask(),
{
    lemma_clear_bit(flags, served.spec_mask(), other.spec_mask());
}

proof fn lemma_clear_bit(flags: u8, bit: u8, other: u8)
    by (bit_vector)
    requires
        bit == 1 || bit == 2 || bit == 4 || bit == 8 || bit == 16,
        other == 1 || other == 2 || other == 4 || other == 8 || other == 16,
        other != bit,
    ensures
        (flags & !bit) & bit == 0,
        (flags & !bit) & other == flags & other,
{
}

/// When the interrupt controller services a source, execution goes on at
/// the handler of the source of the highest priority, the master enable is
/// cleared, the processor is awake, and the pending flags lose the bit of
/// that source and no other, unless the push of the program counter writes
/// over them.
pub proof fn lemma_service(s: GameboyView)
    requires
        s.wf(),
        s.deliverable() != 0,
        s.interrupts_enabled,
    ensures
        s.handle_interrupts().pc() == Interrupt::highest_priority(s.deliverable()).handler(),
        !s.handle_interrupts().interrupts_enabled,
        !s.handle_interrupts().cpu.halted,
        s.handle_interrupts().sp() == wrap16(s.sp() - 2),
        wrap16(s.sp() - 1) != IF && wrap16(s.sp() - 2) != IF ==> s.handle_interrupts().memory[IF
            as int] == s.memory[IF as int] & !Interrupt::highest_priority(
            s.deliverable(),
        ).spec_mask(),
{
    let served = Interrupt::highest_priority(s.deliverable());
    let cleared = s.memory.update(IF as int, s.memory[IF as int] & !served.spec_mask());
    let first = s.with_memory(cleared).write_byte(wrap16(s.sp() - 1), high_byte(s.pc()));
    lemma_dma_copy(cleared, high_byte(s.pc()));
    lemma_dma_copy(first.memory, low_byte(s.pc()));
}

/// When a period of the running timer is complete and the counter holds
/// 0xFF, the counter takes the value of the modulo register and the bit of
/// the timer is set in the pending flags.
pub proof fn lemma_timer_overflow(s: GameboyView, ticks: u8)
    requires
        s.wf(),
        timer_fires(s.timer_state(), ticks),
        s.memory[TIMA as int] == 0xFF,
    ensures
        s.update_timers(ticks).memory[TIMA as int] == s.memory[TMA as int],
        s.update_timers(ticks).memory[IF as int] == s.memory[IF as int]
            | Interrupt::Timer.spec_mask(),
        s.update_timers(ticks).timer_counter == 0,
{
}

/// A step of the scanline clock requests the VBlank interrupt exactly when
/// it completes a scanline and the scanline that begins is the first of
/// the vertical blank; otherwise the pending flags stay as they were.
pub proof fn lemma_vblank_request(s: GameboyView, ticks: u8)
    requires
        s.wf(),
    ensures
        s.advance_scanline(ticks).memory[IF as int] == if s.scanline_ends(ticks)
            && s.next_scanline() == VBLANK_SCANLINE {
            s.memory[IF as int] | Interrupt::VBlank.spec_mask()
        } else {
            s.memory[IF as int]
        },
        s.scanline_ends(ticks) ==> s.advance_scanline(ticks).memory[LY as int]
            == s.next_scanline(),
        0 <= s.next_scanline() <= LAST_SCANLINE,
{
}

/// Whether the address is one where a write stores the byte and has no
/// side effect, and where a read gives the stored byte: above the ROM
/// window and every overlay, and none of the joypad register, the divider
/// register, the DMA trigger and the boot switch.
pub open spec fn plain_address(s: GameboyView, address: u16) -> bool {
    &&& address >= ROM_END
    &&& address >= s.boot_rom.len()
    &&& address != P1
    &&& address != DIV
    &&& address != DMA
    &&& address != BOOT_OFF
}

/// A byte written to a plain address is read back from it, every other
/// address reads as before, and nothing but the main array changes.
pub proof fn lemma_write_read(s: GameboyView, address: u16, value: u8, other: u16)
    requires
        s.wf(),
        plain_address(s, address),
    ensures
        s.write_byte(address, value).read_byte(address) == value,
        other != address ==> s.write_byte(address, value).read_byte(other) == s.read_byte(other),
        s.write_byte(address, value) == s.with_memory(s.memory.update(address as int, value)),
{
}

/// A value pushed on a stack that lies at plain addresses is the value that
/// a pop gives back, and the pop leaves the stack pointer where it was
/// before the push.
pub proof fn lemma_push_pop(s: GameboyView, value: u16)
    requires
        s.wf(),
        plain_address(s, wrap16(s.sp() - 1)),
        plain_address(s, wrap16(s.sp() - 2)),
    ensures
        s.stack_push(value).stack_pop().1 == value,
        s.stack_push(value).stack_pop().0.sp() == s.sp(),
        s.stack_push(value).stack_pop().0.pc() == s.pc(),
{
    let high_at = wrap16(s.sp() - 1);
    let low_at = wrap16(s.sp() - 2);
    let first = s.with_sp(high_at);
    lemma_write_read(first, high_at, high_byte(value), low_at);
    let second = first.write_byte(high_at, high_byte(value)).with_sp(low_at);
    lemma_write_read(second, low_at, low_byte(value), high_at);
    let pushed = s.stack_push(value);
    assert(pushed == second.write_byte(low_at, low_byte(value)));
    assert(pushed.sp() == low_at);
    assert(wrap16(low_at + 1) == high_at);
    assert(wrap16(low_at + 2) == s.sp());
    assert(pushed.read_byte(low_at) == low_byte(value));
    assert(pushed.read_byte(high_at) == high_byte(value));
}

/// What one step of the whole console leaves: the state, the framebuffer,
/// the ticks that the step took and the byte that left the serial port.
pub struct StepView {
    pub state: GameboyView,
    pub frame: Seq<u32>,
    pub ticks: u8,
    pub sent: Option<u8>,
}

/// One step of the whole console: the engine makes a step, and the
/// interrupt controller, the serial port, the timers and the compositor
/// follow in this order, the last two with the ticks of the step.
pub open spec fn spec_step(s: GameboyView, frame: Seq<u32>) -> StepView {
    let (executed, ticks) = s.engine_step();
    let handled = executed.handle_interrupts();
    let timed = handled.serial_comm().update_timers(ticks);
    let advanced = timed.advance_scanline(ticks);
    StepView {
        state: advanced,
        frame: if timed.scanline_ends(ticks) {
            rendered(frame, advanced, timed.next_scanline())
        } else {
            frame
        },
        ticks,
        sent: if handled.serial_requested() {
            Some(handled.memory[SB as int])
        } else {
            None
        },
    }
}

/// Ticks in one frame.
pub const FRAME_TICKS: u64 = 279620;

/// What a frame leaves: the state, the framebuffer, the bytes that left the
/// serial port, and whether the frame ran to its end.
pub struct FrameView {
    pub state: GameboyView,
    pub frame: Seq<u32>,
    pub serial: Seq<u8>,
    pub completed: bool,
}

/// Every step of the console takes at least two ticks.
pub proof fn lemma_step_ticks(s: GameboyView, frame: Seq<u32>)
    requires
        s.can_step(),
    ensures
        spec_step(s, frame).ticks >= 2,
{
    if !s.cpu.halted {
        lemma_ticks_positive(s.next_instruction().unwrap().operation, s);
    }
}

/// The rest of a frame of which `elapsed` ticks have passed: steps follow
/// one another until the ticks of a frame have passed, or until the byte at
/// the program counter selects no instruction.
pub open spec fn spec_run_frame(s: GameboyView, frame: Seq<u32>, elapsed: nat) -> FrameView
    decreases FRAME_TICKS + 256 - elapsed,
{
    if elapsed >= FRAME_TICKS {
        FrameView { state: s, frame, serial: Seq::empty(), completed: true }
    } else if !s.can_step() {
        FrameView { state: s, frame, serial: Seq::empty(), completed: false }
    } else {
        proof {
            lemma_step_ticks(s, frame);
        }
        let step = spec_step(s, frame);
        let rest = spec_run_frame(step.state, step.frame, (elapsed + step.ticks) as nat);
        FrameView {
            serial: match step.sent {
                Some(byte) => seq![byte] + rest.serial,
                None => rest.serial,
            },
            ..rest
        }
    }
}

/// What a step tells its caller.
#[derive(Debug, Copy, Clone, PartialEq, Eq, Structural)]
pub struct StepOutcome {
    /// The ticks that the step took.
    pub ticks: u8,
    /// The byte that left the serial port, if one did.
    pub sent: Option<u8>,
}

/// What a frame tells its caller.
pub struct FrameOutcome {
    /// Whether the frame ran to its end; if not, the byte at the program
    /// counter selects no instruction.
    pub completed: bool,
    /// The bytes that left the serial port, in their order.
    pub serial: Vec<u8>,
}

/// The whole console.
pub struct Gameboy<'a> {
    pub cpu: CPU,
    pub bus: MemoryBus<'a>,
    pub interrupts_enabled: bool,
    pub scanline_counter: u64,
    pub divider_counter: u8,
    pub timer_counter: u64,
    pub joypad: Joypad,
}

impl<'a> View for Gameboy<'a> {
    type V = GameboyView;

    open spec fn view(&self) -> GameboyView {
        GameboyView {
            cpu: self.cpu,
            memory: self.bus.memory@,
            boot_rom: self.bus.boot_rom@,
            cartridge_rom: self.bus.cartridge_rom@,
            boot_rom_enabled: self.bus.boot_rom_enabled,
            interrupts_enabled: self.interrupts_enabled,
            scanline_counter: self.scanline_counter,
            divider_counter: self.divider_counter,
            timer_counter: self.timer_counter,
            joypad: self.joypad,
        }
    }
}

impl<'a> Default for Gameboy<'a> {
    /// A console with zeroed registers and memory, no images, the boot
    /// overlay switched on, interrupts disabled and no button held down.
    fn default() -> (gameboy: Gameboy<'a>)
        ensures
            gameboy@ == GameboyView::fresh(Seq::empty(), Seq::empty()),
            gameboy.wf(),
    {
        let gameboy = Gameboy {
            cpu: CPU::default(),
            bus: MemoryBus::default(),
            interrupts_enabled: false,
            scanline_counter: 0,
            divider_counter: 0,
            timer_counter: 0,
            joypad: Joypad::new(),
        };
        assert(gameboy@.memory =~= Seq::new(0x10000, |i: int| 0u8));
        assert(gameboy@.boot_rom =~= Seq::empty());
        assert(gameboy@.cartridge_rom =~= Seq::empty());
        gameboy
    }
}

impl<'a> Gameboy<'a> {
    /// The two tick accumulators are below the thresholds at which they are
    /// reset.
    pub open spec fn wf(&self) -> bool {
        self@.wf()
    }

    /// Reads the byte to which an address resolves.
    pub fn read_byte(&self, address: u16) -> (value: u8)
        ensures
            value == self@.read_byte(address),
    {
        let index = address as usize;
        if self.bus.boot_rom_enabled && index < self.bus.boot_rom.len() {
            return self.bus.boot_rom[index];
        }
        if index < ROM_END && index < self.bus.cartridge_rom.len() {
            self.bus.cartridge_rom[index]
        } else if index == P1 {
            self.get_joypad_state()
        } else {
            self.bus.memory[index]
        }
    }

    /// Writes a byte, with the side effect that its address has.
    pub fn write_byte(&mut self, address: u16, value: u8)
        ensures
            final(self)@ == old(self)@.write_byte(address, value),
            old(self).wf() ==> final(self).wf(),
    {
        reveal(dma_copy);
        let index = address as usize;
        if index == DMA {
            let source: usize = (value as usize) * 256;
            let mut i: usize = 0;
            while i < OAM_LEN
                invariant
                    i <= OAM_LEN,
                    source == value * 256,
                    self.bus.memory@.len() == 0x10000,
                    forall|j: int|
                        OAM <= j < OAM + i ==> self.bus.memory@[j] == old(
                            self,
                        ).bus.memory@[source + (j - OAM)],
                    forall|j: int|
                        0 <= j < 0x10000 && !(OAM <= j < OAM + i) ==> self.bus.memory@[j] == old(
                            self,
                        ).bus.memory@[j],
                    self.cpu == old(self).cpu,
                    self.bus.boot_rom == old(self).bus.boot_rom,
                    self.bus.cartridge_rom == old(self).bus.cartridge_rom,
                    self.bus.boot_rom_enabled == old(self).bus.boot_rom_enabled,
                    self.interrupts_enabled == old(self).interrupts_enabled,
                    self.scanline_counter == old(self).scanline_counter,
                    self.divider_counter == old(self).divider_counter,
                    self.timer_counter == old(self).timer_counter,
                    self.joypad == old(self).joypad,
                decreases OAM_LEN - i,
            {
                let byte = self.bus.memory[source + i];
                self.bus.memory[OAM + i] = byte;
                i += 1;
            }
            self.bus.memory[index] = value;
            assert(self.bus.memory@ =~= dma_copy(old(self).bus.memory@, value).update(
                DMA as int,
                value,
            ));
        } else if index == DIV {
            self.bus.memory[DIV] = 0;
        } else if index >= ROM_END {
            if index == BOOT_OFF {
                self.bus.boot_rom_enabled = false;
            }
            self.bus.memory[index] = value;
        }
    }

    /// Pushes a 16-bit value on the stack, high byte first.
    pub fn stack_push(&mut self, pc: u16)
        ensures
            final(self)@ == old(self)@.stack_push(pc),
            old(self).wf() ==> final(self).wf(),
    {
        let (high, low) = split_word(pc);
        let high_at = self.cpu.registers.sp.wrapping_sub(1);
        let low_at = self.cpu.registers.sp.wrapping_sub(2);
        self.cpu.registers.sp = high_at;
        self.write_byte(high_at, high);
        self.cpu.registers.sp = low_at;
        self.write_byte(low_at, low);
    }

    /// Moves the program counter on by one and reads the byte that it then
    /// points at.
    pub fn read_next_byte(&mut self) -> (value: u8)
        ensures
            (final(self)@, value) == old(self)@.read_next_byte(),
            old(self).wf() ==> final(self).wf(),
    {
        let new_address = self.cpu.registers.pc.wrapping_add(1);
        self.cpu.registers.pc = new_address;
        self.read_byte(new_address)
    }

    /// Reads the two bytes after the program counter as a 16-bit value,
    /// the low byte first.
    pub fn read_next_word(&mut self) -> (value: u16)
        ensures
            (final(self)@, value) == old(self)@.read_next_word(),
            old(self).wf() ==> final(self).wf(),
    {
        let low = self.read_next_byte();
        let high = self.read_next_byte();
        join_word(high, low)
    }

    /// Pops a 16-bit value off the stack.
    pub fn stack_pop(&mut self) -> (value: u16)
        ensures
            (final(self)@, value) == old(self)@.stack_pop(),
            old(self).wf() ==> final(self).wf(),
    {
        let low = self.read_byte(self.cpu.registers.sp);
        self.cpu.registers.sp = self.cpu.registers.sp.wrapping_add(1);
        let high = self.read_byte(self.cpu.registers.sp);
        self.cpu.registers.sp = self.cpu.registers.sp.wrapping_add(1);
        join_word(high, low)
    }

    /// Sets the bit of a source in the pending flags.
    pub fn request_interrupt(&mut self, interrupt: Interrupt)
        ensures
            final(self)@ == old(self)@.request_interrupt(interrupt),
            old(self).wf() ==> final(self).wf(),
    {
        let interrupt_flags = self.bus.memory[IF];
        self.bus.memory[IF] = interrupt_flags | interrupt.mask();
    }

    /// Composes what a read of the joypad register yields.
    pub fn get_joypad_state(&self) -> (state: u8)
        ensures
            state == self@.joypad_state(),
    {
        if flag_set_at(self.bus.memory[P1], 4) {
            self.joypad.standard_buttons
        } else {
            self.joypad.directional_keys
        }
    }

    /// Presses or releases a button; a press that changes the state of the
    /// button requests the joypad interrupt.
    pub fn update_joypad_state(&mut self, button: &JoypadButton, pressed: bool)
        ensures
            final(self)@ == old(self)@.update_joypad_state(*button, pressed),
            old(self).wf() ==> final(self).wf(),
    {
        let changed = self.joypad.set_button_state(button, pressed);
        if pressed && changed {
            self.request_interrupt(Interrupt::Joypad);
        }
    }

    /// Lets the interrupt controller look at the registers once.
    pub fn handle_interrupts(&mut self)
        ensures
            final(self)@ == old(self)@.handle_interrupts(),
            old(self).wf() ==> final(self).wf(),
    {
        let interrupt_enable = self.bus.memory[IE];
        let interrupt_flags = self.bus.memory[IF];
        let interrupt_value = interrupt_enable & interrupt_flags & 0x1F;
        if interrupt_value != 0 {
            self.cpu.halted = false;
            if self.interrupts_enabled {
                self.interrupts_enabled = false;
                assert(interrupt_value & 0x1F != 0) by (bit_vector)
                    requires
                        interrupt_value == interrupt_enable & interrupt_flags & 0x1F,
                        interrupt_value != 0,
                ;
                let (interrupt, interrupt_handler) = Interrupt::interrupt_address(interrupt_value);
                self.bus.memory[IF] = interrupt_flags & !interrupt.mask();
                let pc = self.cpu.registers.pc;
                self.stack_push(pc);
                self.cpu.registers.pc = interrupt_handler;
            }
        }
    }

    /// Serves the serial port: hands out the byte that waits to be sent, if
    /// one does.
    pub fn serial_comm(&mut self) -> (sent: Option<u8>)
        ensures
            final(self)@ == old(self)@.serial_comm(),
            old(self).wf() ==> final(self).wf(),
            sent == if old(self)@.serial_requested() {
                Some(old(self)@.memory[SB as int])
            } else {
                None
            },
    {
        if self.bus.memory[SC] == 0x81 {
            let byte = self.bus.memory[SB];
            self.bus.memory[SB] = 0;
            Some(byte)
        } else {
            None
        }
    }

    /// Advances the divider and the timer by the ticks of one step.
    pub fn update_timers(&mut self, ticks: u8)
        requires
            old(self).wf(),
        ensures
            final(self)@ == old(self)@.update_timers(ticks),
            final(self).wf(),
    {
        let state = TimerState {
            divider_counter: self.divider_counter,
            div: self.bus.memory[DIV],
            timer_counter: self.timer_counter,
            tima: self.bus.memory[TIMA],
            tma: self.bus.memory[TMA],
            tac: self.bus.memory[TAC],
        };
        let step = advance_timers(state, ticks);
        self.divider_counter = step.now.divider_counter;
        self.timer_counter = step.now.timer_counter;
        if step.overflows {
            self.request_interrupt(Interrupt::Timer);
        }
        self.bus.memory[DIV] = step.now.div;
        self.bus.memory[TIMA] = step.now.tima;
    }

    /// Advances the scanline clock by the ticks of one step, and tells
    /// which scanline has begun, if one has.
    pub fn advance_scanline(&mut self, ticks: u8) -> (begun: Option<u8>)
        requires
            old(self).wf(),
        ensures
            final(self)@ == old(self)@.advance_scanline(ticks),
            final(self).wf(),
            begun == if old(self)@.scanline_ends(ticks) {
                Some(old(self)@.next_scanline())
            } else {
                None
            },
    {
        self.scanline_counter = self.scanline_counter + ticks as u64;
        if self.scanline_counter >= SCANLINE_TICKS {
            self.scanline_counter = 0;
            let current_scanline = self.bus.memory[LY];
            let line: u8 = if current_scanline >= LAST_SCANLINE {
                0
            } else {
                current_scanline + 1
            };
            self.bus.memory[LY] = line;
            if line == VBLANK_SCANLINE {
                self.request_interrupt(Interrupt::VBlank);
            }
            Some(line)
        } else {
            None
        }
    }

    /// Advances the scanline clock by the ticks of one step and renders the
    /// scanline that has begun, if one has.
    pub fn update_graphics(&mut self, ticks: u8, ppu: &mut PPU)
        requires
            old(self).wf(),
        ensures
            final(self)@ == old(self)@.advance_scanline(ticks),
            final(self).wf(),
            final(ppu)@ == if old(self)@.scanline_ends(ticks) {
                rendered(old(ppu)@, final(self)@, old(self)@.next_scanline())
            } else {
                old(ppu)@
            },
    {
        match self.advance_scanline(ticks) {
            Some(line) => ppu.update(self, line),
            None => {},
        }
    }

    /// Tells whether the engine can make a step.
    pub fn can_step(&self) -> (possible: bool)
        ensures
            possible == self@.can_step(),
    {
        if self.cpu.halted {
            return true;
        }
        let opcode = self.read_byte(self.cpu.registers.pc);
        opcode == PREFIX || is_supported(opcode)
    }

    /// Fetches and decodes the instruction at the program counter.
    pub fn get_next_instruction(&self) -> (instruction: Instruction)
        requires
            self@.next_instruction() is Some,
        ensures
            Some(instruction) == self@.next_instruction(),
            instruction.wf(),
    {
        let address = self.cpu.registers.pc;
        let instruction_byte = self.read_byte(address);
        if instruction_byte == PREFIX {
            from_prefixed_byte(self.read_byte(address.wrapping_add(1)))
        } else {
            from_byte(instruction_byte)
        }
    }

    /// Executes the instruction at the program counter and gives the ticks
    /// that it took.
    pub fn run_next_instruction(&mut self) -> (ticks: u8)
        requires
            old(self)@.next_instruction() is Some,
        ensures
            (final(self)@, ticks) == old(self)@.run_next_instruction(),
            old(self).wf() ==> final(self).wf(),
    {
        let instruction = self.get_next_instruction();
        instruction.execute(self)
    }

    /// Makes one step of the whole console.
    pub fn step(&mut self, ppu: &mut PPU) -> (outcome: StepOutcome)
        requires
            old(self).wf(),
            old(self)@.can_step(),
        ensures
            final(self).wf(),
            final(self)@ == spec_step(old(self)@, old(ppu)@).state,
            final(ppu)@ == spec_step(old(self)@, old(ppu)@).frame,
            outcome.ticks == spec_step(old(self)@, old(ppu)@).ticks,
            outcome.sent == spec_step(old(self)@, old(ppu)@).sent,
    {
        let ticks = if self.cpu.halted {
            HALTED_TICKS
        } else {
            self.run_next_instruction()
        };
        self.handle_interrupts();
        let sent = self.serial_comm();
        self.update_timers(ticks);
        self.update_graphics(ticks, ppu);
        StepOutcome { ticks, sent }
    }

    /// Runs the console for one frame. Stops early if the byte at the
    /// program counter selects no instruction.
    pub fn run_frame(&mut self, ppu: &mut PPU) -> (outcome: FrameOutcome)
        requires
            old(self).wf(),
        ensures
            final(self).wf(),
            final(self)@ == spec_run_frame(old(self)@, old(ppu)@, 0).state,
            final(ppu)@ == spec_run_frame(old(self)@, old(ppu)@, 0).frame,
            outcome.serial@ == spec_run_frame(old(self)@, old(ppu)@, 0).serial,
            outcome.completed == spec_run_frame(old(self)@, old(ppu)@, 0).completed,
            outcome.completed || !final(self)@.can_step(),
    {
        let mut serial: Vec<u8> = Vec::new();
        let mut frame_ticks: u64 = 0;
        let ghost whole = spec_run_frame(old(self)@, old(ppu)@, 0);
        while frame_ticks < FRAME_TICKS
            invariant
                self.wf(),
                frame_ticks < FRAME_TICKS + 256,
                whole == spec_run_frame(old(self)@, old(ppu)@, 0),
                whole.state == spec_run_frame(self@, ppu@, frame_ticks as nat).state,
                whole.frame == spec_run_frame(self@, ppu@, frame_ticks as nat).frame,
                whole.serial == serial@ + spec_run_frame(self@, ppu@, frame_ticks as nat).serial,
                whole.completed == spec_run_frame(self@, ppu@, frame_ticks as nat).completed,
            decreases FRAME_TICKS + 256 - frame_ticks,
        {
            if !self.can_step() {
                assert(spec_run_frame(self@, ppu@, frame_ticks as nat) == (FrameView {
                    state: self@,
                    frame: ppu@,
                    serial: Seq::empty(),
                    completed: false,
                }));
                assert(serial@ + Seq::<u8>::empty() =~= serial@);
                return FrameOutcome { completed: false, serial };
            }
            proof {
                lemma_step_ticks(self@, ppu@);
            }
            let ghost rest = spec_run_frame(self@, ppu@, frame_ticks as nat);
            let ghost before = serial@;
            let outcome = self.step(ppu);
            match outcome.sent {
                Some(byte) => serial.push(byte),
                None => {},
            }
            frame_ticks = frame_ticks + outcome.ticks as u64;
            proof {
                let next = spec_run_frame(self@, ppu@, frame_ticks as nat);
                match outcome.sent {
                    Some(byte) => {
                        assert(before + (seq![byte] + next.serial) =~= before.push(byte)
                            + next.serial);
                    },
                    None => {},
                }
            }
        }
        assert(spec_run_frame(self@, ppu@, frame_ticks as nat) == (FrameView {
            state: self@,
            frame: ppu@,
            serial: Seq::empty(),
            completed: true,
        }));
        assert(serial@ + Seq::<u8>::empty() =~= serial@);
        FrameOutcome { completed: true, serial }
    }
}

/// Sets the registers and the hardware registers to the values that the
/// boot program leaves.
pub fn initialize(gameboy: &mut Gameboy)
    ensures
        final(gameboy)@ == old(gameboy)@.initialize(),
        old(gameboy).wf() ==> final(gameboy).wf(),
{
    gameboy.cpu.registers.a = 0x01;
    gameboy.cpu.registers.b = 0x00;
    gameboy.cpu.registers.f.zero = true;
    gameboy.cpu.registers.c = 0x13;
    gameboy.cpu.registers.e = 0xD8;
    gameboy.cpu.registers.h = 0x01;
    gameboy.cpu.registers.l = 0x4D;
    set_serial_and_timer(&mut gameboy.bus.memory);
    set_tone_channels(&mut gameboy.bus.memory);
    set_wave_and_noise(&mut gameboy.bus.memory);
    set_video(&mut gameboy.bus.memory);
}

} // verus!
