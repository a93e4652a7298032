use rust_game_boy_emulator::cpu::CPU;
use rust_game_boy_emulator::cpu::FlagsRegister;
use rust_game_boy_emulator::cpu::Register16bTarget;
use rust_game_boy_emulator::cpu::RegisterTarget;
use rust_game_boy_emulator::cpu::Registers;
use rust_game_boy_emulator::gameboy::Gameboy;
use rust_game_boy_emulator::instructions::or::or;
use rust_game_boy_emulator::instructions::or::or_mem_at_r16;

#[test]
fn test_or() {
    let mut gameboy = Gameboy {
        cpu: CPU {
            registers: Registers {
                a: 0b1100_1010,
                b: 0b1010_1010,
                ..Default::default()
            },
            ..Default::default()
        },
        ..Default::default()
    };
    or(&mut gameboy, RegisterTarget::B);
    assert_eq!(gameboy.cpu.registers.a, 0b1110_1010);
}

#[test]
fn test_or_zero_flag() {
    let mut gameboy = Gameboy {
        cpu: CPU {
            registers: Registers {
                a: 0,
                b: 0,
                f: FlagsRegister::from(0),
                ..Default::default()
            },
            ..Default::default()
        },
        ..Default::default()
    };
    or(&mut gameboy, RegisterTarget::B);
    assert_eq!(gameboy.cpu.registers.a, 0);
    assert!(gameboy.cpu.registers.f.zero);
}

#[test]
fn test_or_half_carry_flag() {
    let mut gameboy = Gameboy::default();
    gameboy.cpu.registers.f.half_carry = true;
    or(&mut gameboy, RegisterTarget::B);
    assert!(!gameboy.cpu.registers.f.half_carry);
}

#[test]
fn test_or_carry_flag() {
    let mut gameboy = Gameboy::default();
    gameboy.cpu.registers.f.carry = true;
    or(&mut gameboy, RegisterTarget::B);
    assert!(!gameboy.cpu.registers.f.carry);
}

#[test]
fn test_or_subtract_flag() {
    let mut gameboy = Gameboy::default();
    gameboy.cpu.registers.f.subtract = true;
    or(&mut gameboy, RegisterTarget::B);
    assert!(!gameboy.cpu.registers.f.subtract);
}

#[test]
fn test_or_mem_at_r16() {
    let mut gameboy = Gameboy {
        cpu: CPU {
            registers: Registers {
                a: 0b1100_1010,
                b: 0xC0,
                c: 0x50,
                ..Default::default()
            },
            ..Default::default()
        },
        ..Default::default()
    };
    gameboy.write_byte(0xC050, 0b1010_1010);
    or_mem_at_r16(&mut gameboy, Register16bTarget::BC);
    assert_eq!(gameboy.cpu.registers.a, 0b1110_1010);
}
