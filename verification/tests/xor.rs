use rust_game_boy_emulator::cpu::CPU;
use rust_game_boy_emulator::cpu::FlagsRegister;
use rust_game_boy_emulator::cpu::RegisterTarget;
use rust_game_boy_emulator::cpu::Registers;
use rust_game_boy_emulator::gameboy::Gameboy;
use rust_game_boy_emulator::instructions::xor::xor;

#[test]
fn test_xor() {
    let mut gameboy = Gameboy {
        cpu: CPU {
            registers: Registers {
                a: 0b1100_1010,
                b: 0b1010_1010,
                ..Default::default()
            },
            ..Default::default()
        },
        ..Default::default()
    };
    xor(&mut gameboy, RegisterTarget::B);
    assert_eq!(gameboy.cpu.registers.a, 0b0110_0000);
}

#[test]
fn test_xor_zero_flag() {
    let mut gameboy = Gameboy {
        cpu: CPU {
            registers: Registers {
                a: 0xFF,
                b: 0xFF,
                f: FlagsRegister::from(0),
                ..Default::default()
            },
            ..Default::default()
        },
        ..Default::default()
    };
    xor(&mut gameboy, RegisterTarget::B);
    assert_eq!(gameboy.cpu.registers.a, 0);
    assert!(gameboy.cpu.registers.f.zero);
}

#[test]
fn test_xor_half_carry_flag() {
    let mut gameboy = Gameboy::default();
    gameboy.cpu.registers.f.half_carry = true;
    xor(&mut gameboy, RegisterTarget::B);
    assert!(!gameboy.cpu.registers.f.half_carry);
}

#[test]
fn test_xor_carry_flag() {
    let mut gameboy = Gameboy::default();
    gameboy.cpu.registers.f.carry = true;
    xor(&mut gameboy, RegisterTarget::B);
    assert!(!gameboy.cpu.registers.f.carry);
}

#[test]
fn test_xor_subtract_flag() {
    let mut gameboy = Gameboy::default();
    gameboy.cpu.registers.f.subtract = true;
    xor(&mut gameboy, RegisterTarget::B);
    assert!(!gameboy.cpu.registers.f.subtract);
}
