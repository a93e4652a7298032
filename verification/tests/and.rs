use rust_game_boy_emulator::cpu::CPU;
use rust_game_boy_emulator::cpu::FlagsRegister;
use rust_game_boy_emulator::cpu::RegisterTarget;
use rust_game_boy_emulator::cpu::Registers;
use rust_game_boy_emulator::gameboy::Gameboy;
use rust_game_boy_emulator::instructions::and::and;

#[test]
fn test_and() {
    let mut gameboy = Gameboy {
        cpu: CPU {
            registers: Registers {
                a: 0b1100_1010,
                b: 0b1010_1010,
                ..Default::default()
            },
            ..Default::default()
        },
        ..Default::default()
    };
    and(&mut gameboy, RegisterTarget::B);
    assert_eq!(gameboy.cpu.registers.a, 0b1000_1010);
}

#[test]
fn test_and_zero_flag() {
    let mut gameboy = Gameboy {
        cpu: CPU {
            registers: Registers {
                a: 31,
                b: 0b0000_0000,
                f: FlagsRegister::from(0),
                ..Default::default()
            },
            ..Default::default()
        },
        ..Default::default()
    };
    and(&mut gameboy, RegisterTarget::B);
    assert_eq!(gameboy.cpu.registers.a, 0b0000_0000);
    assert!(gameboy.cpu.registers.f.zero);
}

#[test]
fn test_and_half_carry_flag() {
    let mut gameboy = Gameboy::default();
    gameboy.cpu.registers.f.half_carry = false;
    and(&mut gameboy, RegisterTarget::B);
    assert!(gameboy.cpu.registers.f.half_carry);
}

#[test]
fn test_and_carry_flag() {
    let mut gameboy = Gameboy::default();
    gameboy.cpu.registers.f.carry = true;
    and(&mut gameboy, RegisterTarget::B);
    assert!(!gameboy.cpu.registers.f.carry);
}

#[test]
fn test_and_subtract_flag() {
    let mut gameboy = Gameboy::default();
    gameboy.cpu.registers.f.subtract = true;
    and(&mut gameboy, RegisterTarget::B);
    assert!(!gameboy.cpu.registers.f.subtract);
}
