use rust_game_boy_emulator::cpu::CPU;
use rust_game_boy_emulator::cpu::FlagsRegister;
use rust_game_boy_emulator::cpu::RegisterTarget;
use rust_game_boy_emulator::cpu::Registers;
use rust_game_boy_emulator::gameboy::Gameboy;
use rust_game_boy_emulator::instructions::inc::inc_r;

#[test]
fn test_inc_r() {
    let mut gameboy = Gameboy::default();
    inc_r(&mut gameboy, RegisterTarget::B);
    assert_eq!(gameboy.cpu.registers.b, 1);
}

#[test]
fn test_inc_r_overflow() {
    let mut gameboy = Gameboy {
        cpu: CPU {
            registers: Registers {
                b: 0xFF,
                ..Default::default()
            },
            ..Default::default()
        },
        ..Default::default()
    };
    inc_r(&mut gameboy, RegisterTarget::B);
    assert_eq!(gameboy.cpu.registers.b, 0);
}

#[test]
fn test_inc_r_subtract_flag() {
    let mut gameboy = Gameboy {
        cpu: CPU {
            registers: Registers {
                f: FlagsRegister {
                    subtract: true,
                    ..Default::default()
                },
                ..Default::default()
            },
            ..Default::default()
        },
        ..Default::default()
    };
    inc_r(&mut gameboy, RegisterTarget::B);
    assert!(!gameboy.cpu.registers.f.subtract);
}

#[test]
fn test_inc_r_half_carry_flag() {
    let mut gameboy = Gameboy {
        cpu: CPU {
            registers: Registers {
                b: 0x0F,
                f: FlagsRegister::from(0),
                ..Default::default()
            },
            ..Default::default()
        },
        ..Default::default()
    };
    inc_r(&mut gameboy, RegisterTarget::B);
    assert!(gameboy.cpu.registers.f.half_carry);
}

#[test]
fn test_inc_r_carry_flag() {
    // does not change carry
    let mut gameboy = Gameboy {
        cpu: CPU {
            registers: Registers {
                b: 0xFF,
                f: FlagsRegister::from(0),
                ..Default::default()
            },
            ..Default::default()
        },
        ..Default::default()
    };
    inc_r(&mut gameboy, RegisterTarget::B);
    assert!(!gameboy.cpu.registers.f.carry);
}
