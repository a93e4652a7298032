use rust_game_boy_emulator::cpu::CPU;
use rust_game_boy_emulator::cpu::FlagsRegister;
use rust_game_boy_emulator::cpu::RegisterTarget;
use rust_game_boy_emulator::cpu::Registers;
use rust_game_boy_emulator::gameboy::Gameboy;
use rust_game_boy_emulator::instructions::sub::sub_d8;
use rust_game_boy_emulator::instructions::sub::sub_r_r_a;

#[test]
fn test_sub() {
    let mut gameboy = Gameboy {
        cpu: CPU {
            registers: Registers {
                a: 4,
                c: 1,
                f: FlagsRegister::from(0),
                ..Default::default()
            },
            ..Default::default()
        },
        ..Default::default()
    };
    sub_r_r_a(&mut gameboy, RegisterTarget::C);
    assert_eq!(gameboy.cpu.registers.a, 3);
}

#[test]
fn test_sub_overflow() {
    let mut gameboy = Gameboy {
        cpu: CPU {
            registers: Registers {
                a: 4,
                c: 5,
                f: FlagsRegister::from(0),
                ..Default::default()
            },
            ..Default::default()
        },
        ..Default::default()
    };
    sub_r_r_a(&mut gameboy, RegisterTarget::C);
    assert_eq!(gameboy.cpu.registers.a, 255);
}

#[test]
fn test_sub_carry_flag() {
    let mut gameboy = Gameboy {
        cpu: CPU {
            registers: Registers {
                a: 4,
                c: 5,
                f: FlagsRegister::from(0),
                ..Default::default()
            },
            ..Default::default()
        },
        ..Default::default()
    };
    sub_r_r_a(&mut gameboy, RegisterTarget::C);
    assert!(gameboy.cpu.registers.f.carry);
}

#[test]
fn test_sub_zero_flag() {
    let mut gameboy = Gameboy {
        cpu: CPU {
            registers: Registers {
                a: 5,
                c: 5,
                f: FlagsRegister::from(0),
                ..Default::default()
            },
            ..Default::default()
        },
        ..Default::default()
    };
    sub_r_r_a(&mut gameboy, RegisterTarget::C);
    assert!(gameboy.cpu.registers.f.zero);
}

#[test]
fn test_sub_substract_flag() {
    let mut gameboy = Gameboy {
        cpu: CPU {
            registers: Registers {
                a: 0,
                c: 1,
                f: FlagsRegister {
                    subtract: true,
                    ..Default::default()
                },
                ..Default::default()
            },
            ..Default::default()
        },
        ..Default::default()
    };
    sub_r_r_a(&mut gameboy, RegisterTarget::C);
    assert!(gameboy.cpu.registers.f.subtract);
}

#[test]
fn test_sub_half_carry_flag() {
    let mut gameboy = Gameboy {
        cpu: CPU {
            registers: Registers {
                a: 0b00010000,
                c: 0b00000001,
                f: FlagsRegister::from(0),
                ..Default::default()
            },
            ..Default::default()
        },
        ..Default::default()
    };
    sub_r_r_a(&mut gameboy, RegisterTarget::C);
    assert!(gameboy.cpu.registers.f.half_carry);
}

#[test]
fn test_sub_d8() {
    let mut gameboy = Gameboy {
        cpu: CPU {
            registers: Registers {
                a: 4,
                pc: 0xC050,
                f: FlagsRegister::from(0),
                ..Default::default()
            },
            ..Default::default()
        },
        ..Default::default()
    };
    gameboy.bus.memory[0xC051] = 1;
    sub_d8(&mut gameboy);
    assert_eq!(gameboy.cpu.registers.a, 3);
}

#[test]
fn test_sub_d8_overflow() {
    let mut gameboy = Gameboy {
        cpu: CPU {
            registers: Registers {
                pc: 0xC050,
                a: 4,
                f: FlagsRegister::from(0),
                ..Default::default()
            },
            ..Default::default()
        },
        ..Default::default()
    };
    gameboy.bus.memory[0xC051] = 5;
    sub_d8(&mut gameboy);
    assert_eq!(gameboy.cpu.registers.a, 255);
}

#[test]
fn test_sub_d8_carry_flag() {
    let mut gameboy = Gameboy {
        cpu: CPU {
            registers: Registers {
                a: 4,
                pc: 0xC050,
                f: FlagsRegister::from(0),
                ..Default::default()
            },
            ..Default::default()
        },
        ..Default::default()
    };
    gameboy.bus.memory[0xC051] = 5;
    sub_d8(&mut gameboy);
    assert!(gameboy.cpu.registers.f.carry);
}

#[test]
fn test_sub_d8_zero_flag() {
    let mut gameboy = Gameboy {
        cpu: CPU {
            registers: Registers {
                pc: 0xC050,
                a: 5,
                f: FlagsRegister::from(0),
                ..Default::default()
            },
            ..Default::default()
        },
        ..Default::default()
    };
    gameboy.bus.memory[0xC051] = 5;
    sub_d8(&mut gameboy);
    assert!(gameboy.cpu.registers.f.zero);
}

#[test]
fn test_sub_d8_substract_flag() {
    let mut gameboy = Gameboy {
        cpu: CPU {
            registers: Registers {
                pc: 0xC050,
                a: 5,
                f: FlagsRegister::from(0),
                ..Default::default()
            },
            ..Default::default()
        },
        ..Default::default()
    };
    gameboy.bus.memory[0xC051] = 5;
    sub_d8(&mut gameboy);
    assert!(gameboy.cpu.registers.f.subtract);
}

#[test]
fn test_sub_d8_half_carry_flag() {
    let mut gameboy = Gameboy {
        cpu: CPU {
            registers: Registers {
                pc: 0xC050,
                a: 0b00010000,
                f: FlagsRegister::from(0),
                ..Default::default()
            },
            ..Default::default()
        },
        ..Default::default()
    };
    gameboy.bus.memory[0xC051] = 1;
    sub_d8(&mut gameboy);
    assert!(gameboy.cpu.registers.f.half_carry);
}
