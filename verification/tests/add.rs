use rust_game_boy_emulator::cpu::CPU;
use rust_game_boy_emulator::cpu::FlagsRegister;
use rust_game_boy_emulator::cpu::Register16bTarget;
use rust_game_boy_emulator::cpu::RegisterTarget;
use rust_game_boy_emulator::cpu::Registers;
use rust_game_boy_emulator::gameboy::Gameboy;
use rust_game_boy_emulator::instructions::add::add;
use rust_game_boy_emulator::instructions::add::add_d8;
use rust_game_boy_emulator::instructions::add::add_hl_r16;
use rust_game_boy_emulator::instructions::add::add_mem_at_hl;

#[test]
fn test_add_hl_r16() {
    let mut gameboy = Gameboy::default();
    gameboy.cpu.registers.set_u16(Register16bTarget::HL, 0xC050);
    gameboy.cpu.registers.set_u16(Register16bTarget::BC, 0x001);
    add_hl_r16(&mut gameboy, Register16bTarget::BC);
    assert_eq!(gameboy.cpu.registers.get_u16(Register16bTarget::HL), 0xC051);
}

#[test]
fn test_add_hl_r16_half_carry_flag() {
    // set if carry from bit 11
    let mut gameboy = Gameboy::default();
    gameboy
        .cpu
        .registers
        .set_u16(Register16bTarget::HL, 0b0000_1111_1111_1111);
    gameboy.cpu.registers.set_u16(Register16bTarget::BC, 0b1);
    add_hl_r16(&mut gameboy, Register16bTarget::BC);
    assert!(gameboy.cpu.registers.f.half_carry);

    gameboy
        .cpu
        .registers
        .set_u16(Register16bTarget::HL, 0b0000_1111_1111_1110);
    gameboy.cpu.registers.set_u16(Register16bTarget::BC, 0b1);
    add_hl_r16(&mut gameboy, Register16bTarget::BC);
    assert!(!gameboy.cpu.registers.f.half_carry);

    gameboy.cpu.registers.set_u16(Register16bTarget::HL, 0x4C00);
    add_hl_r16(&mut gameboy, Register16bTarget::HL);
    assert!(gameboy.cpu.registers.f.half_carry);
}

#[test]
fn add_test_add() {
    let mut gameboy = Gameboy {
        cpu: CPU {
            registers: Registers {
                a: 0,
                c: 1,
                f: FlagsRegister::from(0),
                ..Default::default()
            },
            ..Default::default()
        },
        ..Default::default()
    };
    add(&mut gameboy, RegisterTarget::C);
    assert_eq!(gameboy.cpu.registers.a, 1);
}

#[test]
fn test_add_overflow() {
    let mut gameboy = Gameboy {
        cpu: CPU {
            registers: Registers {
                a: 255,
                c: 1,
                f: FlagsRegister::from(0),
                ..Default::default()
            },
            ..Default::default()
        },
        ..Default::default()
    };
    add(&mut gameboy, RegisterTarget::C);
    assert_eq!(gameboy.cpu.registers.a, 0);
}

#[test]
fn test_add_carry_flag() {
    let mut gameboy = Gameboy {
        cpu: CPU {
            registers: Registers {
                a: 255,
                c: 1,
                f: FlagsRegister::from(0),
                ..Default::default()
            },
            ..Default::default()
        },
        ..Default::default()
    };
    add(&mut gameboy, RegisterTarget::C);
    assert!(gameboy.cpu.registers.f.carry);
}

#[test]
fn test_add_zero_flag() {
    let mut gameboy = Gameboy {
        cpu: CPU {
            registers: Registers {
                a: 0,
                c: 0,
                f: FlagsRegister::from(0),
                ..Default::default()
            },
            ..Default::default()
        },
        ..Default::default()
    };
    add(&mut gameboy, RegisterTarget::C);
    assert!(gameboy.cpu.registers.f.zero);
}

#[test]
fn test_add_substract_flag() {
    let mut gameboy = Gameboy {
        cpu: CPU {
            registers: Registers {
                a: 0,
                c: 1,
                f: FlagsRegister {
                    subtract: true,
                    ..Default::default()
                },
                ..Default::default()
            },
            ..Default::default()
        },
        ..Default::default()
    };
    add(&mut gameboy, RegisterTarget::C);
    assert!(!gameboy.cpu.registers.f.subtract);
}

#[test]
fn test_add_half_carry_flag() {
    let mut gameboy = Gameboy {
        cpu: CPU {
            registers: Registers {
                a: 0b00001111,
                c: 0b00000001,
                f: FlagsRegister::from(0),
                ..Default::default()
            },
            ..Default::default()
        },
        ..Default::default()
    };
    add(&mut gameboy, RegisterTarget::C);
    assert!(gameboy.cpu.registers.f.half_carry);
}

#[test]
fn test_add_mem_at_hl() {
    let mut gameboy = Gameboy {
        cpu: CPU {
            registers: Registers {
                a: 0,
                f: FlagsRegister::from(0),
                ..Default::default()
            },
            ..Default::default()
        },
        ..Default::default()
    };
    gameboy.cpu.registers.set_u16(Register16bTarget::HL, 0xC050);
    gameboy.write_byte(0xC050, 1);
    add_mem_at_hl(&mut gameboy);
    assert_eq!(gameboy.cpu.registers.a, 1);
}

#[test]
fn test_add_mem_at_hl_overflow() {
    let mut gameboy = Gameboy {
        cpu: CPU {
            registers: Registers {
                a: 255,
                f: FlagsRegister::from(0),
                ..Default::default()
            },
            ..Default::default()
        },
        ..Default::default()
    };
    gameboy.cpu.registers.set_u16(Register16bTarget::HL, 0xC050);
    gameboy.write_byte(0xC050, 1);
    add_mem_at_hl(&mut gameboy);
    assert_eq!(gameboy.cpu.registers.a, 0);
}

#[test]
fn test_add_mem_at_hl_carry_flag() {
    let mut gameboy = Gameboy {
        cpu: CPU {
            registers: Registers {
                a: 255,
                f: FlagsRegister::from(0),
                ..Default::default()
            },
            ..Default::default()
        },
        ..Default::default()
    };
    gameboy.cpu.registers.set_u16(Register16bTarget::HL, 0xC050);
    gameboy.write_byte(0xC050, 1);
    add_mem_at_hl(&mut gameboy);
    assert!(gameboy.cpu.registers.f.carry);
}

#[test]
fn test_add_mem_at_hl_zero_flag() {
    let mut gameboy = Gameboy {
        cpu: CPU {
            registers: Registers {
                a: 0,
                f: FlagsRegister::from(0),
                ..Default::default()
            },
            ..Default::default()
        },
        ..Default::default()
    };
    gameboy.cpu.registers.set_u16(Register16bTarget::HL, 0xC050);
    gameboy.write_byte(0xC050, 0);
    add_mem_at_hl(&mut gameboy);
    assert!(gameboy.cpu.registers.f.zero);
}

#[test]
fn test_add_mem_at_hl_substract_flag() {
    let mut gameboy = Gameboy {
        cpu: CPU {
            registers: Registers {
                a: 0,
                f: FlagsRegister {
                    subtract: true,
                    ..Default::default()
                },
                ..Default::default()
            },
            ..Default::default()
        },
        ..Default::default()
    };
    gameboy.cpu.registers.set_u16(Register16bTarget::HL, 0xC050);
    gameboy.write_byte(0xC050, 1);
    add_mem_at_hl(&mut gameboy);
    assert!(!gameboy.cpu.registers.f.subtract);
}

#[test]
fn test_add_mem_at_hl_half_carry_flag() {
    let mut gameboy = Gameboy {
        cpu: CPU {
            registers: Registers {
                a: 0b00001111,
                f: FlagsRegister::from(0),
                ..Default::default()
            },
            ..Default::default()
        },
        ..Default::default()
    };
    gameboy.cpu.registers.set_u16(Register16bTarget::HL, 0xC050);
    gameboy.write_byte(0xC050, 0b0000_0001);
    add_mem_at_hl(&mut gameboy);
    assert!(gameboy.cpu.registers.f.half_carry);
}

#[test]
fn test_add_d8() {
    let mut gameboy = Gameboy {
        cpu: CPU {
            registers: Registers {
                a: 4,
                pc: 0xC050,
                f: FlagsRegister::from(0),
                ..Default::default()
            },
            ..Default::default()
        },
        ..Default::default()
    };
    gameboy.bus.memory[0xC051] = 1;
    add_d8(&mut gameboy);
    assert_eq!(gameboy.cpu.registers.a, 5);
}

#[test]
fn test_add_d8_overflow() {
    let mut gameboy = Gameboy {
        cpu: CPU {
            registers: Registers {
                pc: 0xC050,
                a: 0xFF,
                f: FlagsRegister::from(0),
                ..Default::default()
            },
            ..Default::default()
        },
        ..Default::default()
    };
    gameboy.bus.memory[0xC051] = 2;
    add_d8(&mut gameboy);
    assert_eq!(gameboy.cpu.registers.a, 1);
}

#[test]
fn test_add_d8_carry_flag() {
    let mut gameboy = Gameboy {
        cpu: CPU {
            registers: Registers {
                a: 0xFF,
                pc: 0xC050,
                f: FlagsRegister::from(0),
                ..Default::default()
            },
            ..Default::default()
        },
        ..Default::default()
    };
    gameboy.bus.memory[0xC051] = 5;
    add_d8(&mut gameboy);
    assert!(gameboy.cpu.registers.f.carry);
}

#[test]
fn test_add_d8_zero_flag() {
    let mut gameboy = Gameboy {
        cpu: CPU {
            registers: Registers {
                pc: 0xC050,
                a: 0xFF,
                f: FlagsRegister::from(0),
                ..Default::default()
            },
            ..Default::default()
        },
        ..Default::default()
    };
    gameboy.bus.memory[0xC051] = 1;
    add_d8(&mut gameboy);
    assert!(gameboy.cpu.registers.f.zero);
}

#[test]
fn test_add_d8_substract_flag() {
    let mut gameboy = Gameboy {
        cpu: CPU {
            registers: Registers {
                pc: 0xC050,
                a: 5,
                f: FlagsRegister::from(0),
                ..Default::default()
            },
            ..Default::default()
        },
        ..Default::default()
    };
    gameboy.bus.memory[0xC051] = 5;
    add_d8(&mut gameboy);
    assert!(!gameboy.cpu.registers.f.subtract);
}

#[test]
fn test_add_d8_half_carry_flag() {
    let mut gameboy = Gameboy {
        cpu: CPU {
            registers: Registers {
                pc: 0xC050,
                a: 0b00001111,
                f: FlagsRegister::from(0),
                ..Default::default()
            },
            ..Default::default()
        },
        ..Default::default()
    };
    gameboy.bus.memory[0xC051] = 1;
    add_d8(&mut gameboy);
    assert!(gameboy.cpu.registers.f.half_carry);
}
