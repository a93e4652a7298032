use rust_game_boy_emulator::cpu::CPU;
use rust_game_boy_emulator::cpu::FlagsRegister;
use rust_game_boy_emulator::cpu::RegisterTarget;
use rust_game_boy_emulator::cpu::Registers;
use rust_game_boy_emulator::gameboy::Gameboy;
use rust_game_boy_emulator::instructions::adc::adc;
use rust_game_boy_emulator::instructions::adc::adc_mem_at_hl;
use rust_game_boy_emulator::instructions::adc::adc_n8;

#[test]
fn test_adc() {
    let mut gameboy = Gameboy {
        cpu: CPU {
            registers: Registers {
                a: 0,
                c: 1,
                f: FlagsRegister::from(0),
                ..Default::default()
            },
            ..Default::default()
        },
        ..Default::default()
    };
    adc(&mut gameboy, RegisterTarget::C);
    assert_eq!(gameboy.cpu.registers.a, 1);
}

#[test]
fn test_adc_with_carry() {
    let mut gameboy = Gameboy {
        cpu: CPU {
            registers: Registers {
                a: 0,
                c: 1,
                f: FlagsRegister {
                    carry: true,
                    ..Default::default()
                },
                ..Default::default()
            },
            ..Default::default()
        },
        ..Default::default()
    };
    adc(&mut gameboy, RegisterTarget::C);
    assert_eq!(gameboy.cpu.registers.a, 2);
}

#[test]
fn test_adc_overflow() {
    let mut gameboy = Gameboy {
        cpu: CPU {
            registers: Registers {
                a: 255,
                c: 1,
                f: FlagsRegister::from(0),
                ..Default::default()
            },
            ..Default::default()
        },
        ..Default::default()
    };
    adc(&mut gameboy, RegisterTarget::C);
    assert_eq!(gameboy.cpu.registers.a, 0);
}

#[test]
fn test_adc_carry_flag() {
    let mut gameboy = Gameboy {
        cpu: CPU {
            registers: Registers {
                a: 255,
                c: 1,
                f: FlagsRegister::from(0),
                ..Default::default()
            },
            ..Default::default()
        },
        ..Default::default()
    };
    adc(&mut gameboy, RegisterTarget::C);
    assert!(gameboy.cpu.registers.f.carry);
}

#[test]
fn test_adc_zero_flag() {
    let mut gameboy = Gameboy {
        cpu: CPU {
            registers: Registers {
                a: 0,
                c: 0,
                f: FlagsRegister::from(0),
                ..Default::default()
            },
            ..Default::default()
        },
        ..Default::default()
    };
    adc(&mut gameboy, RegisterTarget::C);
    assert!(gameboy.cpu.registers.f.zero);
}

#[test]
fn test_adc_substract_flag() {
    let mut gameboy = Gameboy {
        cpu: CPU {
            registers: Registers {
                a: 0,
                c: 1,
                f: FlagsRegister {
                    subtract: true,
                    ..Default::default()
                },
                ..Default::default()
            },
            ..Default::default()
        },
        ..Default::default()
    };
    adc(&mut gameboy, RegisterTarget::C);
    assert!(!gameboy.cpu.registers.f.subtract);
}

#[test]
fn test_adc_half_carry_flag() {
    let mut gameboy = Gameboy {
        cpu: CPU {
            registers: Registers {
                a: 0b00001111,
                c: 0b00000001,
                f: FlagsRegister::from(0),
                ..Default::default()
            },
            ..Default::default()
        },
        ..Default::default()
    };
    adc(&mut gameboy, RegisterTarget::C);
    assert!(gameboy.cpu.registers.f.half_carry);
}

#[test]
fn test_adc_half_carry_flag_2() {
    let mut gameboy = Gameboy {
        cpu: CPU {
            registers: Registers {
                a: 0x00,
                c: 0x0F,
                f: FlagsRegister::from(0xF0),
                ..Default::default()
            },
            ..Default::default()
        },
        ..Default::default()
    };
    adc(&mut gameboy, RegisterTarget::C);
    assert!(gameboy.cpu.registers.f.half_carry);
}

#[test]
fn test_adc_mem_at_r16() {
    let mut gameboy = Gameboy {
        cpu: CPU {
            registers: Registers {
                a: 34,
                h: 0xFF,
                l: 0xDA,
                ..Default::default()
            },
            ..Default::default()
        },
        ..Default::default()
    };
    gameboy.write_byte(0xFFDA, 13);
    adc_mem_at_hl(&mut gameboy);
    assert_eq!(gameboy.cpu.registers.a, 47);
}

#[test]
fn test_adc_mem_at_r16_carry() {
    let mut gameboy = Gameboy {
        cpu: CPU {
            registers: Registers {
                a: 34,
                h: 0xFF,
                l: 0xDA,
                ..Default::default()
            },
            ..Default::default()
        },
        ..Default::default()
    };
    gameboy.cpu.registers.f.carry = true;
    gameboy.write_byte(0xFFDA, 13);
    adc_mem_at_hl(&mut gameboy);
    assert_eq!(gameboy.cpu.registers.a, 48);
}

#[test]
fn test_adc_mem_at_hl_carry_flag() {
    let mut gameboy = Gameboy {
        cpu: CPU {
            registers: Registers {
                a: 0xFF,
                h: 0xFF,
                l: 0xDA,
                ..Default::default()
            },
            ..Default::default()
        },
        ..Default::default()
    };
    gameboy.write_byte(0xFFDA, 13);
    adc_mem_at_hl(&mut gameboy);
    assert!(gameboy.cpu.registers.f.carry);
}

#[test]
fn test_adc_mem_at_hl_zero_flag() {
    let mut gameboy = Gameboy {
        cpu: CPU {
            registers: Registers {
                a: 0xF0,
                h: 0xFF,
                l: 0xDA,
                ..Default::default()
            },
            ..Default::default()
        },
        ..Default::default()
    };
    gameboy.write_byte(0xFFDA, 0x10);
    adc_mem_at_hl(&mut gameboy);
    assert!(gameboy.cpu.registers.f.zero);
}

#[test]
fn test_adc_mem_at_hl_substract_flag() {
    let mut gameboy = Gameboy {
        cpu: CPU {
            registers: Registers {
                a: 0xF0,
                h: 0xFF,
                l: 0xDA,
                ..Default::default()
            },
            ..Default::default()
        },
        ..Default::default()
    };
    gameboy.cpu.registers.f.subtract = true;
    gameboy.write_byte(0xFFDA, 0x10);
    adc_mem_at_hl(&mut gameboy);
    assert!(!gameboy.cpu.registers.f.subtract);
}

#[test]
fn test_adc_mem_at_hl_half_carry_flag() {
    let mut gameboy = Gameboy {
        cpu: CPU {
            registers: Registers {
                a: 0x0F,
                h: 0xFF,
                l: 0xDA,
                ..Default::default()
            },
            ..Default::default()
        },
        ..Default::default()
    };
    gameboy.write_byte(0xFFDA, 1);
    adc_mem_at_hl(&mut gameboy);
    assert!(gameboy.cpu.registers.f.half_carry);
}

#[test]
fn test_adc_n8_half_carry_flag() {
    let mut gameboy = Gameboy::default();
    gameboy.cpu.registers.pc = 0xC050;
    gameboy.cpu.registers.a = 0x00;
    gameboy.write_byte(0xC051, 0x0F);
    gameboy.cpu.registers.f.carry = true;
    adc_n8(&mut gameboy);
    gameboy.cpu.registers.a = 0x10;
    assert!(gameboy.cpu.registers.f.half_carry);
}

#[test]
fn test_adc_n8_half_carry_flag_2() {
    let mut gameboy = Gameboy::default();
    gameboy.cpu.registers.pc = 0xC050;
    gameboy.cpu.registers.a = 0xFF;
    gameboy.write_byte(0xC051, 0x01);
    adc_n8(&mut gameboy);
    gameboy.cpu.registers.a = 0x00;
    assert!(gameboy.cpu.registers.f.half_carry);
}
