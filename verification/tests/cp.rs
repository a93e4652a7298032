use rust_game_boy_emulator::cpu::CPU;
use rust_game_boy_emulator::cpu::Register16bTarget;
use rust_game_boy_emulator::cpu::RegisterTarget;
use rust_game_boy_emulator::cpu::Registers;
use rust_game_boy_emulator::gameboy::Gameboy;
use rust_game_boy_emulator::instructions::cp::cp;
use rust_game_boy_emulator::instructions::cp::cp_d8;
use rust_game_boy_emulator::instructions::cp::cp_mem_at_r16;

#[test]
fn test_cp_d8() {
    let mut gameboy = Gameboy {
        cpu: CPU {
            registers: Registers {
                a: 13,
                pc: 0xC050,
                ..Default::default()
            },
            ..Default::default()
        },
        ..Default::default()
    };
    gameboy.write_byte(gameboy.cpu.registers.pc + 1, 13);
    cp_d8(&mut gameboy);
    assert!(gameboy.cpu.registers.f.zero);
}

#[test]
fn test_cp_d8_subtract_flag() {
    let mut gameboy = Gameboy::default();
    gameboy.cpu.registers.a = 0x01;
    gameboy.cpu.registers.pc = 0xC050;
    gameboy.write_byte(0xC051, 0x01);
    cp_d8(&mut gameboy);
    assert!(gameboy.cpu.registers.f.subtract);
}

#[test]
fn test_cp_d8_half_carry_flag() {
    let mut gameboy = Gameboy::default();
    gameboy.cpu.registers.a = 0x10;
    gameboy.cpu.registers.pc = 0xC050;
    gameboy.write_byte(0xC051, 0x01);
    cp_d8(&mut gameboy);
    assert!(gameboy.cpu.registers.f.half_carry);
}

#[test]
fn test_cp_d8_carry_flag() {
    let mut gameboy = Gameboy::default();
    gameboy.cpu.registers.a = 0x00;
    gameboy.cpu.registers.pc = 0xC050;
    gameboy.write_byte(0xC051, 0x01);
    cp_d8(&mut gameboy);
    assert!(gameboy.cpu.registers.f.carry);
}

#[test]
fn test_cp_d8_not_equal() {
    let mut gameboy = Gameboy::default();
    gameboy.cpu.registers.a = 13;
    gameboy.cpu.registers.pc = 0xC050;
    gameboy.write_byte(0xC051, 14);
    cp_d8(&mut gameboy);
    assert!(!gameboy.cpu.registers.f.zero);
}

#[test]
fn test_cp() {
    let mut gameboy = Gameboy {
        cpu: CPU {
            registers: Registers {
                a: 13,
                b: 13,
                ..Default::default()
            },
            ..Default::default()
        },
        ..Default::default()
    };
    cp(&mut gameboy, RegisterTarget::B);
    assert!(gameboy.cpu.registers.f.zero);
}

#[test]
fn test_cp_not_equal() {
    let mut gameboy = Gameboy {
        cpu: CPU {
            registers: Registers {
                a: 13,
                b: 14,
                ..Default::default()
            },
            ..Default::default()
        },
        ..Default::default()
    };
    cp(&mut gameboy, RegisterTarget::B);
    assert!(!gameboy.cpu.registers.f.zero);
}

#[test]
fn test_cp_mem_at_r16() {
    let mut gameboy = Gameboy {
        cpu: CPU {
            registers: Registers {
                a: 13,
                h: 0xC0,
                l: 0x00,
                ..Default::default()
            },
            ..Default::default()
        },
        ..Default::default()
    };
    gameboy.write_byte(0xC000, 13);
    cp_mem_at_r16(&mut gameboy, Register16bTarget::HL);
    assert!(gameboy.cpu.registers.f.zero);
}

#[test]
fn test_cp_mem_at_r16_not_equal() {
    let mut gameboy = Gameboy {
        cpu: CPU {
            registers: Registers {
                a: 14,
                h: 0xC0,
                l: 0x00,
                ..Default::default()
            },
            ..Default::default()
        },
        ..Default::default()
    };
    gameboy.write_byte(0xC000, 13);
    cp_mem_at_r16(&mut gameboy, Register16bTarget::HL);
    assert!(!gameboy.cpu.registers.f.zero);
}
