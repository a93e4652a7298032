use rust_game_boy_emulator::cpu::CPU;
use rust_game_boy_emulator::cpu::Register16bTarget;
use rust_game_boy_emulator::cpu::RegisterTarget;
use rust_game_boy_emulator::cpu::Registers;
use rust_game_boy_emulator::gameboy::Gameboy;
use rust_game_boy_emulator::instructions::ld::ld_a_mem_at_d8;
use rust_game_boy_emulator::instructions::ld::ld_a_mem_at_hl_dec;
use rust_game_boy_emulator::instructions::ld::ld_a_mem_at_hl_inc;
use rust_game_boy_emulator::instructions::ld::ld_d8_mem_at_r16;
use rust_game_boy_emulator::instructions::ld::ld_d8_r;
use rust_game_boy_emulator::instructions::ld::ld_hl_sp_n8;
use rust_game_boy_emulator::instructions::ld::ld_mem_at_c_a;
use rust_game_boy_emulator::instructions::ld::ld_mem_at_d16_r;
use rust_game_boy_emulator::instructions::ld::ld_mem_at_d16_sp;
use rust_game_boy_emulator::instructions::ld::ld_mem_at_d8_a;
use rust_game_boy_emulator::instructions::ld::ld_mem_at_hl_a_dec;
use rust_game_boy_emulator::instructions::ld::ld_mem_at_hl_a_inc;
use rust_game_boy_emulator::instructions::ld::ld_mem_at_hl_r;
use rust_game_boy_emulator::instructions::ld::ld_mem_at_r16_r;
use rust_game_boy_emulator::instructions::ld::ld_r16_n16;
use rust_game_boy_emulator::instructions::ld::ld_r_mem_at_d16;
use rust_game_boy_emulator::instructions::ld::ld_r_mem_at_hl;
use rust_game_boy_emulator::instructions::ld::ld_r_r;
use rust_game_boy_emulator::instructions::ld::ld_sp_hl;

#[test]
fn test_ld_hl_sp_n8() {
    let mut gameboy = Gameboy::default();
    gameboy.cpu.registers.pc = 0xC050;
    gameboy.cpu.registers.sp = 0xFFC0;
    gameboy.write_byte(0xC051, 0x03);

    ld_hl_sp_n8(&mut gameboy);

    assert_eq!(gameboy.cpu.registers.get_u16(Register16bTarget::HL), 0xFFC3);
}

#[test]
fn test_ld_hl_sp_n8_negative() {
    let mut gameboy = Gameboy::default();
    gameboy.cpu.registers.pc = 0xC050;
    gameboy.cpu.registers.sp = 0xFFC0;
    gameboy.write_byte(0xC051, 0b1111_1101_u8);

    ld_hl_sp_n8(&mut gameboy);

    assert_eq!(gameboy.cpu.registers.get_u16(Register16bTarget::HL), 0xFFBD);
}

#[test]
fn test_ld_hl_sp_n8_half_carry_flag() {
    let mut gameboy = Gameboy::default();

    // gameboy.cpu.registers.pc = 0xC050;
    // gameboy.cpu.registers.sp = 0x0FFE;
    // gameboy.write_byte(0xC051, 0x01);
    // ld_hl_sp_n8(&mut gameboy);
    // assert!(!gameboy.cpu.registers.f.half_carry);

    // gameboy.cpu.registers.pc = 0xC050;
    // gameboy.cpu.registers.sp = 0x0FFF;
    // gameboy.write_byte(0xC051, 0x01);
    // ld_hl_sp_n8(&mut gameboy);
    // assert!(gameboy.cpu.registers.f.half_carry);

    // gameboy.cpu.registers.pc = 0xC050;
    // gameboy.cpu.registers.sp = 0xDFFD;
    // gameboy.write_byte(0xC051, 0xFE);
    // ld_hl_sp_n8(&mut gameboy);
    // assert!(!gameboy.cpu.registers.f.half_carry);

    // gameboy.cpu.registers.pc = 0xC050;
    // gameboy.cpu.registers.sp = 0x000F;
    // gameboy.write_byte(0xC051, 0x01);
    // ld_hl_sp_n8(&mut gameboy);
    // assert!(gameboy.cpu.registers.f.half_carry);

    gameboy.cpu.registers.pc = 0xC050;
    gameboy.cpu.registers.sp = 0x0000;
    gameboy.write_byte(0xC051, 0xFF);
    ld_hl_sp_n8(&mut gameboy);
    assert!(!gameboy.cpu.registers.f.half_carry);
}

#[test]
fn test_ld_r16_n16() {
    let mut gameboy = Gameboy::default();
    gameboy.cpu.registers.pc = 0xC050;
    gameboy.bus.memory[0xC051] = 0x01;
    gameboy.bus.memory[0xC052] = 0x02;
    ld_r16_n16(&mut gameboy, Register16bTarget::BC);
    assert_eq!(gameboy.cpu.registers.get_u16(Register16bTarget::BC), 0x0201);
    assert_eq!(gameboy.cpu.registers.pc, 0xC052);
}

#[test]
fn test_ld_r_r() {
    let mut gameboy = Gameboy {
        cpu: CPU {
            registers: Registers {
                a: 0,
                b: 1,
                ..Default::default()
            },
            ..Default::default()
        },
        ..Default::default()
    };
    ld_r_r(&mut gameboy, RegisterTarget::B, RegisterTarget::A);
    assert_eq!(gameboy.cpu.registers.get_u8(RegisterTarget::A), 0x01);
}

#[test]
fn test_ld_a_mem_at_hl_inc() {
    let mut gameboy = Gameboy::default();
    gameboy.cpu.registers.set_u16(Register16bTarget::HL, 0xC050);
    gameboy.bus.memory[0xC050] = 0x01;
    ld_a_mem_at_hl_inc(&mut gameboy);
    assert_eq!(gameboy.cpu.registers.get_u8(RegisterTarget::A), 0x01);
    assert_eq!(gameboy.cpu.registers.get_u16(Register16bTarget::HL), 0xC051);
}

#[test]
fn test_ld_a_mem_at_hl_dec() {
    let mut gameboy = Gameboy::default();
    gameboy.cpu.registers.set_u16(Register16bTarget::HL, 0xC050);
    gameboy.bus.memory[0xC050] = 0x01;
    ld_a_mem_at_hl_dec(&mut gameboy);
    assert_eq!(gameboy.cpu.registers.get_u8(RegisterTarget::A), 0x01);
    assert_eq!(gameboy.cpu.registers.get_u16(Register16bTarget::HL), 0xC04F);
}

#[test]
fn test_ld_mem_at_hl_a_inc() {
    let mut gameboy = Gameboy::default();
    let addr = 0xC050;
    gameboy.cpu.registers.set_u16(Register16bTarget::HL, addr);
    gameboy.cpu.registers.set_u8(RegisterTarget::A, 0x42);
    ld_mem_at_hl_a_inc(&mut gameboy);
    assert_eq!(gameboy.read_byte(addr), 0x42);
    assert_eq!(
        gameboy.cpu.registers.get_u16(Register16bTarget::HL),
        addr + 1
    );
}

#[test]
fn test_ld_mem_at_hl_a_dec() {
    let mut gameboy = Gameboy::default();
    let addr = 0xC050;
    gameboy.cpu.registers.set_u16(Register16bTarget::HL, addr);
    gameboy.cpu.registers.set_u8(RegisterTarget::A, 0x42);
    ld_mem_at_hl_a_dec(&mut gameboy);
    assert_eq!(gameboy.read_byte(addr), 0x42);
    assert_eq!(
        gameboy.cpu.registers.get_u16(Register16bTarget::HL),
        addr - 1
    );
}

#[test]
fn test_ld_r_mem_at_r16() {
    let mut gameboy = Gameboy::default();
    let addr = 0xC050;
    gameboy.cpu.registers.set_u16(Register16bTarget::BC, addr);
    gameboy.cpu.registers.set_u8(RegisterTarget::A, 0x34);
    ld_mem_at_r16_r(&mut gameboy, Register16bTarget::BC, RegisterTarget::A);
    assert_eq!(gameboy.read_byte(addr), 0x34);
}

#[test]
fn test_ld_mem_at_d16_r() {
    let mut gameboy = Gameboy::default();
    gameboy.cpu.registers.pc = 0xC050;
    gameboy.cpu.registers.set_u8(RegisterTarget::A, 0x34);
    gameboy.bus.memory[0xC051] = 0x01;
    gameboy.bus.memory[0xC052] = 0xC1;
    ld_mem_at_d16_r(&mut gameboy, RegisterTarget::A);
    assert_eq!(gameboy.bus.memory[0xC101], 0x34);
}

#[test]
fn test_ld_r_mem_at_d16() {
    let mut gameboy = Gameboy::default();
    gameboy.cpu.registers.pc = 0xC050;
    gameboy.bus.memory[0xC051] = 0x01;
    gameboy.bus.memory[0xC052] = 0xC1;
    gameboy.bus.memory[0xC101] = 0x34;
    ld_r_mem_at_d16(&mut gameboy, RegisterTarget::A);
    assert_eq!(gameboy.cpu.registers.get_u8(RegisterTarget::A), 0x34);
}

#[test]
fn test_ld_u_16_r_advances_pc() {
    let mut gameboy = Gameboy::default();
    gameboy.cpu.registers.pc = 0xC050;
    ld_mem_at_d16_r(&mut gameboy, RegisterTarget::A);
    assert_eq!(gameboy.cpu.registers.pc, 0xC052);
}

#[test]
fn test_ld_d8_r() {
    let mut gameboy = Gameboy::default();
    gameboy.cpu.registers.pc = 0xC050;
    gameboy.bus.memory[0xC051] = 0x34;
    ld_d8_r(&mut gameboy, RegisterTarget::A);
    assert_eq!(gameboy.cpu.registers.get_u8(RegisterTarget::A), 0x34);
}

#[test]
fn test_ld_d8_mem_at_r16() {
    let mut gameboy = Gameboy::default();
    gameboy.cpu.registers.set_u16(Register16bTarget::HL, 0xC100);
    gameboy.cpu.registers.pc = 0xC050;
    gameboy.bus.memory[0xC051] = 0x34;
    ld_d8_mem_at_r16(&mut gameboy, Register16bTarget::HL);
    assert_eq!(gameboy.bus.memory[0xC100], 0x34);
}

#[test]
fn test_ld_a_mem_at_d8() {
    let mut gameboy = Gameboy::default();
    gameboy.cpu.registers.pc = 0xC050;
    gameboy.bus.memory[0xC051] = 0x34;
    gameboy.bus.memory[0xFF34] = 0x43;
    ld_a_mem_at_d8(&mut gameboy);
    assert_eq!(gameboy.cpu.registers.get_u8(RegisterTarget::A), 0x43);
}

#[test]
fn test_ld_mem_at_d8_a() {
    let mut gameboy = Gameboy::default();
    gameboy.cpu.registers.pc = 0xC050;
    gameboy.bus.memory[0xC051] = 0x34;
    gameboy.cpu.registers.set_u8(RegisterTarget::A, 0x43);
    ld_mem_at_d8_a(&mut gameboy);
    assert_eq!(gameboy.read_byte(0xFF34), 0x43);
}

#[test]
fn test_sp_hl() {
    let mut gameboy = Gameboy::default();
    gameboy.cpu.registers.set_u16(Register16bTarget::HL, 0x1234);
    ld_sp_hl(&mut gameboy);
    assert_eq!(gameboy.cpu.registers.get_u16(Register16bTarget::SP), 0x1234);
}

#[test]
fn test_ld_mem_at_hl_r() {
    let mut gameboy = Gameboy::default();
    let addr = 0xC050;
    gameboy.cpu.registers.set_u16(Register16bTarget::HL, addr);
    gameboy.cpu.registers.set_u8(RegisterTarget::A, 0x34);
    ld_mem_at_hl_r(&mut gameboy, RegisterTarget::A);
    assert_eq!(gameboy.read_byte(addr), 0x34);
}

#[test]
fn test_ld_r_mem_at_hl() {
    let mut gameboy = Gameboy::default();
    let addr = 0xC050;
    gameboy.cpu.registers.set_u16(Register16bTarget::HL, addr);
    gameboy.write_byte(addr, 0x34);
    ld_r_mem_at_hl(&mut gameboy, RegisterTarget::A);
    assert_eq!(gameboy.cpu.registers.get_u8(RegisterTarget::A), 0x34);
}

#[test]
fn test_ld_mem_at_c_a() {
    let mut gameboy = Gameboy::default();
    gameboy.cpu.registers.set_u8(RegisterTarget::C, 0x34);
    gameboy.cpu.registers.set_u8(RegisterTarget::A, 0x42);
    ld_mem_at_c_a(&mut gameboy);
    assert_eq!(gameboy.read_byte(0xFF34), 0x42);
}

#[test]
fn test_ld_mem_at_d16_sp() {
    let mut gameboy = Gameboy::default();
    gameboy.cpu.registers.pc = 0xC050;
    gameboy.bus.memory[0xC051] = 0x02;
    gameboy.bus.memory[0xC052] = 0xDD;
    gameboy.cpu.registers.sp = 0xDF7E;
    ld_mem_at_d16_sp(&mut gameboy);
    assert_eq!(gameboy.read_byte(0xDD02), 0x7E);
    assert_eq!(gameboy.read_byte(0xDD03), 0xDF);
    assert_eq!(gameboy.cpu.registers.pc, 0xC052);
}
