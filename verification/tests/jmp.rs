use rust_game_boy_emulator::gameboy::Gameboy;
use rust_game_boy_emulator::instructions::jmp::jmp_a16;
use rust_game_boy_emulator::instructions::jmp::jr;
use rust_game_boy_emulator::instructions::jmp::jr_c;
use rust_game_boy_emulator::instructions::jmp::jr_nc;
use rust_game_boy_emulator::instructions::jmp::jr_nz;
use rust_game_boy_emulator::instructions::jmp::jr_z;

#[test]
fn test_jmp_a16() {
    let mut gameboy = Gameboy::default();
    gameboy.cpu.registers.pc = 0xC050;
    gameboy.bus.memory[0xC051] = 0x01;
    gameboy.bus.memory[0xC052] = 0x02;
    jmp_a16(&mut gameboy);
    assert_eq!(gameboy.cpu.registers.pc, 0x0201);
}

#[test]
fn test_jr() {
    let mut gameboy = Gameboy::default();
    gameboy.cpu.registers.pc = 0xC050;
    gameboy.bus.memory[0xC051] = 0x05;
    jr(&mut gameboy);
    // jump is relative to next instruction
    assert_eq!(gameboy.cpu.registers.pc, 0xC057);
}

#[test]
fn test_jr_signed_negative() {
    let mut gameboy = Gameboy::default();
    gameboy.cpu.registers.pc = 0xC050;
    gameboy.bus.memory[0xC051] = -5i8 as u8;
    jr(&mut gameboy);
    assert_eq!(gameboy.cpu.registers.pc, 0xC04D);
}

#[test]
fn test_jr_z_flag_unset() {
    let mut gameboy = Gameboy::default();
    gameboy.cpu.registers.pc = 0xC050;
    gameboy.cpu.registers.f.zero = false;
    gameboy.bus.memory[0xC051] = 0x01;
    jr_z(&mut gameboy);
    assert_eq!(gameboy.cpu.registers.pc, 0xC052);
}

#[test]
fn test_jr_z_flag_set() {
    let mut gameboy = Gameboy::default();
    gameboy.cpu.registers.pc = 0xC050;
    gameboy.cpu.registers.f.zero = true;
    gameboy.bus.memory[0xC051] = 0x05;
    jr_z(&mut gameboy);
    assert_eq!(gameboy.cpu.registers.pc, 0xC057);
}

#[test]
fn test_jr_z_flag_set_signed_negative() {
    let mut gameboy = Gameboy::default();
    gameboy.cpu.registers.pc = 0xC050;
    gameboy.cpu.registers.f.zero = true;
    gameboy.bus.memory[0xC051] = -5i8 as u8;
    jr_z(&mut gameboy);
    assert_eq!(gameboy.cpu.registers.pc, 0xC04D);
}

#[test]
fn test_jr_nz_flag_set() {
    let mut gameboy = Gameboy::default();
    gameboy.cpu.registers.pc = 0xC050;
    gameboy.cpu.registers.f.zero = true;
    gameboy.bus.memory[0xC050] = 0x01;
    jr_nz(&mut gameboy);
    assert_eq!(gameboy.cpu.registers.pc, 0xC052);
}

#[test]
fn test_jr_nz_flag_unset_signed_negative() {
    let mut gameboy = Gameboy::default();
    gameboy.cpu.registers.pc = 0xC050;
    gameboy.cpu.registers.f.zero = false;
    gameboy.bus.memory[0xC051] = -5 as i8 as u8;
    jr_nz(&mut gameboy);
    assert_eq!(gameboy.cpu.registers.pc, 0xC04D);
}

#[test]
fn test_jr_c_flag_unset() {
    let mut gameboy = Gameboy::default();
    gameboy.cpu.registers.pc = 0xC050;
    gameboy.cpu.registers.f.carry = false;
    gameboy.bus.memory[0xC050] = 0x01;
    jr_c(&mut gameboy);
    assert_eq!(gameboy.cpu.registers.pc, 0xC052);
}

#[test]
fn test_jr_c_flag_set() {
    let mut gameboy = Gameboy::default();
    gameboy.cpu.registers.pc = 0xC050;
    gameboy.cpu.registers.f.carry = true;
    gameboy.bus.memory[0xC051] = 0x05;
    jr_c(&mut gameboy);
    assert_eq!(gameboy.cpu.registers.pc, 0xC057);
}

#[test]
fn test_jr_c_flag_set_signed_negative() {
    let mut gameboy = Gameboy::default();
    gameboy.cpu.registers.pc = 0xC050;
    gameboy.cpu.registers.f.carry = true;
    gameboy.bus.memory[0xC051] = -5i8 as u8;
    jr_c(&mut gameboy);
    assert_eq!(gameboy.cpu.registers.pc, 0xC04D);
}

#[test]
fn test_jr_nc_flag_unset() {
    let mut gameboy = Gameboy::default();
    gameboy.cpu.registers.pc = 0xC050;
    gameboy.cpu.registers.f.carry = false;
    gameboy.bus.memory[0xC051] = 0x05;
    jr_nc(&mut gameboy);
    assert_eq!(gameboy.cpu.registers.pc, 0xC057);
}

#[test]
fn test_jr_nc_flag_set() {
    let mut gameboy = Gameboy::default();
    gameboy.cpu.registers.pc = 0xC050;
    gameboy.cpu.registers.f.carry = true;
    gameboy.bus.memory[0xC051] = 0x05;
    jr_nc(&mut gameboy);
    assert_eq!(gameboy.cpu.registers.pc, 0xC052);
}

#[test]
fn test_jr_nc_flag_unset_signed_negative() {
    let mut gameboy = Gameboy::default();
    gameboy.cpu.registers.pc = 0xC050;
    gameboy.cpu.registers.f.carry = false;
    gameboy.bus.memory[0xC051] = -5i8 as u8;
    jr_nc(&mut gameboy);
    assert_eq!(gameboy.cpu.registers.pc, 0xC04D);
}
