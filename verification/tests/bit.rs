use rust_game_boy_emulator::cpu::Register16bTarget;
use rust_game_boy_emulator::cpu::RegisterTarget;
use rust_game_boy_emulator::gameboy::Gameboy;
use rust_game_boy_emulator::instructions::bit::bit_mem_at_hl;
use rust_game_boy_emulator::instructions::bit::bit_r;
use rust_game_boy_emulator::instructions::bit::set_mem_at_hl;
use rust_game_boy_emulator::instructions::bit::set_r;

#[test]
fn test_set_mem_at_hl() {
    let mut gameboy = Gameboy::default();
    let addr = 0xC050;
    gameboy.cpu.registers.set_u16(Register16bTarget::HL, addr);
    gameboy.write_byte(addr, 0b00000000);

    set_mem_at_hl(&mut gameboy, 3);

    assert_eq!(gameboy.read_byte(addr), 0b00001000);
}

#[test]
fn test_set_r() {
    let mut gameboy = Gameboy::default();
    gameboy.cpu.registers.set_u8(RegisterTarget::A, 0b00000000);
    set_r(&mut gameboy, RegisterTarget::A, 3);
    assert_eq!(gameboy.cpu.registers.get_u8(RegisterTarget::A), 0b00001000);
}

#[test]
fn test_bit_r() {
    let mut gameboy = Gameboy::default();
    gameboy.cpu.registers.set_u8(RegisterTarget::A, 0b00001000);
    bit_r(&mut gameboy, RegisterTarget::A, 3);
    assert!(!gameboy.cpu.registers.f.zero);
    assert!(!gameboy.cpu.registers.f.subtract);
    assert!(gameboy.cpu.registers.f.half_carry);
}

#[test]
fn test_bit_r_true() {
    let mut gameboy = Gameboy::default();
    gameboy.cpu.registers.set_u8(RegisterTarget::A, 0b00000000);
    bit_r(&mut gameboy, RegisterTarget::A, 3);
    assert!(gameboy.cpu.registers.f.zero);
    assert!(!gameboy.cpu.registers.f.subtract);
    assert!(gameboy.cpu.registers.f.half_carry);
}

#[test]
fn test_bit_mem_at_hl() {
    let mut gameboy = Gameboy::default();
    gameboy.cpu.registers.set_u16(Register16bTarget::HL, 0xC050);
    gameboy.write_byte(0xC050, 0b00001000);
    bit_mem_at_hl(&mut gameboy, 3);
    assert!(!gameboy.cpu.registers.f.zero);
    assert!(!gameboy.cpu.registers.f.subtract);
    assert!(gameboy.cpu.registers.f.half_carry);
}

#[test]
fn test_bit_mem_at_hl_true() {
    let mut gameboy = Gameboy::default();
    gameboy.cpu.registers.set_u16(Register16bTarget::HL, 0xC050);
    gameboy.write_byte(0xC050, 0b00000000);
    bit_mem_at_hl(&mut gameboy, 3);
    assert!(gameboy.cpu.registers.f.zero);
    assert!(!gameboy.cpu.registers.f.subtract);
    assert!(gameboy.cpu.registers.f.half_carry);
}
