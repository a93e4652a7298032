use rust_game_boy_emulator::gameboy::Gameboy;
use rust_game_boy_emulator::instructions::misc::daa;

#[test]
fn test_daa() {
    let mut gameboy = Gameboy::default();
    gameboy.cpu.registers.a = 0x9A;
    daa(&mut gameboy);
    assert_eq!(gameboy.cpu.registers.a, 0x00);
    assert!(gameboy.cpu.registers.f.zero);
    assert!(gameboy.cpu.registers.f.carry);
}
