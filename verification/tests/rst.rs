use rust_game_boy_emulator::cpu::CPU;
use rust_game_boy_emulator::cpu::Registers;
use rust_game_boy_emulator::gameboy::Gameboy;
use rust_game_boy_emulator::instructions::rst::rst;

#[test]
fn test_rst() {
    let mut gameboy = Gameboy {
        cpu: CPU {
            registers: Registers {
                sp: 0xFFFE,
                pc: 0x1234,
                ..Default::default()
            },
            ..Default::default()
        },
        ..Default::default()
    };
    rst(&mut gameboy, 0x08);
    assert_eq!(gameboy.cpu.registers.sp, 0xFFFC);
    assert_eq!(gameboy.bus.memory[0xFFFD], 0x12);
    assert_eq!(gameboy.bus.memory[0xFFFC], 0x35);
    assert_eq!(gameboy.cpu.registers.pc, 0x08);
}
