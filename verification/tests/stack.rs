use rust_game_boy_emulator::cpu::CPU;
use rust_game_boy_emulator::cpu::Register16bTarget;
use rust_game_boy_emulator::cpu::Registers;
use rust_game_boy_emulator::gameboy::Gameboy;
use rust_game_boy_emulator::instructions::stack::pop;
use rust_game_boy_emulator::instructions::stack::push;

#[test]
fn test_push() {
    let mut gameboy = Gameboy {
        cpu: CPU {
            registers: Registers {
                sp: 0xFFFE,
                b: 0x01,
                c: 0x02,
                ..Default::default()
            },
            ..Default::default()
        },
        ..Default::default()
    };
    push(&mut gameboy, Register16bTarget::BC);
    assert_eq!(gameboy.cpu.registers.sp, 0xFFFC);
    assert_eq!(gameboy.bus.memory[0xFFFD], 0x01);
    assert_eq!(gameboy.bus.memory[0xFFFC], 0x02);
}

#[test]
fn test_pop() {
    let mut gameboy = Gameboy {
        cpu: CPU {
            registers: Registers {
                sp: 0xFFFC,
                b: 0x00,
                c: 0x00,
                ..Default::default()
            },
            ..Default::default()
        },
        ..Default::default()
    };
    gameboy.bus.memory[0xFFFC] = 0x01;
    gameboy.bus.memory[0xFFFD] = 0x02;
    pop(&mut gameboy, Register16bTarget::BC);
    assert_eq!(gameboy.cpu.registers.get_u16(Register16bTarget::BC), 0x0201);
    assert_eq!(gameboy.cpu.registers.sp, 0xFFFE);
}
