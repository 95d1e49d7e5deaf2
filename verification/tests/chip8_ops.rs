use chip8::chip8::{Chip8, INSTRUCTION_SIZE, SCREEN_HEIGHT};

#[test]
fn test_load() {
    let mut chip8 = Chip8::new();
    let buffer = [1, 2, 3, 4, 5];

    chip8.load(&buffer);
    assert_eq!(chip8.memory[0x200], 1);
    assert_eq!(chip8.memory[0x201], 2);
    assert_eq!(chip8.memory[0x202], 3);
    assert_eq!(chip8.memory[0x203], 4);
    assert_eq!(chip8.memory[0x204], 5);
}

#[test]
fn test_op_00e0() {
    let mut chip8 = Chip8::new();
    chip8.screen = vec![0xFFFFFFFFFFFFFFFF; SCREEN_HEIGHT];
    chip8.program_counter = 0x200;

    let result: usize = chip8.op_00e0();
    assert_eq!(chip8.screen, vec![0; SCREEN_HEIGHT]);
    assert!(chip8.draw_flag);
    assert_eq!(result, 0x200 + INSTRUCTION_SIZE);
}

#[test]
fn test_op_00ee() {
    let mut chip8 = Chip8::new();
    chip8.stack_pointer = 0x01;
    chip8.stack[0] = 0x300;

    let result: usize = chip8.op_00ee();
    assert_eq!(result, 0x300 + INSTRUCTION_SIZE);
    assert_eq!(chip8.stack_pointer, 0);
}

#[test]
fn test_op_1nnn() {
    let chip8 = Chip8::new();
    assert_eq!(chip8.op_1nnn(0x400), 0x400);
}

#[test]
fn test_op_2nnn() {
    let mut chip8 = Chip8::new();
    chip8.program_counter = 0x200;
    chip8.stack_pointer = 0x00;

    let result: usize = chip8.op_2nnn(0x600);
    assert_eq!(result, 0x600);
    assert_eq!(chip8.stack[0], 0x200);
    assert_eq!(chip8.stack_pointer, 1);
}

#[test]
fn test_op_3xnn() {
    let mut chip8 = Chip8::new();
    chip8.registers[0x1] = 0x42;
    chip8.program_counter = 0x200;

    let result: usize = chip8.op_3xnn(0x1, 0x42);
    assert_eq!(result, 0x200 + INSTRUCTION_SIZE * 2);

    let result: usize = chip8.op_3xnn(0x1, 0x43);
    assert_eq!(result, 0x200 + INSTRUCTION_SIZE);
}

#[test]
fn test_op_4xnn() {
    let mut chip8 = Chip8::new();
    chip8.registers[0x1] = 0x42;
    chip8.program_counter = 0x200;

    let result: usize = chip8.op_4xnn(0x1, 0x43);
    assert_eq!(result, 0x200 + INSTRUCTION_SIZE * 2);

    let result: usize = chip8.op_4xnn(0x1, 0x42);
    assert_eq!(result, 0x200 + INSTRUCTION_SIZE);
}

#[test]
fn test_op_5xy0() {
    let mut chip8 = Chip8::new();
    chip8.registers[0x1] = 0x50;
    chip8.registers[0x2] = 0x50;
    chip8.registers[0x3] = 0x51;
    chip8.program_counter = 0x200;

    let result: usize = chip8.op_5xy0(0x1, 0x2);
    assert_eq!(result, 0x200 + INSTRUCTION_SIZE * 2);

    let result: usize = chip8.op_5xy0(0x1, 0x3);
    assert_eq!(result, 0x200 + INSTRUCTION_SIZE);
}

#[test]
fn test_op_6xnn() {
    let mut chip8 = Chip8::new();
    chip8.program_counter = 0x200;

    let result: usize = chip8.op_6xnn(0x1, 0x99);
    assert_eq!(chip8.registers[0x1], 0x99);
    assert_eq!(result, 0x200 + INSTRUCTION_SIZE);
}

#[test]
fn test_op_7xnn() {
    let mut chip8 = Chip8::new();
    chip8.registers[0x1] = 0x05;
    chip8.program_counter = 0x200;

    let result: usize = chip8.op_7xnn(0x1, 0x10);
    assert_eq!(chip8.registers[0x1], 0x15);
    assert_eq!(result, 0x200 + INSTRUCTION_SIZE);
}

#[test]
fn test_op_8xy0() {
    let mut chip8 = Chip8::new();
    chip8.registers[0x1] = 0x05;
    chip8.registers[0x2] = 0x10;
    chip8.program_counter = 0x200;

    let result: usize = chip8.op_8xy0(0x1, 0x2);
    assert_eq!(chip8.registers[0x1], 0x10);
    assert_eq!(result, 0x200 + INSTRUCTION_SIZE);
}

#[test]
fn test_op_8xy1() {
    let mut chip8 = Chip8::new();
    chip8.registers[0x1] = 0x07;
    chip8.registers[0x2] = 0x0A;
    chip8.program_counter = 0x200;

    let result: usize = chip8.op_8xy1(0x1, 0x2);
    assert_eq!(chip8.registers[0x1], 0x0F);
    assert_eq!(result, 0x200 + INSTRUCTION_SIZE);
}

#[test]
fn test_op_8xy2() {
    let mut chip8 = Chip8::new();
    chip8.registers[0x1] = 0x07;
    chip8.registers[0x2] = 0x0A;
    chip8.program_counter = 0x200;

    let result: usize = chip8.op_8xy2(0x1, 0x2);
    assert_eq!(chip8.registers[0x1], 0x02);
    assert_eq!(result, 0x200 + INSTRUCTION_SIZE);
}

#[test]
fn test_op_8xy3() {
    let mut chip8 = Chip8::new();
    chip8.registers[0x1] = 0x07;
    chip8.registers[0x2] = 0x0A;
    chip8.program_counter = 0x200;

    let result: usize = chip8.op_8xy3(0x1, 0x2);
    assert_eq!(chip8.registers[0x1], 0x0D);
    assert_eq!(result, 0x200 + INSTRUCTION_SIZE);
}

#[test]
fn test_op_8xy4() {
    let mut chip8 = Chip8::new();
    chip8.registers[0x1] = 0x07;
    chip8.registers[0x2] = 0xFF;
    chip8.registers[0x3] = 0x0A;
    chip8.program_counter = 0x200;

    let result: usize = chip8.op_8xy4(0x1, 0x2);
    assert_eq!(chip8.registers[0x1], 0x06);
    assert_eq!(chip8.registers[0xF], 0x01);
    assert_eq!(result, 0x200 + INSTRUCTION_SIZE);

    let result: usize = chip8.op_8xy4(0x1, 0x3);
    assert_eq!(chip8.registers[0x1], 0x10);
    assert_eq!(chip8.registers[0xF], 0x00);
    assert_eq!(result, 0x200 + INSTRUCTION_SIZE);
}

#[test]
fn test_op_8xy5() {
    let mut chip8 = Chip8::new();
    chip8.registers[0x1] = 0x07;
    chip8.registers[0x2] = 0xFF;
    chip8.registers[0x3] = 0x03;
    chip8.program_counter = 0x200;

    let result: usize = chip8.op_8xy5(0x1, 0x2);
    assert_eq!(chip8.registers[0x1], 0x08);
    assert_eq!(chip8.registers[0xF], 0x01);
    assert_eq!(result, 0x200 + INSTRUCTION_SIZE);

    let result: usize = chip8.op_8xy5(0x1, 0x3);
    assert_eq!(chip8.registers[0x1], 0x05);
    assert_eq!(chip8.registers[0xF], 0x00);
    assert_eq!(result, 0x200 + INSTRUCTION_SIZE);
}

#[test]
fn test_op_8xy6() {
    let mut chip8 = Chip8::new();
    chip8.registers[0x1] = 0x07;
    chip8.registers[0x2] = 0xFF;
    chip8.registers[0x3] = 0x06;
    chip8.program_counter = 0x200;

    let result: usize = chip8.op_8xy6(0x1, 0x2);
    assert_eq!(chip8.registers[0x1], 0x7F);
    assert_eq!(chip8.registers[0xF], 0x01);
    assert_eq!(result, 0x200 + INSTRUCTION_SIZE);

    let result: usize = chip8.op_8xy6(0x1, 0x3);
    assert_eq!(chip8.registers[0x1], 0x03);
    assert_eq!(chip8.registers[0xF], 0x00);
    assert_eq!(result, 0x200 + INSTRUCTION_SIZE);
}

#[test]
fn test_op_8xy7() {
    let mut chip8 = Chip8::new();
    chip8.registers[0x1] = 0x0F;
    chip8.registers[0x2] = 0x07;
    chip8.registers[0x3] = 0x08;
    chip8.program_counter = 0x200;

    let result: usize = chip8.op_8xy7(0x1, 0x2);
    assert_eq!(chip8.registers[0x1], 0xF8);
    assert_eq!(chip8.registers[0xF], 0x01);
    assert_eq!(result, 0x200 + INSTRUCTION_SIZE);

    let result: usize = chip8.op_8xy7(0x2, 0x3);
    assert_eq!(chip8.registers[0x2], 0x01);
    assert_eq!(chip8.registers[0xF], 0x00);
    assert_eq!(result, 0x200 + INSTRUCTION_SIZE);
}

#[test]
fn test_op_8xye() {
    let mut chip8 = Chip8::new();
    chip8.registers[0x1] = 0x07;
    chip8.registers[0x2] = 0xFF;
    chip8.registers[0x3] = 0x06;
    chip8.program_counter = 0x200;

    let result: usize = chip8.op_8xye(0x1, 0x2);
    assert_eq!(chip8.registers[0x1], 0xFE);
    assert_eq!(chip8.registers[0xF], 0x01);
    assert_eq!(result, 0x200 + INSTRUCTION_SIZE);

    let result: usize = chip8.op_8xye(0x1, 0x3);
    assert_eq!(chip8.registers[0x1], 0x0C);
    assert_eq!(chip8.registers[0xF], 0x00);
    assert_eq!(result, 0x200 + INSTRUCTION_SIZE);
}

#[test]
fn test_op_9xy0() {
    let mut chip8 = Chip8::new();
    chip8.registers[0x1] = 0x50;
    chip8.registers[0x2] = 0x50;
    chip8.registers[0x3] = 0x51;
    chip8.program_counter = 0x200;

    let result: usize = chip8.op_9xy0(0x1, 0x2);
    assert_eq!(result, 0x200 + INSTRUCTION_SIZE);

    let result: usize = chip8.op_9xy0(0x1, 0x3);
    assert_eq!(result, 0x200 + INSTRUCTION_SIZE * 2);
}

#[test]
fn test_op_annn() {
    let mut chip8 = Chip8::new();
    chip8.program_counter = 0x200;

    let result: usize = chip8.op_annn(0x99A);
    assert_eq!(chip8.index_register, 0x99A);
    assert_eq!(result, 0x200 + INSTRUCTION_SIZE);
}

#[test]
fn test_op_bnnn() {
    let mut chip8 = Chip8::new();
    chip8.program_counter = 0x200;
    chip8.registers[0x0] = 0x04;

    let result: usize = chip8.op_bnnn(0x203);
    assert_eq!(result, 0x207);
}

#[test]
fn test_op_cxnn() {
    let mut chip8 = Chip8::new();
    chip8.program_counter = 0x200;

    let result: usize = chip8.op_cxnn(0x0, 0xF0);
    assert_eq!(chip8.registers[0x0] & !0xF0, 0);
    assert_eq!(result, 0x200 + INSTRUCTION_SIZE);
}

#[test]
fn test_op_dxyn() {
    let mut chip8 = Chip8::new();
    chip8.program_counter = 0x200;
    chip8.registers[0x0] = 0x05;
    chip8.registers[0x1] = 0x01;
    chip8.index_register = 0x300;
    chip8.memory[0x300] = 0b11111111;
    chip8.memory[0x301] = 0b10000001;
    chip8.memory[0x302] = 0b10000001;
    chip8.memory[0x303] = 0b11111111;

    let result: usize = chip8.op_dxyn(0x0, 0x01, 0x4);
    assert_eq!(
        chip8.screen,
        vec![
            0x0000000000000000,
            0x07F8000000000000,
            0x0408000000000000,
            0x0408000000000000,
            0x07F8000000000000,
            0x0000000000000000,
            0x0000000000000000,
            0x0000000000000000,
            0x0000000000000000,
            0x0000000000000000,
            0x0000000000000000,
            0x0000000000000000,
            0x0000000000000000,
            0x0000000000000000,
            0x0000000000000000,
            0x0000000000000000,
            0x0000000000000000,
            0x0000000000000000,
            0x0000000000000000,
            0x0000000000000000,
            0x0000000000000000,
            0x0000000000000000,
            0x0000000000000000,
            0x0000000000000000,
            0x0000000000000000,
            0x0000000000000000,
            0x0000000000000000,
            0x0000000000000000,
            0x0000000000000000,
            0x0000000000000000,
            0x0000000000000000,
            0x0000000000000000,
        ]
    );
    assert_eq!(chip8.registers[0xF], 0x00);
    assert_eq!(result, 0x200 + INSTRUCTION_SIZE);

    chip8.registers[0x3] = 0x02;
    let result: usize = chip8.op_dxyn(0x0, 0x3, 0x1);
    assert_eq!(
        chip8.screen,
        vec![
            0x0000000000000000,
            0x07F8000000000000,
            0x03F0000000000000,
            0x0408000000000000,
            0x07F8000000000000,
            0x0000000000000000,
            0x0000000000000000,
            0x0000000000000000,
            0x0000000000000000,
            0x0000000000000000,
            0x0000000000000000,
            0x0000000000000000,
            0x0000000000000000,
            0x0000000000000000,
            0x0000000000000000,
            0x0000000000000000,
            0x0000000000000000,
            0x0000000000000000,
            0x0000000000000000,
            0x0000000000000000,
            0x0000000000000000,
            0x0000000000000000,
            0x0000000000000000,
            0x0000000000000000,
            0x0000000000000000,
            0x0000000000000000,
            0x0000000000000000,
            0x0000000000000000,
            0x0000000000000000,
            0x0000000000000000,
            0x0000000000000000,
            0x0000000000000000,
        ]
    );
    assert_eq!(chip8.registers[0xF], 0x01);
    assert_eq!(result, 0x200 + INSTRUCTION_SIZE);
}
