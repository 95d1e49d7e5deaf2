pub mod chip8;
pub mod opcode;
