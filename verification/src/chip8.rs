use vstd::prelude::*;

verus! {

use crate::opcode::{Opcode, nib0, nib1, nib2, nib3, nnn_field, nn_field, x_field, y_field};

/// Number of 8-bit general-purpose register slots.
pub const REGISTER_COUNT: usize = 16;

/// Size of the flat addressable memory, in bytes.
pub const MEMORY_SIZE: usize = 4096;

/// Capacity of the call stack.
pub const MAX_STACK_SIZE: usize = 12;

/// Number of key-down latches, one per hexadecimal key.
pub const KEYPAD_SIZE: usize = 16;

/// Width of one instruction word, in bytes.
pub const INSTRUCTION_SIZE: usize = 2;

/// Number of pixel rows of the monochrome display; each row is one 64-bit mask.
pub const SCREEN_HEIGHT: usize = 32;

/// Address at which a loaded program image begins; everything below is
/// reserved for the interpreter.
pub const PROGRAM_START: usize = 0x200;

/// The index of the register slot that doubles as the flag output of the
/// arithmetic, shift and drawing instructions.
pub const FLAG_REGISTER: usize = 0xF;

/// The processor state: the sole unit of mutation for every instruction.
pub struct Chip8 {
    /// 16 independent 8-bit general-purpose slots; slot 15 doubles as a flag output.
    pub registers: Vec<u8>,
    /// Address-sized memory pointer operand used by the drawing instruction.
    pub index_register: usize,
    /// Address of the next instruction to fetch.
    pub program_counter: usize,
    /// Index of the next free call-stack slot.
    pub stack_pointer: usize,
    /// The flat 4096-byte addressable space.
    pub memory: Vec<u8>,
    /// Bounded stack of return addresses, used by the call/return pair.
    pub stack: Vec<usize>,
    /// 8-bit countdown value, decremented by the host at a fixed rate.
    pub sound_timer: u8,
    /// 8-bit countdown value, decremented by the host at a fixed rate.
    pub delay_timer: u8,
    /// Key-down latches, written by the host and read by input-testing instructions.
    pub keypad: Vec<bool>,
    /// The framebuffer: one 64-bit mask per pixel row, bit 0 the leftmost pixel.
    pub screen: Vec<u64>,
    /// Set whenever the framebuffer changes; cleared by the host after redrawing.
    pub draw_flag: bool,
}

impl Chip8 {
    /// Well-formedness: every collection has its fixed size, the stack pointer
    /// stays within the stack's capacity, and every live stack slot holds a
    /// return address from which fetching can resume.
    pub open spec fn wf(self) -> bool {
        &&& self.registers@.len() == REGISTER_COUNT
        &&& self.memory@.len() == MEMORY_SIZE
        &&& self.stack@.len() == MAX_STACK_SIZE
        &&& self.keypad@.len() == KEYPAD_SIZE
        &&& self.screen@.len() == SCREEN_HEIGHT
        &&& self.stack_pointer <= MAX_STACK_SIZE
        &&& forall|i: int|
            0 <= i < self.stack_pointer ==> self.stack@[i] + INSTRUCTION_SIZE <= MEMORY_SIZE
    }
}

/// Every field of the two states agrees except, possibly, the register file
/// and the program counter.
pub open spec fn unchanged_except_registers(pre: Chip8, post: Chip8) -> bool {
    &&& post.index_register == pre.index_register
    &&& post.stack_pointer == pre.stack_pointer
    &&& post.memory == pre.memory
    &&& post.stack == pre.stack
    &&& post.sound_timer == pre.sound_timer
    &&& post.delay_timer == pre.delay_timer
    &&& post.keypad == pre.keypad
    &&& post.screen == pre.screen
    &&& post.draw_flag == pre.draw_flag
}

/// Every field of the two states agrees except, possibly, the program counter.
pub open spec fn unchanged_core(pre: Chip8, post: Chip8) -> bool {
    &&& unchanged_except_registers(pre, post)
    &&& post.registers == pre.registers
}

/// Every field agrees except, possibly, the framebuffer, the draw flag and the
/// program counter.
pub open spec fn unchanged_except_screen(pre: Chip8, post: Chip8) -> bool {
    &&& post.registers == pre.registers
    &&& post.index_register == pre.index_register
    &&& post.stack_pointer == pre.stack_pointer
    &&& post.memory == pre.memory
    &&& post.stack == pre.stack
    &&& post.sound_timer == pre.sound_timer
    &&& post.delay_timer == pre.delay_timer
    &&& post.keypad == pre.keypad
}

/// Every field agrees except, possibly, the call stack, its pointer and the
/// program counter.
pub open spec fn unchanged_except_stack(pre: Chip8, post: Chip8) -> bool {
    &&& post.registers == pre.registers
    &&& post.index_register == pre.index_register
    &&& post.memory == pre.memory
    &&& post.sound_timer == pre.sound_timer
    &&& post.delay_timer == pre.delay_timer
    &&& post.keypad == pre.keypad
    &&& post.screen == pre.screen
    &&& post.draw_flag == pre.draw_flag
}

/// Every field agrees except, possibly, the index register and the program
/// counter.
pub open spec fn unchanged_except_index(pre: Chip8, post: Chip8) -> bool {
    &&& post.registers == pre.registers
    &&& post.stack_pointer == pre.stack_pointer
    &&& post.memory == pre.memory
    &&& post.stack == pre.stack
    &&& post.sound_timer == pre.sound_timer
    &&& post.delay_timer == pre.delay_timer
    &&& post.keypad == pre.keypad
    &&& post.screen == pre.screen
    &&& post.draw_flag == pre.draw_flag
}

/// Every field agrees except, possibly, the register file, the framebuffer,
/// the draw flag and the program counter.
pub open spec fn unchanged_except_draw(pre: Chip8, post: Chip8) -> bool {
    &&& post.index_register == pre.index_register
    &&& post.stack_pointer == pre.stack_pointer
    &&& post.memory == pre.memory
    &&& post.stack == pre.stack
    &&& post.sound_timer == pre.sound_timer
    &&& post.delay_timer == pre.delay_timer
    &&& post.keypad == pre.keypad
}

/// Every field agrees except, possibly, the memory image and the program
/// counter.
pub open spec fn unchanged_except_memory(pre: Chip8, post: Chip8) -> bool {
    &&& post.registers == pre.registers
    &&& post.index_register == pre.index_register
    &&& post.stack_pointer == pre.stack_pointer
    &&& post.stack == pre.stack
    &&& post.sound_timer == pre.sound_timer
    &&& post.delay_timer == pre.delay_timer
    &&& post.keypad == pre.keypad
    &&& post.screen == pre.screen
    &&& post.draw_flag == pre.draw_flag
}

/// The 8-bit wrapping sum.
pub open spec fn wrap_add(a: u8, b: u8) -> u8 {
    ((a + b) % 256) as u8
}

/// 1 exactly when the unsigned 8-bit sum overflows, 0 otherwise.
pub open spec fn add_carry(a: u8, b: u8) -> u8 {
    if a + b >= 256 {
        1u8
    } else {
        0u8
    }
}

/// The 8-bit wrapping difference `a - b`.
pub open spec fn wrap_sub(a: u8, b: u8) -> u8 {
    (if a >= b {
        a - b
    } else {
        a - b + 256
    }) as u8
}

/// 1 exactly when the unsigned subtraction `a - b` borrows, 0 otherwise.
pub open spec fn sub_borrow(a: u8, b: u8) -> u8 {
    if a < b {
        1u8
    } else {
        0u8
    }
}

/// The value shifted right one bit, the vacated high bit zero-filled.
pub open spec fn shr1(b: u8) -> u8 {
    b / 2
}

/// The bit a one-bit right shift shifts out.
pub open spec fn low_bit(b: u8) -> u8 {
    b % 2
}

/// The value shifted left one bit, the vacated low bit zero-filled.
pub open spec fn shl1(b: u8) -> u8 {
    ((2 * b) % 256) as u8
}

/// The bit a one-bit left shift shifts out.
pub open spec fn high_bit(b: u8) -> u8 {
    b / 128
}

/// Effect of the clear-screen instruction on everything but the program
/// counter: the framebuffer goes blank and the draw flag is raised.
pub open spec fn clear_screen_effect(pre: Chip8, post: Chip8) -> bool {
    &&& post.screen@.len() == pre.screen@.len()
    &&& (forall|r: int| 0 <= r < post.screen@.len() ==> post.screen@[r] == 0)
    &&& post.draw_flag == true
    &&& unchanged_except_screen(pre, post)
}

/// Effect on everything but the program counter of storing `v` into register
/// `x`.
pub open spec fn store_register_effect(pre: Chip8, post: Chip8, x: int, v: u8) -> bool {
    &&& post.registers@ == pre.registers@.update(x, v)
    &&& unchanged_except_registers(pre, post)
}

/// Effect on everything but the program counter of an instruction that writes
/// `v` to register `x` and then the flag `f` to register 15. The second write
/// wins where `x` is 15 itself.
pub open spec fn arith_effect(pre: Chip8, post: Chip8, x: int, v: u8, f: u8) -> bool {
    &&& post.registers@ == pre.registers@.update(x, v).update(FLAG_REGISTER as int, f)
    &&& unchanged_except_registers(pre, post)
}

/// Effect on everything but the program counter of calling a subroutine: the
/// current program counter is pushed onto the stack.
pub open spec fn call_effect(pre: Chip8, post: Chip8) -> bool {
    &&& post.stack@ == pre.stack@.update(pre.stack_pointer as int, pre.program_counter)
    &&& post.stack_pointer == pre.stack_pointer + 1
    &&& unchanged_except_stack(pre, post)
}

/// Effect on everything but the program counter of returning from a
/// subroutine: the topmost return address is popped.
pub open spec fn return_effect(pre: Chip8, post: Chip8) -> bool {
    &&& post.stack@ == pre.stack@
    &&& post.stack_pointer == pre.stack_pointer - 1
    &&& unchanged_except_stack(pre, post)
}

/// One sprite byte widened to a 64-pixel row value, its leftmost (most
/// significant) pixel at column `left`.
pub open spec fn sprite_row(b: u8, left: u8) -> u64
    recommends
        left <= 56,
{
    (b as u64) << ((56 - left) as u64)
}

/// Whether XOR-compositing sprite row `r` onto framebuffer row `top + r`
/// toggles off some already-set pixel there.
pub open spec fn row_collides(pre: Chip8, left: u8, top: u8, r: int) -> bool {
    pre.screen@[top + r] & sprite_row(pre.memory@[pre.index_register + r], left) != 0
}

/// Whether XOR-compositing the first `k` sprite rows onto the framebuffer
/// toggles off some already-set pixel.
pub open spec fn draw_collides_prefix(pre: Chip8, left: u8, top: u8, k: int) -> bool {
    exists|r: int| 0 <= r < k && #[trigger] row_collides(pre, left, top, r)
}

/// The framebuffer after the first `k` sprite rows, read from memory at the
/// index register, have been XOR-composited at (`left`, `top`).
pub open spec fn drawn_screen_prefix(pre: Chip8, left: u8, top: u8, k: int) -> Seq<u64> {
    Seq::new(
        pre.screen@.len(),
        |r: int|
            if top <= r < top + k {
                pre.screen@[r] ^ sprite_row(pre.memory@[pre.index_register + (r - top)], left)
            } else {
                pre.screen@[r]
            },
    )
}

/// Effect on everything but the program counter of drawing an `n`-row sprite
/// at the position named by registers `x` and `y`: the sprite is
/// XOR-composited, register 15 reports whether a set pixel was toggled off,
/// and the draw flag is raised.
pub open spec fn draw_effect(pre: Chip8, post: Chip8, x: int, y: int, n: u8) -> bool {
    let left = pre.registers@[x];
    let top = pre.registers@[y];
    &&& post.screen@ == drawn_screen_prefix(pre, left, top, n as int)
    &&& post.registers@ == pre.registers@.update(
        FLAG_REGISTER as int,
        if draw_collides_prefix(pre, left, top, n as int) {
            1u8
        } else {
            0u8
        },
    )
    &&& post.draw_flag == true
    &&& unchanged_except_draw(pre, post)
}

/// Effect of the random-and-mask instruction: some byte from the generator,
/// masked with `nn`, lands in register `x`.
pub open spec fn random_effect(pre: Chip8, post: Chip8, x: int, nn: u8) -> bool {
    exists|b: u8| store_register_effect(pre, post, x, b & nn)
}

/// The big-endian 16-bit instruction word at the program counter.
pub open spec fn fetched_word(s: Chip8) -> u16 {
    ((s.memory@[s.program_counter as int] as u16) << 8) | (s.memory@[s.program_counter as int
        + 1] as u16)
}

/// Relies on rand::random: the ambient thread-local generator supplies the
/// value, so nothing is promised of the result beyond its type.
pub assume_specification<T>[ rand::random::<T> ]() -> (r: T)
    where
        rand::distr::StandardUniform: rand::distr::Distribution<T>,
;

/// A fatal failure of one execute step. The step that reports one of these
/// leaves the processor state untouched.
#[derive(Clone, Copy, Debug, PartialEq, Eq, Structural)]
pub enum StepError {
    /// The fetched word matches no handler; carries the offending word.
    UnsupportedInstruction(u16),
    /// A fetch or sprite read would run past the 4096-byte memory; carries the
    /// first out-of-range address touched.
    MemoryOutOfBounds(usize),
    /// The sprite would be drawn past the rightmost column that fits all 8
    /// pixels; carries the offending left column.
    ScreenColumnOutOfBounds(u8),
    /// The sprite would be drawn past the bottom row; carries the first
    /// out-of-range row touched.
    ScreenRowOutOfBounds(usize),
    /// A call was issued with the call stack already at capacity.
    StackOverflow,
    /// A return was issued with no matching call on the stack.
    StackUnderflow,
}

/// The clear-screen instruction pattern.
pub open spec fn is_cls(w: u16) -> bool {
    nib0(w) == 0x0 && nib1(w) == 0x0 && nib2(w) == 0xE && nib3(w) == 0x0
}

/// The return-from-subroutine instruction pattern.
pub open spec fn is_ret(w: u16) -> bool {
    nib0(w) == 0x0 && nib1(w) == 0x0 && nib2(w) == 0xE && nib3(w) == 0xE
}

/// The first address past the end of memory that an instruction fetch at the
/// program counter would touch.
pub open spec fn fetch_oob_address(pre: Chip8) -> usize {
    if pre.program_counter >= MEMORY_SIZE {
        pre.program_counter
    } else {
        MEMORY_SIZE
    }
}

/// The failure, if any, that the drawing instruction `w` reports from `pre`:
/// the whole sprite must fit on the screen and be read from within memory,
/// checked in the order column, row, memory. A zero-height sprite touches
/// nothing and cannot fail.
pub open spec fn draw_failure(pre: Chip8, w: u16) -> Option<StepError> {
    let n = nib3(w);
    let left = pre.registers@[x_field(w) as int];
    let top = pre.registers@[y_field(w) as int];
    if n == 0 {
        None
    } else if left > 56 {
        Some(StepError::ScreenColumnOutOfBounds(left))
    } else if top + n > SCREEN_HEIGHT {
        Some(
            StepError::ScreenRowOutOfBounds(
                if top >= SCREEN_HEIGHT {
                    top as usize
                } else {
                    SCREEN_HEIGHT
                },
            ),
        )
    } else if pre.index_register + n > MEMORY_SIZE {
        Some(
            StepError::MemoryOutOfBounds(
                if pre.index_register >= MEMORY_SIZE {
                    pre.index_register
                } else {
                    MEMORY_SIZE
                },
            ),
        )
    } else {
        None
    }
}

/// The failure, if any, that executing the already-fetched word `w` from `pre`
/// reports: an unrecognised pattern, a call-stack fault, or a drawing fault.
pub open spec fn decode_failure(pre: Chip8, w: u16) -> Option<StepError> {
    let k = nib0(w);
    let t = nib3(w);
    if is_cls(w) {
        None
    } else if is_ret(w) {
        if pre.stack_pointer == 0 {
            Some(StepError::StackUnderflow)
        } else {
            None
        }
    } else if k == 0x1 {
        None
    } else if k == 0x2 {
        if pre.stack_pointer >= MAX_STACK_SIZE {
            Some(StepError::StackOverflow)
        } else {
            None
        }
    } else if k == 0x3 || k == 0x4 {
        None
    } else if k == 0x5 {
        if t == 0x0 {
            None
        } else {
            Some(StepError::UnsupportedInstruction(w))
        }
    } else if k == 0x6 || k == 0x7 {
        None
    } else if k == 0x8 {
        if t <= 0x7 || t == 0xE {
            None
        } else {
            Some(StepError::UnsupportedInstruction(w))
        }
    } else if k == 0x9 {
        if t == 0x0 {
            None
        } else {
            Some(StepError::UnsupportedInstruction(w))
        }
    } else if k == 0xA || k == 0xB || k == 0xC {
        None
    } else if k == 0xD {
        draw_failure(pre, w)
    } else {
        Some(StepError::UnsupportedInstruction(w))
    }
}

/// The unique failure, if any, that one execute step from `pre` reports: the
/// fetch must lie within memory, and the fetched word must decode and be able
/// to run.
pub open spec fn step_failure(pre: Chip8) -> Option<StepError> {
    if pre.program_counter + INSTRUCTION_SIZE > MEMORY_SIZE {
        Some(StepError::MemoryOutOfBounds(fetch_oob_address(pre)))
    } else {
        decode_failure(pre, fetched_word(pre))
    }
}

/// How one successful execute step from `pre` changes the state: the fetched
/// word is decoded, the selected instruction's effect is applied, and the
/// program counter moves to the value the instruction hands back.
pub open spec fn step_transition(pre: Chip8, post: Chip8) -> bool {
    let w = fetched_word(pre);
    let k = nib0(w);
    let t = nib3(w);
    let x = x_field(w) as int;
    let y = y_field(w) as int;
    let vx = pre.registers@[x];
    let vy = pre.registers@[y];
    let pc_next = pre.program_counter + INSTRUCTION_SIZE;
    if is_cls(w) {
        clear_screen_effect(pre, post) && post.program_counter == pc_next
    } else if is_ret(w) {
        return_effect(pre, post) && post.program_counter == pre.stack@[pre.stack_pointer - 1]
            + INSTRUCTION_SIZE
    } else if k == 0x1 {
        unchanged_core(pre, post) && post.program_counter == nnn_field(w)
    } else if k == 0x2 {
        call_effect(pre, post) && post.program_counter == nnn_field(w)
    } else if k == 0x3 {
        unchanged_core(pre, post) && post.program_counter == pre.program_counter + (
        if vx == nn_field(w) {
            2 * INSTRUCTION_SIZE as int
        } else {
            INSTRUCTION_SIZE as int
        })
    } else if k == 0x4 {
        unchanged_core(pre, post) && post.program_counter == pre.program_counter + (
        if vx != nn_field(w) {
            2 * INSTRUCTION_SIZE as int
        } else {
            INSTRUCTION_SIZE as int
        })
    } else if k == 0x5 && t == 0x0 {
        unchanged_core(pre, post) && post.program_counter == pre.program_counter + (
        if vx == vy {
            2 * INSTRUCTION_SIZE as int
        } else {
            INSTRUCTION_SIZE as int
        })
    } else if k == 0x6 {
        store_register_effect(pre, post, x, nn_field(w)) && post.program_counter == pc_next
    } else if k == 0x7 {
        store_register_effect(pre, post, x, wrap_add(vx, nn_field(w))) && post.program_counter
            == pc_next
    } else if k == 0x8 && t == 0x0 {
        store_register_effect(pre, post, x, vy) && post.program_counter == pc_next
    } else if k == 0x8 && t == 0x1 {
        store_register_effect(pre, post, x, vx | vy) && post.program_counter == pc_next
    } else if k == 0x8 && t == 0x2 {
        store_register_effect(pre, post, x, vx & vy) && post.program_counter == pc_next
    } else if k == 0x8 && t == 0x3 {
        store_register_effect(pre, post, x, vx ^ vy) && post.program_counter == pc_next
    } else if k == 0x8 && t == 0x4 {
        arith_effect(pre, post, x, wrap_add(vx, vy), add_carry(vx, vy)) && post.program_counter
            == pc_next
    } else if k == 0x8 && t == 0x5 {
        arith_effect(pre, post, x, wrap_sub(vx, vy), sub_borrow(vx, vy)) && post.program_counter
            == pc_next
    } else if k == 0x8 && t == 0x6 {
        arith_effect(pre, post, x, shr1(vy), low_bit(vy)) && post.program_counter == pc_next
    } else if k == 0x8 && t == 0x7 {
        arith_effect(pre, post, x, wrap_sub(vy, vx), sub_borrow(vy, vx)) && post.program_counter
            == pc_next
    } else if k == 0x8 && t == 0xE {
        arith_effect(pre, post, x, shl1(vy), high_bit(vy)) && post.program_counter == pc_next
    } else if k == 0x9 && t == 0x0 {
        unchanged_core(pre, post) && post.program_counter == pre.program_counter + (
        if vx != vy {
            2 * INSTRUCTION_SIZE as int
        } else {
            INSTRUCTION_SIZE as int
        })
    } else if k == 0xA {
        post.index_register == nnn_field(w) && unchanged_except_index(pre, post)
            && post.program_counter == pc_next
    } else if k == 0xB {
        unchanged_core(pre, post) && post.program_counter == nnn_field(w)
            + pre.registers@[0]
    } else if k == 0xC {
        random_effect(pre, post, x, nn_field(w)) && post.program_counter == pc_next
    } else if k == 0xD {
        draw_effect(pre, post, x, y, t) && post.program_counter == pc_next
    } else {
        false
    }
}

/// The memory image after a program image `data` has been copied in at
/// `PROGRAM_START`, truncated where it would run past the end of memory.
pub open spec fn loaded_memory(mem: Seq<u8>, data: Seq<u8>) -> Seq<u8> {
    Seq::new(
        mem.len(),
        |i: int|
            if PROGRAM_START <= i < PROGRAM_START + data.len() {
                data[i - PROGRAM_START]
            } else {
                mem[i]
            },
    )
}

fn zeros_u8(n: usize) -> (v: Vec<u8>)
    ensures
        v@.len() == n,
        forall|i: int| 0 <= i < n ==> v@[i] == 0,
{
    let mut v: Vec<u8> = Vec::new();
    while v.len() < n
        invariant
            v@.len() <= n,
            forall|i: int| 0 <= i < v@.len() ==> v@[i] == 0,
        decreases n - v@.len(),
    {
        v.push(0);
    }
    v
}

fn zeros_u64(n: usize) -> (v: Vec<u64>)
    ensures
        v@.len() == n,
        forall|i: int| 0 <= i < n ==> v@[i] == 0,
{
    let mut v: Vec<u64> = Vec::new();
    while v.len() < n
        invariant
            v@.len() <= n,
            forall|i: int| 0 <= i < v@.len() ==> v@[i] == 0,
        decreases n - v@.len(),
    {
        v.push(0);
    }
    v
}

fn zeros_usize(n: usize) -> (v: Vec<usize>)
    ensures
        v@.len() == n,
        forall|i: int| 0 <= i < n ==> v@[i] == 0,
{
    let mut v: Vec<usize> = Vec::new();
    while v.len() < n
        invariant
            v@.len() <= n,
            forall|i: int| 0 <= i < v@.len() ==> v@[i] == 0,
        decreases n - v@.len(),
    {
        v.push(0);
    }
    v
}

fn falses(n: usize) -> (v: Vec<bool>)
    ensures
        v@.len() == n,
        forall|i: int| 0 <= i < n ==> v@[i] == false,
{
    let mut v: Vec<bool> = Vec::new();
    while v.len() < n
        invariant
            v@.len() <= n,
            forall|i: int| 0 <= i < v@.len() ==> v@[i] == false,
        decreases n - v@.len(),
    {
        v.push(false);
    }
    v
}

impl Chip8 {
    /// Produces the zeroed reset configuration. The host establishes the
    /// program entry point in `program_counter` before the first step.
    pub fn new() -> (c: Chip8)
        ensures
            c.wf(),
            forall|i: int| 0 <= i < REGISTER_COUNT ==> c.registers@[i] == 0,
            c.index_register == 0,
            c.program_counter == 0,
            c.stack_pointer == 0,
            forall|i: int| 0 <= i < MEMORY_SIZE ==> c.memory@[i] == 0,
            forall|i: int| 0 <= i < MAX_STACK_SIZE ==> c.stack@[i] == 0,
            c.sound_timer == 0,
            c.delay_timer == 0,
            forall|i: int| 0 <= i < KEYPAD_SIZE ==> c.keypad@[i] == false,
            forall|i: int| 0 <= i < SCREEN_HEIGHT ==> c.screen@[i] == 0,
            c.draw_flag == false,
    {
        Chip8 {
            registers: zeros_u8(REGISTER_COUNT),
            index_register: 0,
            program_counter: 0,
            stack_pointer: 0,
            memory: zeros_u8(MEMORY_SIZE),
            stack: zeros_usize(MAX_STACK_SIZE),
            sound_timer: 0,
            delay_timer: 0,
            keypad: falses(KEYPAD_SIZE),
            screen: zeros_u64(SCREEN_HEIGHT),
            draw_flag: false,
        }
    }

    /// Loads bytes of data into memory starting from address `PROGRAM_START`,
    /// truncated where the data would run past the end of memory.
    pub fn load(&mut self, data: &[u8])
        requires
            old(self).wf(),
        ensures
            final(self).wf(),
            final(self).memory@ == loaded_memory(old(self).memory@, data@),
            unchanged_except_memory(*old(self), *final(self)),
            final(self).program_counter == old(self).program_counter,
    {
        let max_length: usize = MEMORY_SIZE - PROGRAM_START;
        let count: usize = if data.len() < max_length {
            data.len()
        } else {
            max_length
        };
        let mut i: usize = 0;
        while i < count
            invariant
                old(self).wf(),
                self.wf(),
                i <= count,
                count <= data@.len(),
                count <= MEMORY_SIZE - PROGRAM_START,
                forall|j: int|
                    PROGRAM_START <= j < PROGRAM_START + i ==> self.memory@[j] == data@[j
                        - PROGRAM_START],
                forall|j: int|
                    (0 <= j < PROGRAM_START || PROGRAM_START + i <= j < MEMORY_SIZE)
                        ==> self.memory@[j] == old(self).memory@[j],
                unchanged_except_memory(*old(self), *self),
                self.program_counter == old(self).program_counter,
            decreases count - i,
        {
            self.memory.set(PROGRAM_START + i, data[i]);
            i = i + 1;
        }
        proof {
            assert(self.memory@ =~= loaded_memory(old(self).memory@, data@));
        }
    }

    /// Emulates one tick of the processor: fetches the word at the program
    /// counter, decodes it, runs the selected instruction and commits the
    /// next program-counter value. On failure — an unsupported word, an
    /// out-of-bounds fetch or sprite access, or a call-stack fault — the state
    /// is left untouched and the failure is reported; `step_failure` says
    /// exactly which steps fail and with which error.
    pub fn emulate_cycle(&mut self) -> (r: Result<(), StepError>)
        requires
            old(self).wf(),
        ensures
            final(self).wf(),
            r is Ok ==> step_failure(*old(self)) is None && step_transition(
                *old(self),
                *final(self),
            ),
            r matches Err(e) ==> step_failure(*old(self)) == Some(e) && *final(self) == *old(
                self,
            ),
    {
        if self.program_counter > MEMORY_SIZE - INSTRUCTION_SIZE {
            let bad: usize = if self.program_counter >= MEMORY_SIZE {
                self.program_counter
            } else {
                MEMORY_SIZE
            };
            return Err(StepError::MemoryOutOfBounds(bad));
        }
        let op = self.fetch_opcode();
        let nibs = op.nibbles();
        let k = nibs.0;
        let t = nibs.3;
        let next: usize;
        if k == 0x0 && nibs.1 == 0x0 && nibs.2 == 0xE && t == 0x0 {
            next = self.op_00e0();
        } else if k == 0x0 && nibs.1 == 0x0 && nibs.2 == 0xE && t == 0xE {
            if self.stack_pointer == 0 {
                return Err(StepError::StackUnderflow);
            }
            next = self.op_00ee();
        } else if k == 0x1 {
            next = self.op_1nnn(op.nnn());
        } else if k == 0x2 {
            if self.stack_pointer >= MAX_STACK_SIZE {
                return Err(StepError::StackOverflow);
            }
            next = self.op_2nnn(op.nnn());
        } else if k == 0x3 {
            next = self.op_3xnn(op.x(), op.nn());
        } else if k == 0x4 {
            next = self.op_4xnn(op.x(), op.nn());
        } else if k == 0x5 && t == 0x0 {
            next = self.op_5xy0(op.x(), op.y());
        } else if k == 0x6 {
            next = self.op_6xnn(op.x(), op.nn());
        } else if k == 0x7 {
            next = self.op_7xnn(op.x(), op.nn());
        } else if k == 0x8 && t == 0x0 {
            next = self.op_8xy0(op.x(), op.y());
        } else if k == 0x8 && t == 0x1 {
            next = self.op_8xy1(op.x(), op.y());
        } else if k == 0x8 && t == 0x2 {
            next = self.op_8xy2(op.x(), op.y());
        } else if k == 0x8 && t == 0x3 {
            next = self.op_8xy3(op.x(), op.y());
        } else if k == 0x8 && t == 0x4 {
            next = self.op_8xy4(op.x(), op.y());
        } else if k == 0x8 && t == 0x5 {
            next = self.op_8xy5(op.x(), op.y());
        } else if k == 0x8 && t == 0x6 {
            next = self.op_8xy6(op.x(), op.y());
        } else if k == 0x8 && t == 0x7 {
            next = self.op_8xy7(op.x(), op.y());
        } else if k == 0x8 && t == 0xE {
            next = self.op_8xye(op.x(), op.y());
        } else if k == 0x9 && t == 0x0 {
            next = self.op_9xy0(op.x(), op.y());
        } else if k == 0xA {
            next = self.op_annn(op.nnn());
        } else if k == 0xB {
            next = self.op_bnnn(op.nnn());
        } else if k == 0xC {
            next = self.op_cxnn(op.x(), op.nn());
        } else if k == 0xD {
            let x = op.x();
            let y = op.y();
            let n = op.n();
            if n > 0 {
                let left = self.registers[x];
                if left > 56 {
                    return Err(StepError::ScreenColumnOutOfBounds(left));
                }
                let top = self.registers[y];
                if top as usize + n as usize > SCREEN_HEIGHT {
                    let bad_row: usize = if top as usize >= SCREEN_HEIGHT {
                        top as usize
                    } else {
                        SCREEN_HEIGHT
                    };
                    return Err(StepError::ScreenRowOutOfBounds(bad_row));
                }
                if self.index_register > MEMORY_SIZE - n as usize {
                    let bad_addr: usize = if self.index_register >= MEMORY_SIZE {
                        self.index_register
                    } else {
                        MEMORY_SIZE
                    };
                    return Err(StepError::MemoryOutOfBounds(bad_addr));
                }
            }
            next = self.op_dxyn(x, y, n);
        } else {
            return Err(StepError::UnsupportedInstruction(op.word));
        }
        let ghost mid = *self;
        self.program_counter = next;
        proof {
            // Committing the program counter must not lose the witness for the
            // random instruction's existential effect.
            let w = fetched_word(*old(self));
            if nib0(w) == 0xC {
                let x = x_field(w) as int;
                let nn = nn_field(w);
                let b = choose|b: u8| store_register_effect(*old(self), mid, x, b & nn);
                assert(store_register_effect(*old(self), *self, x, b & nn));
            }
        }
        Ok(())
    }

    /// Opcode: 00E0
    /// Clears the screen.
    pub fn op_00e0(&mut self) -> (next: usize)
        requires
            old(self).wf(),
            old(self).program_counter + INSTRUCTION_SIZE <= MEMORY_SIZE,
        ensures
            final(self).wf(),
            clear_screen_effect(*old(self), *final(self)),
            final(self).program_counter == old(self).program_counter,
            next == old(self).program_counter + INSTRUCTION_SIZE,
    {
        self.screen = zeros_u64(SCREEN_HEIGHT);
        self.draw_flag = true;
        self.program_counter + INSTRUCTION_SIZE
    }

    /// Opcode: 00EE
    /// Returns from the current subroutine.
    pub fn op_00ee(&mut self) -> (next: usize)
        requires
            old(self).wf(),
            old(self).stack_pointer >= 1,
        ensures
            final(self).wf(),
            return_effect(*old(self), *final(self)),
            final(self).program_counter == old(self).program_counter,
            next == old(self).stack@[old(self).stack_pointer - 1] + INSTRUCTION_SIZE,
    {
        self.stack_pointer = self.stack_pointer - 1;
        self.stack[self.stack_pointer] + INSTRUCTION_SIZE
    }

    /// Opcode: 1NNN
    /// Sets the program counter to address `nnn`.
    pub fn op_1nnn(&self, nnn: usize) -> (next: usize)
        ensures
            next == nnn,
    {
        nnn
    }

    /// Opcode: 2NNN
    /// Calls the subroutine at address `nnn`.
    pub fn op_2nnn(&mut self, nnn: usize) -> (next: usize)
        requires
            old(self).wf(),
            old(self).stack_pointer < MAX_STACK_SIZE,
            old(self).program_counter + INSTRUCTION_SIZE <= MEMORY_SIZE,
        ensures
            final(self).wf(),
            call_effect(*old(self), *final(self)),
            final(self).program_counter == old(self).program_counter,
            next == nnn,
    {
        let sp = self.stack_pointer;
        self.stack.set(sp, self.program_counter);
        self.stack_pointer = sp + 1;
        nnn
    }

    /// Opcode: 3XNN
    /// Skips the following instruction if `registers[x] == nn`.
    pub fn op_3xnn(&mut self, x: usize, nn: u8) -> (next: usize)
        requires
            old(self).wf(),
            x < REGISTER_COUNT,
            old(self).program_counter + INSTRUCTION_SIZE <= MEMORY_SIZE,
        ensures
            *final(self) == *old(self),
            next == old(self).program_counter + if old(self).registers@[x as int] == nn {
                2 * INSTRUCTION_SIZE as int
            } else {
                INSTRUCTION_SIZE as int
            },
    {
        if self.registers[x] == nn {
            self.program_counter + INSTRUCTION_SIZE * 2
        } else {
            self.program_counter + INSTRUCTION_SIZE
        }
    }

    /// Opcode: 4XNN
    /// Skips the following instruction if `registers[x] != nn`.
    pub fn op_4xnn(&mut self, x: usize, nn: u8) -> (next: usize)
        requires
            old(self).wf(),
            x < REGISTER_COUNT,
            old(self).program_counter + INSTRUCTION_SIZE <= MEMORY_SIZE,
        ensures
            *final(self) == *old(self),
            next == old(self).program_counter + if old(self).registers@[x as int] != nn {
                2 * INSTRUCTION_SIZE as int
            } else {
                INSTRUCTION_SIZE as int
            },
    {
        if self.registers[x] != nn {
            self.program_counter + INSTRUCTION_SIZE * 2
        } else {
            self.program_counter + INSTRUCTION_SIZE
        }
    }

    /// Opcode: 5XY0
    /// Skips the following instruction if `registers[x] == registers[y]`.
    pub fn op_5xy0(&mut self, x: usize, y: usize) -> (next: usize)
        requires
            old(self).wf(),
            x < REGISTER_COUNT,
            y < REGISTER_COUNT,
            old(self).program_counter + INSTRUCTION_SIZE <= MEMORY_SIZE,
        ensures
            *final(self) == *old(self),
            next == old(self).program_counter + if old(self).registers@[x as int] == old(
                self,
            ).registers@[y as int] {
                2 * INSTRUCTION_SIZE as int
            } else {
                INSTRUCTION_SIZE as int
            },
    {
        if self.registers[x] == self.registers[y] {
            self.program_counter + INSTRUCTION_SIZE * 2
        } else {
            self.program_counter + INSTRUCTION_SIZE
        }
    }

    /// Opcode: 6XNN
    /// Stores `nn` in `registers[x]`.
    pub fn op_6xnn(&mut self, x: usize, nn: u8) -> (next: usize)
        requires
            old(self).wf(),
            x < REGISTER_COUNT,
            old(self).program_counter + INSTRUCTION_SIZE <= MEMORY_SIZE,
        ensures
            final(self).wf(),
            store_register_effect(*old(self), *final(self), x as int, nn),
            final(self).program_counter == old(self).program_counter,
            next == old(self).program_counter + INSTRUCTION_SIZE,
    {
        self.registers.set(x, nn);
        self.program_counter + INSTRUCTION_SIZE
    }

    /// Opcode: 7XNN
    /// Adds `nn` to `registers[x]`, wrapping modulo 256, with no flag output.
    pub fn op_7xnn(&mut self, x: usize, nn: u8) -> (next: usize)
        requires
            old(self).wf(),
            x < REGISTER_COUNT,
            old(self).program_counter + INSTRUCTION_SIZE <= MEMORY_SIZE,
        ensures
            final(self).wf(),
            store_register_effect(
                *old(self),
                *final(self),
                x as int,
                wrap_add(old(self).registers@[x as int], nn),
            ),
            final(self).program_counter == old(self).program_counter,
            next == old(self).program_counter + INSTRUCTION_SIZE,
    {
        let sum: u16 = self.registers[x] as u16 + nn as u16;
        self.registers.set(x, (sum % 256) as u8);
        self.program_counter + INSTRUCTION_SIZE
    }

    /// Opcode: 8XY0
    /// Stores `registers[y]` in `registers[x]`.
    pub fn op_8xy0(&mut self, x: usize, y: usize) -> (next: usize)
        requires
            old(self).wf(),
            x < REGISTER_COUNT,
            y < REGISTER_COUNT,
            old(self).program_counter + INSTRUCTION_SIZE <= MEMORY_SIZE,
        ensures
            final(self).wf(),
            store_register_effect(
                *old(self),
                *final(self),
                x as int,
                old(self).registers@[y as int],
            ),
            final(self).program_counter == old(self).program_counter,
            next == old(self).program_counter + INSTRUCTION_SIZE,
    {
        let vy = self.registers[y];
        self.registers.set(x, vy);
        self.program_counter + INSTRUCTION_SIZE
    }

    /// Opcode: 8XY1
    /// ORs `registers[y]` into `registers[x]`.
    pub fn op_8xy1(&mut self, x: usize, y: usize) -> (next: usize)
        requires
            old(self).wf(),
            x < REGISTER_COUNT,
            y < REGISTER_COUNT,
            old(self).program_counter + INSTRUCTION_SIZE <= MEMORY_SIZE,
        ensures
            final(self).wf(),
            store_register_effect(
                *old(self),
                *final(self),
                x as int,
                old(self).registers@[x as int] | old(self).registers@[y as int],
            ),
            final(self).program_counter == old(self).program_counter,
            next == old(self).program_counter + INSTRUCTION_SIZE,
    {
        let v = self.registers[x] | self.registers[y];
        self.registers.set(x, v);
        self.program_counter + INSTRUCTION_SIZE
    }

    /// Opcode: 8XY2
    /// ANDs `registers[y]` into `registers[x]`.
    pub fn op_8xy2(&mut self, x: usize, y: usize) -> (next: usize)
        requires
            old(self).wf(),
            x < REGISTER_COUNT,
            y < REGISTER_COUNT,
            old(self).program_counter + INSTRUCTION_SIZE <= MEMORY_SIZE,
        ensures
            final(self).wf(),
            store_register_effect(
                *old(self),
                *final(self),
                x as int,
                old(self).registers@[x as int] & old(self).registers@[y as int],
            ),
            final(self).program_counter == old(self).program_counter,
            next == old(self).program_counter + INSTRUCTION_SIZE,
    {
        let v = self.registers[x] & self.registers[y];
        self.registers.set(x, v);
        self.program_counter + INSTRUCTION_SIZE
    }

    /// Opcode: 8XY3
    /// XORs `registers[y]` into `registers[x]`.
    pub fn op_8xy3(&mut self, x: usize, y: usize) -> (next: usize)
        requires
            old(self).wf(),
            x < REGISTER_COUNT,
            y < REGISTER_COUNT,
            old(self).program_counter + INSTRUCTION_SIZE <= MEMORY_SIZE,
        ensures
            final(self).wf(),
            store_register_effect(
                *old(self),
                *final(self),
                x as int,
                old(self).registers@[x as int] ^ old(self).registers@[y as int],
            ),
            final(self).program_counter == old(self).program_counter,
            next == old(self).program_counter + INSTRUCTION_SIZE,
    {
        let v = self.registers[x] ^ self.registers[y];
        self.registers.set(x, v);
        self.program_counter + INSTRUCTION_SIZE
    }

    /// Opcode: 8XY4
    /// Adds `registers[y]` to `registers[x]`, wrapping modulo 256, and sets
    /// register 15 to 1 exactly when the unsigned sum overflowed.
    pub fn op_8xy4(&mut self, x: usize, y: usize) -> (next: usize)
        requires
            old(self).wf(),
            x < REGISTER_COUNT,
            y < REGISTER_COUNT,
            old(self).program_counter + INSTRUCTION_SIZE <= MEMORY_SIZE,
        ensures
            final(self).wf(),
            arith_effect(
                *old(self),
                *final(self),
                x as int,
                wrap_add(old(self).registers@[x as int], old(self).registers@[y as int]),
                add_carry(old(self).registers@[x as int], old(self).registers@[y as int]),
            ),
            final(self).program_counter == old(self).program_counter,
            next == old(self).program_counter + INSTRUCTION_SIZE,
    {
        let sum: u16 = self.registers[x] as u16 + self.registers[y] as u16;
        let flag: u8 = if sum >= 256 {
            0x01
        } else {
            0x00
        };
        self.registers.set(x, (sum % 256) as u8);
        self.registers.set(FLAG_REGISTER, flag);
        self.program_counter + INSTRUCTION_SIZE
    }

    /// Opcode: 8XY5
    /// Subtracts `registers[y]` from `registers[x]`, wrapping modulo 256, and
    /// sets register 15 to 1 exactly when the subtraction borrowed.
    pub fn op_8xy5(&mut self, x: usize, y: usize) -> (next: usize)
        requires
            old(self).wf(),
            x < REGISTER_COUNT,
            y < REGISTER_COUNT,
            old(self).program_counter + INSTRUCTION_SIZE <= MEMORY_SIZE,
        ensures
            final(self).wf(),
            arith_effect(
                *old(self),
                *final(self),
                x as int,
                wrap_sub(old(self).registers@[x as int], old(self).registers@[y as int]),
                sub_borrow(old(self).registers@[x as int], old(self).registers@[y as int]),
            ),
            final(self).program_counter == old(self).program_counter,
            next == old(self).program_counter + INSTRUCTION_SIZE,
    {
        let vx = self.registers[x];
        let vy = self.registers[y];
        let diff: u8 = if vx >= vy {
            vx - vy
        } else {
            (vx as u16 + 256 - vy as u16) as u8
        };
        let flag: u8 = if vx < vy {
            0x01
        } else {
            0x00
        };
        self.registers.set(x, diff);
        self.registers.set(FLAG_REGISTER, flag);
        self.program_counter + INSTRUCTION_SIZE
    }

    /// Opcode: 8XY6
    /// Stores `registers[y]` shifted right one bit in `registers[x]` and sets
    /// register 15 to the bit shifted out.
    pub fn op_8xy6(&mut self, x: usize, y: usize) -> (next: usize)
        requires
            old(self).wf(),
            x < REGISTER_COUNT,
            y < REGISTER_COUNT,
            old(self).program_counter + INSTRUCTION_SIZE <= MEMORY_SIZE,
        ensures
            final(self).wf(),
            arith_effect(
                *old(self),
                *final(self),
                x as int,
                shr1(old(self).registers@[y as int]),
                low_bit(old(self).registers@[y as int]),
            ),
            final(self).program_counter == old(self).program_counter,
            next == old(self).program_counter + INSTRUCTION_SIZE,
    {
        let vy = self.registers[y];
        self.registers.set(x, vy / 2);
        self.registers.set(FLAG_REGISTER, vy % 2);
        self.program_counter + INSTRUCTION_SIZE
    }

    /// Opcode: 8XY7
    /// Stores `registers[y] - registers[x]`, wrapping modulo 256, in
    /// `registers[x]`, and sets register 15 to 1 exactly when the subtraction
    /// borrowed.
    pub fn op_8xy7(&mut self, x: usize, y: usize) -> (next: usize)
        requires
            old(self).wf(),
            x < REGISTER_COUNT,
            y < REGISTER_COUNT,
            old(self).program_counter + INSTRUCTION_SIZE <= MEMORY_SIZE,
        ensures
            final(self).wf(),
            arith_effect(
                *old(self),
                *final(self),
                x as int,
                wrap_sub(old(self).registers@[y as int], old(self).registers@[x as int]),
                sub_borrow(old(self).registers@[y as int], old(self).registers@[x as int]),
            ),
            final(self).program_counter == old(self).program_counter,
            next == old(self).program_counter + INSTRUCTION_SIZE,
    {
        let vx = self.registers[x];
        let vy = self.registers[y];
        let diff: u8 = if vy >= vx {
            vy - vx
        } else {
            (vy as u16 + 256 - vx as u16) as u8
        };
        let flag: u8 = if vy < vx {
            0x01
        } else {
            0x00
        };
        self.registers.set(x, diff);
        self.registers.set(FLAG_REGISTER, flag);
        self.program_counter + INSTRUCTION_SIZE
    }

    /// Opcode: 8XYE
    /// Stores `registers[y]` shifted left one bit in `registers[x]` and sets
    /// register 15 to the bit shifted out.
    pub fn op_8xye(&mut self, x: usize, y: usize) -> (next: usize)
        requires
            old(self).wf(),
            x < REGISTER_COUNT,
            y < REGISTER_COUNT,
            old(self).program_counter + INSTRUCTION_SIZE <= MEMORY_SIZE,
        ensures
            final(self).wf(),
            arith_effect(
                *old(self),
                *final(self),
                x as int,
                shl1(old(self).registers@[y as int]),
                high_bit(old(self).registers@[y as int]),
            ),
            final(self).program_counter == old(self).program_counter,
            next == old(self).program_counter + INSTRUCTION_SIZE,
    {
        let vy = self.registers[y];
        let doubled: u16 = vy as u16 * 2;
        self.registers.set(x, (doubled % 256) as u8);
        self.registers.set(FLAG_REGISTER, vy / 128);
        self.program_counter + INSTRUCTION_SIZE
    }

    /// Opcode: 9XY0
    /// Skips the following instruction if `registers[x] != registers[y]`.
    pub fn op_9xy0(&mut self, x: usize, y: usize) -> (next: usize)
        requires
            old(self).wf(),
            x < REGISTER_COUNT,
            y < REGISTER_COUNT,
            old(self).program_counter + INSTRUCTION_SIZE <= MEMORY_SIZE,
        ensures
            *final(self) == *old(self),
            next == old(self).program_counter + if old(self).registers@[x as int] != old(
                self,
            ).registers@[y as int] {
                2 * INSTRUCTION_SIZE as int
            } else {
                INSTRUCTION_SIZE as int
            },
    {
        if self.registers[x] != self.registers[y] {
            self.program_counter + INSTRUCTION_SIZE * 2
        } else {
            self.program_counter + INSTRUCTION_SIZE
        }
    }

    /// Opcode: ANNN
    /// Stores memory address `nnn` in `index_register`.
    pub fn op_annn(&mut self, nnn: usize) -> (next: usize)
        requires
            old(self).wf(),
            old(self).program_counter + INSTRUCTION_SIZE <= MEMORY_SIZE,
        ensures
            final(self).wf(),
            final(self).index_register == nnn,
            unchanged_except_index(*old(self), *final(self)),
            final(self).program_counter == old(self).program_counter,
            next == old(self).program_counter + INSTRUCTION_SIZE,
    {
        self.index_register = nnn;
        self.program_counter + INSTRUCTION_SIZE
    }

    /// Opcode: CXNN
    /// Stores a random byte ANDed with the mask `nn` in `registers[x]`.
    /// Whatever byte the generator yields, the stored value is that byte
    /// masked with `nn`.
    pub fn op_cxnn(&mut self, x: usize, nn: u8) -> (next: usize)
        requires
            old(self).wf(),
            x < REGISTER_COUNT,
            old(self).program_counter + INSTRUCTION_SIZE <= MEMORY_SIZE,
        ensures
            final(self).wf(),
            random_effect(*old(self), *final(self), x as int, nn),
            unchanged_except_registers(*old(self), *final(self)),
            final(self).program_counter == old(self).program_counter,
            next == old(self).program_counter + INSTRUCTION_SIZE,
    {
        let b: u8 = rand::random();
        let next = self.op_cxnn_with(x, nn, b);
        proof {
            assert(store_register_effect(*old(self), *self, x as int, b & nn));
        }
        next
    }

    /// The deterministic rest of the random-and-mask instruction: stores the
    /// supplied byte `b` ANDed with the mask `nn` in `registers[x]`. Taking
    /// the byte as an argument keeps the masking step checkable and the
    /// entropy source swappable.
    pub fn op_cxnn_with(&mut self, x: usize, nn: u8, b: u8) -> (next: usize)
        requires
            old(self).wf(),
            x < REGISTER_COUNT,
            old(self).program_counter + INSTRUCTION_SIZE <= MEMORY_SIZE,
        ensures
            final(self).wf(),
            store_register_effect(*old(self), *final(self), x as int, b & nn),
            final(self).program_counter == old(self).program_counter,
            next == old(self).program_counter + INSTRUCTION_SIZE,
    {
        self.registers.set(x, b & nn);
        self.program_counter + INSTRUCTION_SIZE
    }

    /// Opcode: DXYN
    /// Draws the 8-pixel-wide, `n`-pixel-tall sprite read from memory at
    /// `index_register` at position (`registers[x]`, `registers[y]`),
    /// XOR-compositing it onto the framebuffer. Sets register 15 to 1 exactly
    /// when a previously set pixel is unset, and raises the draw flag. The
    /// sprite must fit on the screen and lie within memory; a zero-height
    /// sprite touches nothing.
    pub fn op_dxyn(&mut self, x: usize, y: usize, n: u8) -> (next: usize)
        requires
            old(self).wf(),
            x < REGISTER_COUNT,
            y < REGISTER_COUNT,
            n < 16,
            n > 0 ==> old(self).registers@[x as int] <= 56,
            n > 0 ==> old(self).registers@[y as int] + n <= SCREEN_HEIGHT,
            n > 0 ==> old(self).index_register + n <= MEMORY_SIZE,
            old(self).program_counter + INSTRUCTION_SIZE <= MEMORY_SIZE,
        ensures
            final(self).wf(),
            draw_effect(*old(self), *final(self), x as int, y as int, n),
            final(self).program_counter == old(self).program_counter,
            next == old(self).program_counter + INSTRUCTION_SIZE,
    {
        let left = self.registers[x];
        let top = self.registers[y];
        self.registers.set(FLAG_REGISTER, 0x00);
        proof {
            assert(self.screen@ =~= drawn_screen_prefix(*old(self), left, top, 0));
        }

        let mut row_idx: usize = 0;
        while row_idx < n as usize
            invariant
                old(self).wf(),
                self.wf(),
                x < REGISTER_COUNT,
                y < REGISTER_COUNT,
                n < 16,
                row_idx <= n,
                left == old(self).registers@[x as int],
                top == old(self).registers@[y as int],
                n > 0 ==> left <= 56,
                n > 0 ==> top + n <= SCREEN_HEIGHT,
                n > 0 ==> old(self).index_register + n <= MEMORY_SIZE,
                self.registers@ == old(self).registers@.update(
                    FLAG_REGISTER as int,
                    if draw_collides_prefix(*old(self), left, top, row_idx as int) {
                        1u8
                    } else {
                        0u8
                    },
                ),
                self.screen@ == drawn_screen_prefix(*old(self), left, top, row_idx as int),
                unchanged_except_draw(*old(self), *self),
                self.program_counter == old(self).program_counter,
            decreases n - row_idx,
        {
            let sprite: u8 = self.memory[self.index_register + row_idx];
            let shift_amt: u8 = 56 - left;
            let row: u64 = (sprite as u64) << (shift_amt as u64);
            let screen_idx: usize = top as usize + row_idx;
            let cur: u64 = self.screen[screen_idx];
            proof {
                assert(row == sprite_row(
                    old(self).memory@[old(self).index_register + row_idx],
                    left,
                ));
                assert(cur == old(self).screen@[top + row_idx]);
            }
            if cur & row != 0 {
                self.registers.set(FLAG_REGISTER, 0x01);
                proof {
                    assert(self.registers@ =~= old(self).registers@.update(
                        FLAG_REGISTER as int,
                        1u8,
                    ));
                    assert(draw_collides_prefix(*old(self), left, top, row_idx + 1)) by {
                        assert(row_collides(*old(self), left, top, row_idx as int));
                    }
                }
            } else {
                proof {
                    if !draw_collides_prefix(*old(self), left, top, row_idx as int) {
                        assert(!row_collides(*old(self), left, top, row_idx as int));
                        assert(!draw_collides_prefix(*old(self), left, top, row_idx + 1)) by {
                            assert(forall|r: int|
                                0 <= r < row_idx + 1 ==> !#[trigger] row_collides(
                                    *old(self),
                                    left,
                                    top,
                                    r,
                                ));
                        }
                    } else {
                        assert(draw_collides_prefix(*old(self), left, top, row_idx + 1));
                    }
                }
            }
            self.screen.set(screen_idx, cur ^ row);
            proof {
                assert(self.screen@ =~= drawn_screen_prefix(
                    *old(self),
                    left,
                    top,
                    row_idx + 1,
                ));
            }
            row_idx = row_idx + 1;
        }
        self.draw_flag = true;
        self.program_counter + INSTRUCTION_SIZE
    }

    /// Fetches the 16-bit big-endian instruction word pointed to by the
    /// program counter.
    pub fn fetch_opcode(&self) -> (op: Opcode)
        requires
            self.wf(),
            self.program_counter + INSTRUCTION_SIZE <= MEMORY_SIZE,
        ensures
            op.word == fetched_word(*self),
    {
        let word: u16 = ((self.memory[self.program_counter] as u16) << 8) | (self.memory[
            self.program_counter + 1] as u16);
        Opcode::new(word)
    }

    /// Opcode: BNNN
    /// Computes the jump target `nnn + registers[0]`.
    pub fn op_bnnn(&self, nnn: usize) -> (next: usize)
        requires
            self.wf(),
            nnn < 0x1000,
        ensures
            next == nnn + self.registers@[0],
    {
        nnn + (self.registers[0] as usize)
    }
}

/// Every pixel of sprite row `r` is already set on the framebuffer row it
/// would land on.
pub open spec fn row_covered(pre: Chip8, left: u8, top: u8, r: int) -> bool {
    sprite_row(pre.memory@[pre.index_register + r], left) & !pre.screen@[top + r] == 0
}

/// Every pixel of the `n`-row sprite is already set on the framebuffer.
pub open spec fn sprite_fully_set(pre: Chip8, left: u8, top: u8, n: u8) -> bool {
    forall|r: int| 0 <= r < n ==> #[trigger] row_covered(pre, left, top, r)
}

/// Calling a subroutine and then, as the next executed instruction, returning
/// from it resumes at the instruction following the call, and leaves the stack
/// depth unchanged net of the pair.
pub proof fn lemma_call_return_round_trip(s0: Chip8, s1: Chip8, s2: Chip8)
    requires
        s0.wf(),
        s0.stack_pointer < MAX_STACK_SIZE,
        nib0(fetched_word(s0)) == 0x2,
        step_transition(s0, s1),
        is_ret(fetched_word(s1)),
        step_transition(s1, s2),
    ensures
        s2.program_counter == s0.program_counter + INSTRUCTION_SIZE,
        s2.stack_pointer == s0.stack_pointer,
{
}

/// XOR-drawing the same sprite twice at the same position returns the
/// framebuffer to its pre-draw state, and the second draw reports no collision
/// exactly when every pixel of the sprite was already set before the first
/// draw.
pub proof fn lemma_draw_twice(s0: Chip8, s1: Chip8, s2: Chip8, x: int, y: int, n: u8)
    requires
        s0.wf(),
        0 <= x < REGISTER_COUNT,
        0 <= y < REGISTER_COUNT,
        x != FLAG_REGISTER,
        y != FLAG_REGISTER,
        n < 16,
        s0.registers@[x] <= 56,
        s0.registers@[y] + n <= SCREEN_HEIGHT,
        s0.index_register + n <= MEMORY_SIZE,
        draw_effect(s0, s1, x, y, n),
        draw_effect(s1, s2, x, y, n),
    ensures
        s2.screen@ == s0.screen@,
        s2.registers@[FLAG_REGISTER as int] == 0 <==> sprite_fully_set(
            s0,
            s0.registers@[x],
            s0.registers@[y],
            n,
        ),
{
    let left = s0.registers@[x];
    let top = s0.registers@[y];
    assert(s1.registers@[x] == left);
    assert(s1.registers@[y] == top);
    assert forall|r: int| 0 <= r < s0.screen@.len() implies s2.screen@[r] == s0.screen@[r] by {
        if top <= r < top + n {
            let b = s0.memory@[s0.index_register + (r - top)];
            let row = sprite_row(b, left);
            assert(s1.screen@[r] == s0.screen@[r] ^ row);
            assert(s2.screen@[r] == (s0.screen@[r] ^ row) ^ row);
            let v = s0.screen@[r];
            assert((v ^ row) ^ row == v) by (bit_vector);
        }
    }
    assert(s2.screen@ =~= s0.screen@);
    assert forall|r: int| 0 <= r < n implies (row_collides(s1, left, top, r) <==> !row_covered(
        s0,
        left,
        top,
        r,
    )) by {
        let a = s0.screen@[top + r];
        let b = sprite_row(s0.memory@[s0.index_register + r], left);
        assert(s1.screen@[top + r] == a ^ b);
        assert(((a ^ b) & b != 0) <==> (b & !a != 0)) by (bit_vector);
    }
    if draw_collides_prefix(s1, left, top, n as int) {
        let r = choose|r: int| 0 <= r < n && #[trigger] row_collides(s1, left, top, r);
        assert(!row_covered(s0, left, top, r));
        assert(!sprite_fully_set(s0, left, top, n));
    } else {
        assert forall|r: int| 0 <= r < n implies #[trigger] row_covered(s0, left, top, r) by {
            assert(!row_collides(s1, left, top, r));
        }
        assert(sprite_fully_set(s0, left, top, n));
    }
}

} // verus!
