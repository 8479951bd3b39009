//! The machine as a mathematical value, and what one instruction does to it.
//!
//! `CpuState` is the view of a `Cpu`. `step` is the whole instruction cycle
//! as a function from a state and one random byte to the next state and the
//! outcome; the executable engine is proved to compute exactly this.
use crate::cpu::instruction::{classify, operands_of, Opcode, Operands};
use crate::keypad::{KeypadState, KEYS};
use crate::screen::{blank_pixels, draw_collides, drawn_pixels, ScreenState};
use vstd::prelude::*;

verus! {

/// Size of the address space in bytes.
pub const MEMORY_SIZE: usize = 4096;

/// Address at which a program image is loaded and execution starts.
pub const PROGRAM_START: u16 = 0x200;

/// Largest program image that fits between `PROGRAM_START` and the end of
/// memory.
pub const MAX_ROM_SIZE: usize = 3584;

/// Number of general-purpose registers.
pub const REGISTERS: usize = 16;

/// Index of the flag register, VF.
pub const FLAG: usize = 15;

/// Why the engine refused to go on.
#[derive(Clone, Copy, Debug, PartialEq, Eq, Structural)]
pub enum CpuError {
    /// The program image is larger than `MAX_ROM_SIZE`.
    RomTooLarge,
    /// The word at the program counter is no instruction, or is the offset
    /// jump, which the engine does not implement. Carries the word.
    UnhandledOpcode(u16),
    /// A return with no call to return from.
    StackUnderflow,
    /// An instruction fetch, a sprite read, a decimal store or a register
    /// block transfer reached beyond the end of memory.
    OutOfBounds,
    /// A draw instruction asked for a sprite of no rows.
    InvalidSpriteSize,
    /// A key test named a key that the pad does not have.
    InvalidKey,
}

/// Everything the machine holds.
#[verifier::ext_equal]
pub struct CpuState {
    /// Program counter.
    pub pc: u16,
    /// Memory, `MEMORY_SIZE` bytes.
    pub ram: Seq<u8>,
    /// The display.
    pub screen: ScreenState,
    /// The key pad and its latch.
    pub keypad: KeypadState,
    /// General-purpose registers V0 to VF.
    pub gpr: Seq<u8>,
    /// Index register.
    pub i: u16,
    /// Return addresses, the newest last.
    pub stack: Seq<u16>,
    /// Delay timer.
    pub delay_timer: u8,
    /// Sound timer.
    pub sound_timer: u8,
    /// Whether a wait-for-key instruction is suspended.
    pub waiting_for_key: bool,
}

/// Where a machine stands with the wait-for-key instruction.
#[derive(Clone, Copy, Debug, PartialEq, Eq, Structural)]
pub enum WaitLatch {
    /// No wait-for-key instruction is suspended.
    NotWaiting,
    /// One is suspended, and no key went down since.
    WaitingNoKey,
    /// One is suspended, and this key went down since.
    WaitingKeyReceived(u8),
}

/// A state together with the outcome of the step that led to it.
#[verifier::ext_equal]
pub struct Step {
    pub state: CpuState,
    pub result: Result<(), CpuError>,
}

/// The sixteen five-byte glyphs for the hexadecimal digits, in order.
pub open spec fn font() -> Seq<u8> {
    seq![
        0xF0u8, 0x90, 0x90, 0x90, 0xF0,
        0x20, 0x60, 0x20, 0x20, 0x70,
        0xF0, 0x10, 0xF0, 0x80, 0xF0,
        0xF0, 0x10, 0xF0, 0x10, 0xF0,
        0x90, 0x90, 0xF0, 0x10, 0x10,
        0xF0, 0x80, 0xF0, 0x10, 0xF0,
        0xF0, 0x80, 0xF0, 0x90, 0xF0,
        0xF0, 0x10, 0x20, 0x40, 0x40,
        0xF0, 0x90, 0xF0, 0x90, 0xF0,
        0xF0, 0x90, 0xF0, 0x10, 0xF0,
        0xF0, 0x90, 0xF0, 0x90, 0x90,
        0xE0, 0x90, 0xE0, 0x90, 0xE0,
        0xF0, 0x80, 0x80, 0x80, 0xF0,
        0xE0, 0x90, 0x90, 0x90, 0xE0,
        0xF0, 0x80, 0xF0, 0x80, 0xF0,
        0xF0, 0x80, 0xF0, 0x80, 0x80,
    ]
}

/// Memory right after construction: the font from address 0, the program
/// image from `PROGRAM_START`, zero everywhere else.
pub open spec fn initial_ram(rom: Seq<u8>) -> Seq<u8> {
    Seq::new(
        MEMORY_SIZE as nat,
        |a: int|
            if a < font().len() {
                font()[a]
            } else if PROGRAM_START <= a < PROGRAM_START + rom.len() {
                rom[a - PROGRAM_START]
            } else {
                0u8
            },
    )
}

/// The machine right after construction from a program image.
pub open spec fn initial_state(rom: Seq<u8>) -> CpuState {
    CpuState {
        pc: PROGRAM_START,
        ram: initial_ram(rom),
        screen: ScreenState { pixels: blank_pixels(), updated: true },
        keypad: KeypadState::idle(),
        gpr: Seq::new(REGISTERS as nat, |r: int| 0u8),
        i: 0,
        stack: Seq::empty(),
        delay_timer: 0,
        sound_timer: 0,
        waiting_for_key: false,
    }
}

/// The instruction word made of two consecutive bytes, the high byte first.
pub open spec fn word_of(high: u8, low: u8) -> u16 {
    (high * 256 + low) as u16
}

/// Bit `j` of a sprite row, counted from the left: the pixel in column `j`.
pub open spec fn row_pixel(byte: u8, j: int) -> bool {
    if j == 0 {
        byte & 0b1000_0000 != 0
    } else if j == 1 {
        byte & 0b0100_0000 != 0
    } else if j == 2 {
        byte & 0b0010_0000 != 0
    } else if j == 3 {
        byte & 0b0001_0000 != 0
    } else if j == 4 {
        byte & 0b0000_1000 != 0
    } else if j == 5 {
        byte & 0b0000_0100 != 0
    } else if j == 6 {
        byte & 0b0000_0010 != 0
    } else {
        byte & 0b0000_0001 != 0
    }
}

/// The pixels of a sprite given as one byte per row.
pub open spec fn sprite_pixels(rows: Seq<u8>) -> Seq<bool> {
    Seq::new(rows.len() * 8, |n: int| row_pixel(rows[n / 8], n % 8))
}

/// A timer one tick later: one less, and zero stays zero.
pub open spec fn ticked(timer: u8) -> u8 {
    if timer > 0 {
        (timer - 1) as u8
    } else {
        0
    }
}

/// The sum of two registers: the low eight bits, and the carry.
pub open spec fn add_with_carry(vx: u8, vy: u8) -> (u8, u8) {
    (((vx + vy) % 256) as u8, if vx + vy > 255 { 1u8 } else { 0u8 })
}

/// `vx - vy` modulo 256, and the flag: 0 when `vy > vx`, else 1.
pub open spec fn sub_with_flag(vx: u8, vy: u8) -> (u8, u8) {
    (((vx - vy) % 256) as u8, if vy > vx { 0u8 } else { 1u8 })
}

/// `vy - vx` modulo 256, and the flag: 0 when `vy > vx`, else 1.
pub open spec fn subn_with_flag(vx: u8, vy: u8) -> (u8, u8) {
    (((vy - vx) % 256) as u8, if vy > vx { 0u8 } else { 1u8 })
}

/// `vx` shifted right by one, and the bit that fell off.
pub open spec fn shr_with_flag(vx: u8) -> (u8, u8) {
    (vx / 2, vx % 2)
}

/// `vx` shifted left by one within eight bits, and the bit that fell off.
pub open spec fn shl_with_flag(vx: u8) -> (u8, u8) {
    (((vx * 2) % 256) as u8, vx / 128)
}

/// The three decimal digits of a byte, hundreds first.
pub open spec fn decimal_digits(v: u8) -> (u8, u8, u8) {
    (v / 100, (v / 10) % 10, v % 10)
}

impl CpuState {
    /// The sizes that every machine has.
    pub open spec fn well_formed(self) -> bool {
        &&& self.ram.len() == MEMORY_SIZE
        &&& self.gpr.len() == REGISTERS
        &&& self.screen.well_formed()
        &&& self.keypad.well_formed()
    }

    /// Where the machine stands with the wait-for-key instruction.
    pub open spec fn wait_latch(self) -> WaitLatch {
        if !self.waiting_for_key {
            WaitLatch::NotWaiting
        } else if self.keypad.new_key {
            WaitLatch::WaitingKeyReceived(self.keypad.last_key)
        } else {
            WaitLatch::WaitingNoKey
        }
    }

    /// The word at the program counter, if both its bytes are in memory.
    pub open spec fn fetch(self) -> Option<u16> {
        if self.pc + 1 < MEMORY_SIZE {
            Some(word_of(self.ram[self.pc as int], self.ram[self.pc + 1]))
        } else {
            None
        }
    }

    /// This state as the successful outcome of a step.
    pub open spec fn done(self) -> Step {
        Step { state: self, result: Ok(()) }
    }

    /// This state as the outcome of a step that failed.
    pub open spec fn failed(self, error: CpuError) -> Step {
        Step { state: self, result: Err(error) }
    }

    /// The program counter moved by `by` bytes.
    pub open spec fn moved(self, by: int) -> CpuState {
        CpuState { pc: (self.pc + by) as u16, ..self }
    }

    /// The next instruction skipped if `condition` holds.
    pub open spec fn skipping(self, condition: bool) -> CpuState {
        if condition {
            self.moved(2)
        } else {
            self
        }
    }

    /// Register `x` set to `value`.
    pub open spec fn with_register(self, x: int, value: u8) -> CpuState {
        CpuState { gpr: self.gpr.update(x, value), ..self }
    }

    /// The flag register set to `flag`, then register `x` set to `value`.
    /// Where `x` is the flag register itself, `value` is what stays.
    pub open spec fn with_flagged(self, x: int, result: (u8, u8)) -> CpuState {
        CpuState { gpr: self.gpr.update(FLAG as int, result.1).update(x, result.0), ..self }
    }

    /// The display cleared. Whether it is due to be painted stays as it was.
    pub open spec fn cleared(self) -> CpuState {
        CpuState {
            screen: ScreenState { pixels: blank_pixels(), updated: self.screen.updated },
            ..self
        }
    }

    /// The sprite of `rows` rows at the index register, drawn at the
    /// position that registers `x` and `y` hold; the flag register tells
    /// whether a lit pixel was turned off. A sprite of no rows, or one that
    /// reaches beyond the end of memory, fails.
    pub open spec fn draw(self, x: int, y: int, rows: u8) -> Step {
        if rows == 0 {
            self.failed(CpuError::InvalidSpriteSize)
        } else if self.i + rows > MEMORY_SIZE {
            self.failed(CpuError::OutOfBounds)
        } else {
            let sprite = sprite_pixels(self.ram.subrange(self.i as int, self.i + rows));
            let (vx, vy) = (self.gpr[x], self.gpr[y]);
            CpuState {
                screen: ScreenState {
                    pixels: drawn_pixels(self.screen.pixels, vx, vy, sprite),
                    updated: true,
                },
                gpr: self.gpr.update(
                    FLAG as int,
                    if draw_collides(self.screen.pixels, vx, vy, sprite) {
                        1u8
                    } else {
                        0u8
                    },
                ),
                ..self
            }.done()
        }
    }

    /// The three decimal digits of `value` stored at the index register and
    /// the two addresses after it, if all three are in memory.
    pub open spec fn store_decimal(self, value: u8) -> Step {
        if self.i + 2 >= MEMORY_SIZE {
            self.failed(CpuError::OutOfBounds)
        } else {
            let digits = decimal_digits(value);
            CpuState {
                ram: self.ram.update(self.i as int, digits.0).update(self.i + 1, digits.1).update(
                    self.i + 2,
                    digits.2,
                ),
                ..self
            }.done()
        }
    }

    /// Registers V0 to V`last` copied to memory from the index register on,
    /// if all of that is in memory. The index register stays.
    pub open spec fn store_registers(self, last: int) -> Step {
        if self.i + last >= MEMORY_SIZE {
            self.failed(CpuError::OutOfBounds)
        } else {
            CpuState {
                ram: Seq::new(
                    self.ram.len(),
                    |a: int|
                        if self.i <= a <= self.i + last {
                            self.gpr[a - self.i]
                        } else {
                            self.ram[a]
                        },
                ),
                ..self
            }.done()
        }
    }

    /// Memory from the index register on copied to registers V0 to
    /// V`last`, if all of that is in memory. The index register stays.
    pub open spec fn fetch_registers(self, last: int) -> Step {
        if self.i + last >= MEMORY_SIZE {
            self.failed(CpuError::OutOfBounds)
        } else {
            CpuState {
                gpr: Seq::new(
                    self.gpr.len(),
                    |r: int|
                        if r <= last {
                            self.ram[self.i + r]
                        } else {
                            self.gpr[r]
                        },
                ),
                ..self
            }.done()
        }
    }

    /// The wait-for-key instruction with register `x`, the program counter
    /// already standing behind it.
    ///
    /// Not yet waiting: start to wait, arm the pad's latch and step back
    /// onto the instruction. Waiting with no new key: step back again.
    /// Waiting with a new key: stop waiting, put the key into register `x`
    /// and go on.
    pub open spec fn wait_for_key(self, x: int) -> CpuState {
        if !self.waiting_for_key {
            CpuState { waiting_for_key: true, keypad: self.keypad.armed(), ..self }.moved(-2)
        } else if self.keypad.new_key {
            CpuState { waiting_for_key: false, ..self }.with_register(x, self.keypad.last_key)
        } else {
            self.moved(-2)
        }
    }

    /// The effect of the instruction `word`, the program counter already
    /// standing behind it. `random` is the byte that a random instruction
    /// draws.
    ///
    /// Every instruction reads its operands before it writes anything. An
    /// instruction that sets the flag register writes the flag first and
    /// its result second, so the result is what stays where both go to VF.
    /// Adding to the index register wraps around at 16 bits and sets no
    /// flag. No instruction but a return fails for the stack's sake: the
    /// stack has no limit.
    pub open spec fn execute(self, word: u16, random: u8) -> Step {
        self.apply(classify(word), operands_of(word), word, random)
    }

    /// The effect of an instruction of kind `opcode` with operands `ops`,
    /// decoded from `word`. See `execute`.
    #[verifier::opaque]
    pub open spec fn apply(self, opcode: Opcode, ops: Operands, word: u16, random: u8) -> Step {
        let x = ops.reg_x as int;
        let y = ops.reg_y as int;
        let vx = self.gpr[x];
        let vy = self.gpr[y];
        match opcode {
            Opcode::Invalid | Opcode::B => self.failed(CpuError::UnhandledOpcode(word)),
            Opcode::Cls => self.cleared().done(),
            Opcode::Ret => if self.stack.len() == 0 {
                self.failed(CpuError::StackUnderflow)
            } else {
                CpuState { pc: self.stack.last(), stack: self.stack.drop_last(), ..self }.done()
            },
            Opcode::Jp => CpuState { pc: ops.address, ..self }.done(),
            Opcode::Call => CpuState {
                pc: ops.address,
                stack: self.stack.push(self.pc),
                ..self
            }.done(),
            Opcode::Sei => self.skipping(vx == ops.imm).done(),
            Opcode::Snei => self.skipping(vx != ops.imm).done(),
            Opcode::Se => self.skipping(vx == vy).done(),
            Opcode::Sne => self.skipping(vx != vy).done(),
            Opcode::Ldi => self.with_register(x, ops.imm).done(),
            Opcode::Addi => self.with_register(x, ((vx + ops.imm) % 256) as u8).done(),
            Opcode::Ld => self.with_register(x, vy).done(),
            Opcode::Or => self.with_register(x, vx | vy).done(),
            Opcode::And => self.with_register(x, vx & vy).done(),
            Opcode::Xor => self.with_register(x, vx ^ vy).done(),
            Opcode::Add => self.with_flagged(x, add_with_carry(vx, vy)).done(),
            Opcode::Sub => self.with_flagged(x, sub_with_flag(vx, vy)).done(),
            Opcode::Subn => self.with_flagged(x, subn_with_flag(vx, vy)).done(),
            Opcode::Shr => self.with_flagged(x, shr_with_flag(vx)).done(),
            Opcode::Shl => self.with_flagged(x, shl_with_flag(vx)).done(),
            Opcode::Seti => CpuState { i: ops.address, ..self }.done(),
            Opcode::Rnd => self.with_register(x, random & ops.imm).done(),
            Opcode::Drw => self.draw(x, y, ops.imm),
            Opcode::Skp => if vx >= KEYS {
                self.failed(CpuError::InvalidKey)
            } else {
                self.skipping(self.keypad.keys[vx as int]).done()
            },
            Opcode::Sknp => if vx >= KEYS {
                self.failed(CpuError::InvalidKey)
            } else {
                self.skipping(!self.keypad.keys[vx as int]).done()
            },
            Opcode::Lddt => self.with_register(x, self.delay_timer).done(),
            Opcode::Ldkp => self.wait_for_key(x).done(),
            Opcode::Setdt => CpuState { delay_timer: vx, ..self }.done(),
            Opcode::Setst => CpuState { sound_timer: vx, ..self }.done(),
            Opcode::Addir => CpuState { i: ((self.i + vx) % 0x1_0000) as u16, ..self }.done(),
            Opcode::Setis => CpuState { i: (vx * 5) as u16, ..self }.done(),
            Opcode::Ibcd => self.store_decimal(vx),
            Opcode::Stri => self.store_registers(x),
            Opcode::Fetch => self.fetch_registers(x),
        }
    }

    /// One instruction cycle: fetch the word at the program counter, move
    /// the counter behind it, then carry the instruction out. A fetch
    /// beyond the end of memory fails and leaves the machine as it was; an
    /// instruction that fails leaves the machine as it was but for the
    /// counter, which stands behind the instruction.
    pub open spec fn step(self, random: u8) -> Step {
        match self.fetch() {
            None => self.failed(CpuError::OutOfBounds),
            Some(word) => self.moved(2).execute(word, random),
        }
    }

    /// Whether the next step draws a random byte.
    pub open spec fn draws_random(self) -> bool {
        match self.fetch() {
            None => false,
            Some(word) => classify(word) == Opcode::Rnd,
        }
    }

    /// One tick of both timers.
    pub open spec fn tick(self) -> CpuState {
        CpuState {
            delay_timer: ticked(self.delay_timer),
            sound_timer: ticked(self.sound_timer),
            ..self
        }
    }

    /// The state after `n` ticks.
    pub open spec fn ticks(self, n: nat) -> CpuState
        decreases n,
    {
        if n == 0 {
            self
        } else {
            self.tick().ticks((n - 1) as nat)
        }
    }

    /// The state after one step for each byte of `randoms`, the host going
    /// on whatever a step returns.
    pub open spec fn run(self, randoms: Seq<u8>) -> CpuState
        decreases randoms.len(),
    {
        if randoms.len() == 0 {
            self
        } else {
            self.step(randoms[0]).state.run(randoms.drop_first())
        }
    }
}

} // verus!
