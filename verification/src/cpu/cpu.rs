//! The execution engine: the machine's registers, memory, stack and timers,
//! and the instruction cycle that drives them.
use crate::cpu::alu::{
    add_immediate, add_registers, digits_of, shift_left, shift_right, sub_registers,
    subn_registers,
};
use crate::cpu::instruction::{lemma_operands_in_range, Instruction, Opcode, Operands};
use crate::cpu::state::{
    font, initial_state, row_pixel, sprite_pixels, CpuError, CpuState, Step, WaitLatch,
    MAX_ROM_SIZE, MEMORY_SIZE, PROGRAM_START, REGISTERS,
};
use crate::keypad::{Keypad, KEYS};
use crate::screen::{lit_rects, scale_for, PixelRect, Screen, ScreenState, HEIGHT, PIXELS, WIDTH};
use vstd::pervasive::unreached;
use vstd::prelude::*;

verus! {

/// The machine. Its view is a `CpuState`.
///
/// The call stack grows without a limit of its own: a call always succeeds,
/// and only a return from an empty stack fails.
pub struct Cpu {
    pc: u16,
    ram: [u8; 4096],
    screen: Screen,
    pub keypad: Keypad,
    gpr: [u8; 16],
    i: u16,
    stack: Vec<u16>,
    delay_timer: u8,
    sound_timer: u8,
    waiting_for_key: bool,
}

impl View for Cpu {
    type V = CpuState;

    closed spec fn view(&self) -> CpuState {
        CpuState {
            pc: self.pc,
            ram: self.ram@,
            screen: self.screen@,
            keypad: self.keypad@,
            gpr: self.gpr@,
            i: self.i,
            stack: self.stack@,
            delay_timer: self.delay_timer,
            sound_timer: self.sound_timer,
            waiting_for_key: self.waiting_for_key,
        }
    }
}

/// Draws one byte from the thread's random number generator.
///
/// Calls `rand::random::<u8>()`, which is `rand::thread_rng().gen()`.
/// Nothing is claimed of the byte that comes back: any of the 256 values
/// may. The generator seeds itself from the operating system when a thread
/// first uses it, and panics if the system has no entropy to give; that is
/// outside of what is proved here.
#[verifier::external_body]
fn random_byte() -> (byte: u8) {
    rand::random::<u8>()
}

/// The instruction kinds that compute a register and cannot fail.
spec fn computes_register(opcode: Opcode) -> bool {
    matches!(
        opcode,
        Opcode::Ldi | Opcode::Addi | Opcode::Ld | Opcode::Or | Opcode::And | Opcode::Xor | Opcode::Add | Opcode::Sub | Opcode::Subn | Opcode::Shr | Opcode::Shl | Opcode::Rnd | Opcode::Lddt
    )
}

/// The instruction kinds that steer the program.
spec fn steers_program(opcode: Opcode) -> bool {
    matches!(
        opcode,
        Opcode::Invalid | Opcode::B | Opcode::Cls | Opcode::Ret | Opcode::Jp | Opcode::Call | Opcode::Sei | Opcode::Snei | Opcode::Se | Opcode::Sne | Opcode::Skp | Opcode::Sknp | Opcode::Ldkp
    )
}

/// The instruction kinds that work on memory, the index register, the
/// timers and the display.
spec fn works_on_memory(opcode: Opcode) -> bool {
    matches!(
        opcode,
        Opcode::Seti | Opcode::Drw | Opcode::Setdt | Opcode::Setst | Opcode::Addir | Opcode::Setis | Opcode::Ibcd | Opcode::Stri | Opcode::Fetch
    )
}

impl Cpu {
    /// A machine with the font at the bottom of memory, the program image
    /// `rom` from `PROGRAM_START` on, and everything else zero. An image
    /// that does not fit into memory is refused.
    pub fn new(rom: &Vec<u8>) -> (made: Result<Cpu, CpuError>)
        ensures
            rom.len() <= MAX_ROM_SIZE ==> made is Ok && made->Ok_0@ == initial_state(rom@),
            rom.len() > MAX_ROM_SIZE ==> made == Err::<Cpu, CpuError>(CpuError::RomTooLarge),
    {
        if rom.len() > MAX_ROM_SIZE {
            return Err(CpuError::RomTooLarge);
        }
        let mut ret = Cpu {
            pc: PROGRAM_START,
            ram: [0; 4096],
            screen: Screen::new(),
            keypad: Keypad::new(),
            gpr: [0; 16],
            i: 0,
            stack: Vec::new(),
            delay_timer: 0,
            sound_timer: 0,
            waiting_for_key: false,
        };
        let mut x: usize = 0;
        while x < rom.len()
            invariant
                x <= rom.len() <= MAX_ROM_SIZE,
                forall|a: int|
                    0 <= a < MEMORY_SIZE ==> ret.ram@[a] == (if PROGRAM_START <= a < PROGRAM_START
                        + x {
                        rom@[a - PROGRAM_START]
                    } else {
                        0u8
                    }),
                ret.pc == PROGRAM_START,
                ret.screen@ == initial_state(rom@).screen,
                ret.keypad@ == initial_state(rom@).keypad,
                ret.gpr@ =~= initial_state(rom@).gpr,
                ret.i == 0,
                ret.stack@ =~= Seq::<u16>::empty(),
                ret.delay_timer == 0,
                ret.sound_timer == 0,
                !ret.waiting_for_key,
            decreases rom.len() - x,
        {
            ret.ram[0x200 + x] = rom[x];
            x += 1;
        }
        Cpu::load_sprites(&mut ret.ram);
        assert(ret.ram@ =~= initial_state(rom@).ram);
        assert(ret@ =~= initial_state(rom@));
        Ok(ret)
    }

    /// Writes the font to the bottom of memory.
    fn load_sprites(ram: &mut [u8; 4096])
        ensures
            forall|a: int| 0 <= a < font().len() ==> final(ram)@[a] == font()[a],
            forall|a: int| font().len() <= a < MEMORY_SIZE ==> final(ram)@[a] == old(ram)@[a],
    {
        let sprites: [u8; 80] = [
            0xF0, 0x90, 0x90, 0x90, 0xF0,
            0x20, 0x60, 0x20, 0x20, 0x70,
            0xF0, 0x10, 0xF0, 0x80, 0xF0,
            0xF0, 0x10, 0xF0, 0x10, 0xF0,
            0x90, 0x90, 0xF0, 0x10, 0x10,
            0xF0, 0x80, 0xF0, 0x10, 0xF0,
            0xF0, 0x80, 0xF0, 0x90, 0xF0,
            0xF0, 0x10, 0x20, 0x40, 0x40,
            0xF0, 0x90, 0xF0, 0x90, 0xF0,
            0xF0, 0x90, 0xF0, 0x10, 0xF0,
            0xF0, 0x90, 0xF0, 0x90, 0x90,
            0xE0, 0x90, 0xE0, 0x90, 0xE0,
            0xF0, 0x80, 0x80, 0x80, 0xF0,
            0xE0, 0x90, 0x90, 0x90, 0xE0,
            0xF0, 0x80, 0xF0, 0x80, 0xF0,
            0xF0, 0x80, 0xF0, 0x80, 0x80,
        ];
        assert(sprites@ =~= font());
        let mut k: usize = 0;
        while k < 80
            invariant
                k <= 80,
                sprites@ == font(),
                font().len() == 80,
                forall|a: int| 0 <= a < k ==> ram@[a] == font()[a],
                forall|a: int| k <= a < MEMORY_SIZE ==> ram@[a] == old(ram)@[a],
            decreases 80 - k,
        {
            ram[k] = sprites[k];
            k += 1;
        }
    }

    /// The sprite of `rows` rows that starts at the index register.
    fn sprite_at_index(&self, rows: u8) -> (sprite: Vec<bool>)
        requires
            self.i + rows <= MEMORY_SIZE,
        ensures
            sprite@ == sprite_pixels(self@.ram.subrange(self@.i as int, self@.i + rows)),
    {
        let mut sprite: Vec<bool> = Vec::new();
        let base: usize = self.i as usize;
        let ghost bytes = self.ram@.subrange(self.i as int, self.i + rows);
        let mut offset: usize = 0;
        while offset < rows as usize
            invariant
                offset <= rows,
                base == self.i,
                base + rows <= MEMORY_SIZE,
                bytes == self.ram@.subrange(self.i as int, self.i + rows),
                sprite@.len() == offset * 8,
                forall|n: int|
                    0 <= n < offset * 8 ==> sprite@[n] == row_pixel(
                        bytes[n / 8],
                        n % 8,
                    ),
            decreases rows - offset,
        {
            let byte = self.ram[base + offset];
            assert(byte == bytes[offset as int]);
            sprite.push((byte & 0b1000_0000) != 0);
            sprite.push((byte & 0b0100_0000) != 0);
            sprite.push((byte & 0b0010_0000) != 0);
            sprite.push((byte & 0b0001_0000) != 0);
            sprite.push((byte & 0b0000_1000) != 0);
            sprite.push((byte & 0b0000_0100) != 0);
            sprite.push((byte & 0b0000_0010) != 0);
            sprite.push((byte & 0b0000_0001) != 0);
            offset += 1;
        }
        assert(sprite@ =~= sprite_pixels(bytes));
        sprite
    }

    /// Copies registers V0 to V`last` to memory from the index register on.
    fn store_registers(&mut self, last: u8) -> (done: Result<(), CpuError>)
        requires
            last < REGISTERS,
        ensures
            (Step { state: final(self)@, result: done }) == old(self)@.store_registers(last as int),
    {
        if self.i as usize + last as usize >= MEMORY_SIZE {
            return Err(CpuError::OutOfBounds);
        }
        let base: usize = self.i as usize;
        let mut x: usize = 0;
        while x <= last as usize
            invariant
                x <= last + 1,
                last < REGISTERS,
                base == self.i,
                base + last < MEMORY_SIZE,
                forall|a: int|
                    0 <= a < MEMORY_SIZE ==> self.ram@[a] == (if base <= a < base + x {
                        self.gpr@[a - base]
                    } else {
                        old(self).ram@[a]
                    }),
                self.pc == old(self).pc,
                self.screen == old(self).screen,
                self.keypad == old(self).keypad,
                self.gpr == old(self).gpr,
                self.i == old(self).i,
                self.stack == old(self).stack,
                self.delay_timer == old(self).delay_timer,
                self.sound_timer == old(self).sound_timer,
                self.waiting_for_key == old(self).waiting_for_key,
            decreases last + 1 - x,
        {
            self.ram[base + x] = self.gpr[x];
            x += 1;
        }
        assert(self@.ram =~= old(self)@.store_registers(last as int).state.ram);
        Ok(())
    }

    /// Copies memory from the index register on to registers V0 to V`last`.
    fn fetch_registers(&mut self, last: u8) -> (done: Result<(), CpuError>)
        requires
            last < REGISTERS,
        ensures
            (Step { state: final(self)@, result: done }) == old(self)@.fetch_registers(last as int),
    {
        if self.i as usize + last as usize >= MEMORY_SIZE {
            return Err(CpuError::OutOfBounds);
        }
        let base: usize = self.i as usize;
        let mut x: usize = 0;
        while x <= last as usize
            invariant
                x <= last + 1,
                last < REGISTERS,
                base == self.i,
                base + last < MEMORY_SIZE,
                forall|r: int|
                    0 <= r < REGISTERS ==> self.gpr@[r] == (if r < x {
                        self.ram@[base + r]
                    } else {
                        old(self).gpr@[r]
                    }),
                self.pc == old(self).pc,
                self.screen == old(self).screen,
                self.keypad == old(self).keypad,
                self.ram == old(self).ram,
                self.i == old(self).i,
                self.stack == old(self).stack,
                self.delay_timer == old(self).delay_timer,
                self.sound_timer == old(self).sound_timer,
                self.waiting_for_key == old(self).waiting_for_key,
            decreases last + 1 - x,
        {
            self.gpr[x] = self.ram[base + x];
            x += 1;
        }
        assert(self@.gpr =~= old(self)@.fetch_registers(last as int).state.gpr);
        Ok(())
    }

    /// Sets the flag register to `flag`, then register `x` to `value`.
    fn set_flagged(&mut self, x: u8, value: u8, flag: u8)
        requires
            x < REGISTERS,
        ensures
            final(self)@ == old(self)@.with_flagged(x as int, (value, flag)),
    {
        self.gpr[0xF] = flag;
        self.gpr[x as usize] = value;
    }

    /// Sets register `x` to `value`.
    fn set_register(&mut self, x: u8, value: u8)
        requires
            x < REGISTERS,
        ensures
            final(self)@ == old(self)@.with_register(x as int, value),
    {
        self.gpr[x as usize] = value;
    }

    /// Skips the next instruction if `condition` holds.
    fn skip_if(&mut self, condition: bool)
        requires
            old(self).pc <= MEMORY_SIZE,
        ensures
            final(self)@ == old(self)@.skipping(condition),
    {
        if condition {
            self.pc += 2;
        }
    }

    /// Draws the sprite of `rows` rows at the index register at the
    /// position that registers `x` and `y` hold, and sets the flag register
    /// to whether that turned a lit pixel off.
    fn draw_sprite(&mut self, x: u8, y: u8, rows: u8) -> (done: Result<(), CpuError>)
        requires
            x < REGISTERS,
            y < REGISTERS,
            rows < 16,
        ensures
            (Step { state: final(self)@, result: done }) == old(self)@.draw(
                x as int,
                y as int,
                rows,
            ),
    {
        if rows == 0 {
            return Err(CpuError::InvalidSpriteSize);
        }
        if self.i as usize + rows as usize > MEMORY_SIZE {
            return Err(CpuError::OutOfBounds);
        }
        let sprite = self.sprite_at_index(rows);
        let pos_x = self.gpr[x as usize];
        let pos_y = self.gpr[y as usize];
        let vf = self.screen.draw_sprire(pos_x, pos_y, sprite);
        if vf {
            self.gpr[0xF] = 1;
        } else {
            self.gpr[0xF] = 0;
        }
        Ok(())
    }

    /// Stores the three decimal digits of `value` at the index register.
    fn store_decimal(&mut self, value: u8) -> (done: Result<(), CpuError>)
        ensures
            (Step { state: final(self)@, result: done }) == old(self)@.store_decimal(value),
    {
        if self.i as usize + 2 >= MEMORY_SIZE {
            return Err(CpuError::OutOfBounds);
        }
        let base: usize = self.i as usize;
        let (h, t, o) = digits_of(value);
        self.ram[base] = h;
        self.ram[base + 1] = t;
        self.ram[base + 2] = o;
        Ok(())
    }

    /// The wait-for-key instruction, the program counter already standing
    /// behind it.
    fn wait_for_key(&mut self, x: u8)
        requires
            x < REGISTERS,
            old(self).pc >= 2,
        ensures
            final(self)@ == old(self)@.wait_for_key(x as int),
    {
        if self.waiting_for_key {
            if self.keypad.new_key {
                self.waiting_for_key = false;
                self.gpr[x as usize] = self.keypad.get_last_key();
            } else {
                self.pc -= 2;
            }
        } else {
            self.waiting_for_key = true;
            self.keypad.set_wait();
            self.pc -= 2;
        }
    }

    /// Carries out one instruction cycle, with `random` as the byte that a
    /// random instruction draws: the machine ends in the state, and the
    /// call returns the result, that `CpuState::step` gives.
    pub fn execute_with(&mut self, random: u8) -> (done: Result<(), CpuError>)
        ensures
            (Step { state: final(self)@, result: done }) == old(self)@.step(random),
            final(self)@.well_formed(),
    {
        proof {
            self.screen.lemma_well_formed();
        }
        let at = self.pc as usize;
        if at + 1 >= MEMORY_SIZE {
            return Err(CpuError::OutOfBounds);
        }
        let instruction_bytes: u16 = (self.ram[at] as u16) * 256 + (self.ram[at + 1] as u16);
        let instr = Instruction::decode(instruction_bytes);
        self.pc += 2;
        let operands = instr.get_operands(instruction_bytes);
        proof {
            lemma_operands_in_range(instruction_bytes);
        }
        assert(self@ =~= old(self)@.moved(2));
        let done = self.apply(instr.opcode, operands, instruction_bytes, random);
        proof {
            self.screen.lemma_well_formed();
        }
        done
    }

    /// Carries out an instruction of kind `opcode` with operands
    /// `operands`, the program counter already standing behind it.
    fn apply(&mut self, opcode: Opcode, operands: Operands, word: u16, random: u8) -> (done: Result<
        (),
        CpuError,
    >)
        requires
            operands.reg_x < REGISTERS,
            operands.reg_y < REGISTERS,
            opcode == Opcode::Drw ==> operands.imm < 16,
            2 <= old(self).pc <= MEMORY_SIZE,
        ensures
            (Step { state: final(self)@, result: done }) == old(self)@.apply(
                opcode,
                operands,
                word,
                random,
            ),
    {
        match opcode {
            Opcode::Ldi
            | Opcode::Addi
            | Opcode::Ld
            | Opcode::Or
            | Opcode::And
            | Opcode::Xor
            | Opcode::Add
            | Opcode::Sub
            | Opcode::Subn
            | Opcode::Shr
            | Opcode::Shl
            | Opcode::Rnd
            | Opcode::Lddt => {
                self.apply_to_register(opcode, operands, word, random);
                Ok(())
            },
            Opcode::Invalid
            | Opcode::B
            | Opcode::Cls
            | Opcode::Ret
            | Opcode::Jp
            | Opcode::Call
            | Opcode::Sei
            | Opcode::Snei
            | Opcode::Se
            | Opcode::Sne
            | Opcode::Skp
            | Opcode::Sknp
            | Opcode::Ldkp => self.apply_control(opcode, operands, word, random),
            Opcode::Seti
            | Opcode::Drw
            | Opcode::Setdt
            | Opcode::Setst
            | Opcode::Addir
            | Opcode::Setis
            | Opcode::Ibcd
            | Opcode::Stri
            | Opcode::Fetch => self.apply_memory(opcode, operands, word, random),
        }
    }

    /// The instructions that compute a register: loads, arithmetic, logic,
    /// shifts and the random byte.
    fn apply_to_register(&mut self, opcode: Opcode, operands: Operands, word: u16, random: u8)
        requires
            operands.reg_x < REGISTERS,
            operands.reg_y < REGISTERS,
            computes_register(opcode),
        ensures
            final(self)@.done() == old(self)@.apply(opcode, operands, word, random),
    {
        proof {
            reveal(CpuState::apply);
        }
        let Operands { reg_x, reg_y, address, imm } = operands;
        let vx = self.gpr[reg_x as usize];
        let vy = self.gpr[reg_y as usize];
        match opcode {
            Opcode::Add => {
                let (value, flag) = add_registers(vx, vy);
                self.set_flagged(reg_x, value, flag);
            },
            Opcode::Addi => {
                self.set_register(reg_x, add_immediate(vx, imm));
            },
            Opcode::And => {
                self.set_register(reg_x, vx & vy);
            },
            Opcode::Ld => {
                self.set_register(reg_x, vy);
            },
            Opcode::Lddt => {
                let timer = self.delay_timer;
                self.set_register(reg_x, timer);
            },
            Opcode::Ldi => {
                self.set_register(reg_x, imm);
            },
            Opcode::Or => {
                self.set_register(reg_x, vx | vy);
            },
            Opcode::Rnd => {
                self.set_register(reg_x, random & imm);
            },
            Opcode::Shl => {
                let (value, flag) = shift_left(vx);
                self.set_flagged(reg_x, value, flag);
            },
            Opcode::Shr => {
                let (value, flag) = shift_right(vx);
                self.set_flagged(reg_x, value, flag);
            },
            Opcode::Sub => {
                let (value, flag) = sub_registers(vx, vy);
                self.set_flagged(reg_x, value, flag);
            },
            Opcode::Subn => {
                let (value, flag) = subn_registers(vx, vy);
                self.set_flagged(reg_x, value, flag);
            },
            Opcode::Xor => {
                self.set_register(reg_x, vx ^ vy);
            },
            _ => unreached(),
        }
    }

    /// The instructions that steer the program: jumps, calls, skips, the
    /// wait for a key, clearing the display, and the words that are no
    /// instruction.
    fn apply_control(&mut self, opcode: Opcode, operands: Operands, word: u16, random: u8) -> (done:
        Result<(), CpuError>)
        requires
            operands.reg_x < REGISTERS,
            operands.reg_y < REGISTERS,
            steers_program(opcode),
            2 <= old(self).pc <= MEMORY_SIZE,
        ensures
            (Step { state: final(self)@, result: done }) == old(self)@.apply(
                opcode,
                operands,
                word,
                random,
            ),
    {
        proof {
            reveal(CpuState::apply);
        }
        let Operands { reg_x, reg_y, address, imm } = operands;
        let vx = self.gpr[reg_x as usize];
        let vy = self.gpr[reg_y as usize];
        match opcode {
            Opcode::Call => {
                self.stack.push(self.pc);
                self.pc = address;
                Ok(())
            },
            Opcode::Cls => {
                self.screen.clear();
                Ok(())
            },
            Opcode::Jp => {
                self.pc = address;
                Ok(())
            },
            Opcode::Ldkp => {
                //Wait for a key press, store the value of the key in Vx.
                self.wait_for_key(reg_x);
                Ok(())
            },
            Opcode::Ret => {
                match self.stack.pop() {
                    Some(x) => {
                        self.pc = x;
                        Ok(())
                    },
                    None => Err(CpuError::StackUnderflow),
                }
            },
            Opcode::Se => {
                //Skip next instruction if Vx == Vy.
                self.skip_if(vx == vy);
                Ok(())
            },
            Opcode::Sei => {
                //Skip next instruction if Vx == kk.
                self.skip_if(vx == imm);
                Ok(())
            },
            Opcode::Skp => {
                //Skip next instruction if key with the value of Vx is pressed.
                if vx >= KEYS {
                    Err(CpuError::InvalidKey)
                } else {
                    let held = self.keypad.keys[vx as usize];
                    self.skip_if(held);
                    Ok(())
                }
            },
            Opcode::Sknp => {
                //Skip next instruction if key with the value of Vx is not pressed.
                if vx >= KEYS {
                    Err(CpuError::InvalidKey)
                } else {
                    let held = self.keypad.keys[vx as usize];
                    self.skip_if(!held);
                    Ok(())
                }
            },
            Opcode::Sne => {
                //Skip next instruction if Vx != Vy.
                self.skip_if(vx != vy);
                Ok(())
            },
            Opcode::Snei => {
                //Skip next instruction if Vx != kk.
                self.skip_if(vx != imm);
                Ok(())
            },
            Opcode::Invalid | Opcode::B => Err(CpuError::UnhandledOpcode(word)),
            _ => unreached(),
        }
    }

    /// The instructions that work on memory, the index register, the
    /// timers and the display.
    fn apply_memory(&mut self, opcode: Opcode, operands: Operands, word: u16, random: u8) -> (done:
        Result<(), CpuError>)
        requires
            operands.reg_x < REGISTERS,
            operands.reg_y < REGISTERS,
            works_on_memory(opcode),
            opcode == Opcode::Drw ==> operands.imm < 16,
        ensures
            (Step { state: final(self)@, result: done }) == old(self)@.apply(
                opcode,
                operands,
                word,
                random,
            ),
    {
        proof {
            reveal(CpuState::apply);
        }
        let Operands { reg_x, reg_y, address, imm } = operands;
        let vx = self.gpr[reg_x as usize];
        match opcode {
            Opcode::Addir => {
                //The values of I and Vx are added, and the results are stored in I.
                self.i = self.i.wrapping_add(vx as u16);
                Ok(())
            },
            Opcode::Drw => self.draw_sprite(reg_x, reg_y, imm),
            Opcode::Fetch => self.fetch_registers(reg_x),
            Opcode::Ibcd => self.store_decimal(vx),
            Opcode::Setdt => {
                //Set delay timer = Vx.
                self.delay_timer = vx;
                Ok(())
            },
            Opcode::Seti => {
                self.i = address;
                Ok(())
            },
            Opcode::Setis => {
                //Set I = location of sprite for digit Vx.
                self.i = (vx as u16) * 0x5;
                Ok(())
            },
            Opcode::Setst => {
                //Sets the sound timer to VX.
                self.sound_timer = vx;
                Ok(())
            },
            Opcode::Stri => self.store_registers(reg_x),
            _ => unreached(),
        }
    }

    /// Whether the next instruction cycle draws a random byte.
    pub fn draws_random(&self) -> (draws: bool)
        ensures
            draws == self@.draws_random(),
    {
        let at = self.pc as usize;
        if at + 1 >= MEMORY_SIZE {
            return false;
        }
        let instruction_bytes: u16 = (self.ram[at] as u16) * 256 + (self.ram[at + 1] as u16);
        let instr = Instruction::decode(instruction_bytes);
        match instr.opcode {
            Opcode::Rnd => true,
            _ => false,
        }
    }

    /// Carries out one instruction cycle: fetches the word at the program
    /// counter, moves the counter behind it and carries the instruction
    /// out. A random instruction draws its byte from the thread's random
    /// number generator, so for it the contract holds for some byte; every
    /// other instruction has the one outcome that `CpuState::step` gives.
    /// To choose the byte, call `execute_with`.
    pub fn execute_next_instruction(&mut self) -> (done: Result<(), CpuError>)
        ensures
            exists|random: u8|
                (Step { state: final(self)@, result: done }) == #[trigger] old(self)@.step(random),
            !old(self)@.draws_random() ==> (Step { state: final(self)@, result: done }) == old(
                self,
            )@.step(0),
            final(self)@.well_formed(),
    {
        let random: u8 = if self.draws_random() {
            random_byte()
        } else {
            0
        };
        self.execute_with(random)
    }

    /// Counts both timers down by one; a timer at zero stays there.
    pub fn tick_timers(&mut self)
        ensures
            final(self)@ == old(self)@.tick(),
    {
        if self.delay_timer > 0 {
            self.delay_timer -= 1;
        }
        if self.sound_timer > 0 {
            self.sound_timer -= 1;
        }
    }

    /// Whether the sound timer runs, which is when the tone sounds.
    pub fn get_sound_state(&self) -> (sounding: bool)
        ensures
            sounding == (self@.sound_timer > 0),
    {
        if self.sound_timer > 0 {
            return true;
        } else {
            return false;
        }
    }

    /// What to paint, if the display changed since it was last painted:
    /// see `Screen::draw`.
    pub fn draw(&mut self, output_width: u32, output_height: u32) -> (frame: Option<Vec<PixelRect>>)
        ensures
            !old(self)@.screen.updated ==> frame is None && final(self)@ == old(self)@,
            old(self)@.screen.updated ==> frame is Some && frame->Some_0@ == lit_rects(
                old(self)@.screen.pixels,
                scale_for(output_width, WIDTH),
                scale_for(output_height, HEIGHT),
                PIXELS as int,
            ) && final(self)@ == (CpuState {
                screen: ScreenState { updated: false, ..old(self)@.screen },
                ..old(self)@
            }),
    {
        self.screen.draw(output_width, output_height)
    }

    /// The program counter.
    pub fn pc(&self) -> (pc: u16)
        ensures
            pc == self@.pc,
    {
        self.pc
    }

    /// The index register.
    pub fn index(&self) -> (i: u16)
        ensures
            i == self@.i,
    {
        self.i
    }

    /// General-purpose register `x`.
    pub fn register(&self, x: usize) -> (value: u8)
        requires
            x < REGISTERS,
        ensures
            value == self@.gpr[x as int],
    {
        self.gpr[x]
    }

    /// The byte at `address`.
    pub fn memory(&self, address: usize) -> (value: u8)
        requires
            address < MEMORY_SIZE,
        ensures
            value == self@.ram[address as int],
    {
        self.ram[address]
    }

    /// How many calls are waiting for their return.
    pub fn stack_depth(&self) -> (depth: usize)
        ensures
            depth == self@.stack.len(),
    {
        self.stack.len()
    }

    /// The delay timer.
    pub fn delay_timer(&self) -> (timer: u8)
        ensures
            timer == self@.delay_timer,
    {
        self.delay_timer
    }

    /// The sound timer.
    pub fn sound_timer(&self) -> (timer: u8)
        ensures
            timer == self@.sound_timer,
    {
        self.sound_timer
    }

    /// Whether a wait-for-key instruction is suspended.
    pub fn is_waiting_for_key(&self) -> (waiting: bool)
        ensures
            waiting == self@.waiting_for_key,
    {
        self.waiting_for_key
    }

    /// Where the machine stands with the wait-for-key instruction.
    pub fn wait_latch(&self) -> (latch: WaitLatch)
        ensures
            latch == self@.wait_latch(),
    {
        if !self.waiting_for_key {
            WaitLatch::NotWaiting
        } else if self.keypad.new_key {
            WaitLatch::WaitingKeyReceived(self.keypad.get_last_key())
        } else {
            WaitLatch::WaitingNoKey
        }
    }

    /// The key pad, for the host to deliver key events to. Whatever the
    /// host does to the pad is what the machine's pad then holds; nothing
    /// else of the machine changes.
    pub fn keypad_mut(&mut self) -> (pad: &mut Keypad)
        ensures
            pad@ == old(self)@.keypad,
            final(self)@ == (CpuState { keypad: final(pad)@, ..old(self)@ }),
    {
        &mut self.keypad
    }

    /// Whether anything was drawn since the display was last painted.
    pub fn is_display_updated(&self) -> (updated: bool)
        ensures
            updated == self@.screen.updated,
    {
        self.screen.is_updated()
    }

    /// Whether the display pixel in column `x` of row `y` is lit.
    pub fn pixel(&self, x: usize, y: usize) -> (lit: bool)
        requires
            x < WIDTH,
            y < HEIGHT,
        ensures
            lit == self@.screen.pixel(x as int, y as int),
    {
        self.screen.pixel(x, y)
    }

    /// Every machine has the sizes that `CpuState::well_formed` asks for.
    pub proof fn lemma_well_formed(&self)
        ensures
            self@.well_formed(),
    {
        self.screen.lemma_well_formed();
    }
}

} // verus!
