//! Instruction decoding: the ordered table of instruction descriptors, the
//! scan that classifies a 16-bit word, and operand extraction.
//!
//! Two descriptions of the decoder live side by side. The table and its scan
//! (`table`, `spec_decode`) say how a word is classified; `classify` and
//! `operands_of` say, in plain arithmetic on the word's hexadecimal digits,
//! what comes out. `lemma_decode_classifies` proves that they agree on every
//! word.
use vstd::prelude::*;

verus! {

/// The instruction kinds, in table order.
#[derive(Clone, Copy, Debug, PartialEq, Eq, Structural)]
pub enum Opcode {
    Invalid,
    Cls,
    Ret,
    Jp,
    Call,
    Sei,
    Snei,
    Se,
    Ldi,
    Addi,
    Ld,
    Or,
    And,
    Xor,
    Add,
    Sub,
    Shr,
    Subn,
    Shl,
    Sne,
    Seti,
    B,
    Rnd,
    Drw,
    Skp,
    Sknp,
    Lddt,
    Ldkp,
    Setdt,
    Setst,
    Addir,
    Setis,
    Ibcd,
    Stri,
    Fetch,
}

/// Which bits of an instruction word carry which operand. A zero mask means
/// that the operand is absent and reads as zero.
#[derive(Clone, Copy, Debug)]
pub struct OperandEncoding {
    reg_x_mask: u16,
    reg_x_right_shift: u8,
    reg_y_mask: u16,
    reg_y_right_shift: u8,
    address_mask: u16,
    imm_mask: u16,
}

/// One row of the instruction table: a word `w` belongs to the row when
/// `w & mask == code`.
#[derive(Clone, Copy, Debug)]
pub struct Instruction {
    pub opcode: Opcode,
    pub mask: u16,
    pub code: u16,
    pub operand_encoding: OperandEncoding,
}

/// The operands of one instruction word.
#[derive(Clone, Copy, Debug, PartialEq, Eq, Structural)]
pub struct Operands {
    pub reg_x: u8,
    pub reg_y: u8,
    pub address: u16,
    pub imm: u8,
}

/// Number of rows in the instruction table.
pub const TABLE_LEN: usize = 35;

/// The operand layouts that the instruction set uses.
#[derive(Clone, Copy, Debug, PartialEq, Eq, Structural)]
pub enum Layout {
    /// No operand.
    Bare,
    /// A 12-bit address in the low three digits.
    Address,
    /// Register x in the second digit, register y in the third.
    RegXY,
    /// Register x in the second digit.
    RegX,
    /// Register x in the second digit, an 8-bit immediate in the low byte.
    RegXImm,
    /// Registers x and y, and a 4-bit immediate in the last digit.
    RegXYImm,
}

impl OperandEncoding {
    /// Every field an encoding extracts fits its operand: register indices
    /// are below 16, addresses below 4096, immediates below 256.
    #[verifier::type_invariant]
    pub closed spec fn well_formed(self) -> bool {
        &&& self.reg_x_right_shift < 16
        &&& self.reg_y_right_shift < 16
        &&& (self.reg_x_mask >> self.reg_x_right_shift) < 16
        &&& (self.reg_y_mask >> self.reg_y_right_shift) < 16
        &&& self.address_mask < 0x1000
        &&& self.imm_mask < 0x100
    }

    /// The encoding that a layout stands for.
    pub closed spec fn of_layout(layout: Layout) -> OperandEncoding {
        match layout {
            Layout::Bare => OperandEncoding {
                reg_x_mask: 0x0000,
                reg_x_right_shift: 0,
                reg_y_mask: 0x0000,
                reg_y_right_shift: 0,
                address_mask: 0x0000,
                imm_mask: 0x0000,
            },
            Layout::Address => OperandEncoding {
                reg_x_mask: 0x0000,
                reg_x_right_shift: 0,
                reg_y_mask: 0x0000,
                reg_y_right_shift: 0,
                address_mask: 0x0FFF,
                imm_mask: 0x0000,
            },
            Layout::RegXY => OperandEncoding {
                reg_x_mask: 0x0F00,
                reg_x_right_shift: 8,
                reg_y_mask: 0x00F0,
                reg_y_right_shift: 4,
                address_mask: 0x0000,
                imm_mask: 0x0000,
            },
            Layout::RegX => OperandEncoding {
                reg_x_mask: 0x0F00,
                reg_x_right_shift: 8,
                reg_y_mask: 0x0000,
                reg_y_right_shift: 0,
                address_mask: 0x0000,
                imm_mask: 0x0000,
            },
            Layout::RegXImm => OperandEncoding {
                reg_x_mask: 0x0F00,
                reg_x_right_shift: 8,
                reg_y_mask: 0x0000,
                reg_y_right_shift: 0,
                address_mask: 0x0000,
                imm_mask: 0x00FF,
            },
            Layout::RegXYImm => OperandEncoding {
                reg_x_mask: 0x0F00,
                reg_x_right_shift: 8,
                reg_y_mask: 0x00F0,
                reg_y_right_shift: 4,
                address_mask: 0x0000,
                imm_mask: 0x000F,
            },
        }
    }

    /// Mask, then shift right: what this encoding reads out of `word`.
    pub closed spec fn extract(self, word: u16) -> Operands {
        Operands {
            reg_x: ((self.reg_x_mask & word) >> self.reg_x_right_shift) as u8,
            reg_y: ((self.reg_y_mask & word) >> self.reg_y_right_shift) as u8,
            address: self.address_mask & word,
            imm: (self.imm_mask & word) as u8,
        }
    }

    fn for_layout(layout: Layout) -> (enc: OperandEncoding)
        ensures
            enc == OperandEncoding::of_layout(layout),
    {
        assert((0x0000u16 >> 0u8) < 16 && (0x0F00u16 >> 8u8) < 16 && (0x00F0u16 >> 4u8) < 16)
            by (bit_vector);
        match layout {
            Layout::Bare => OperandEncoding {
                reg_x_mask: 0x0000,
                reg_x_right_shift: 0,
                reg_y_mask: 0x0000,
                reg_y_right_shift: 0,
                address_mask: 0x0000,
                imm_mask: 0x0000,
            },
            Layout::Address => OperandEncoding {
                reg_x_mask: 0x0000,
                reg_x_right_shift: 0,
                reg_y_mask: 0x0000,
                reg_y_right_shift: 0,
                address_mask: 0x0FFF,
                imm_mask: 0x0000,
            },
            Layout::RegXY => OperandEncoding {
                reg_x_mask: 0x0F00,
                reg_x_right_shift: 8,
                reg_y_mask: 0x00F0,
                reg_y_right_shift: 4,
                address_mask: 0x0000,
                imm_mask: 0x0000,
            },
            Layout::RegX => OperandEncoding {
                reg_x_mask: 0x0F00,
                reg_x_right_shift: 8,
                reg_y_mask: 0x0000,
                reg_y_right_shift: 0,
                address_mask: 0x0000,
                imm_mask: 0x0000,
            },
            Layout::RegXImm => OperandEncoding {
                reg_x_mask: 0x0F00,
                reg_x_right_shift: 8,
                reg_y_mask: 0x0000,
                reg_y_right_shift: 0,
                address_mask: 0x0000,
                imm_mask: 0x00FF,
            },
            Layout::RegXYImm => OperandEncoding {
                reg_x_mask: 0x0F00,
                reg_x_right_shift: 8,
                reg_y_mask: 0x00F0,
                reg_y_right_shift: 4,
                address_mask: 0x0000,
                imm_mask: 0x000F,
            },
        }
    }
}

/// The operand layout of each instruction kind.
pub open spec fn layout_of(opcode: Opcode) -> Layout {
    match opcode {
        Opcode::Invalid | Opcode::Cls | Opcode::Ret | Opcode::B => Layout::Bare,
        Opcode::Jp | Opcode::Call | Opcode::Seti => Layout::Address,
        Opcode::Sei | Opcode::Snei | Opcode::Ldi | Opcode::Addi | Opcode::Rnd => Layout::RegXImm,
        Opcode::Se
        | Opcode::Ld
        | Opcode::Or
        | Opcode::And
        | Opcode::Xor
        | Opcode::Add
        | Opcode::Sub
        | Opcode::Shr
        | Opcode::Subn
        | Opcode::Shl
        | Opcode::Sne => Layout::RegXY,
        Opcode::Drw => Layout::RegXYImm,
        Opcode::Skp
        | Opcode::Sknp
        | Opcode::Lddt
        | Opcode::Ldkp
        | Opcode::Setdt
        | Opcode::Setst
        | Opcode::Addir
        | Opcode::Setis
        | Opcode::Ibcd
        | Opcode::Stri
        | Opcode::Fetch => Layout::RegX,
    }
}

/// The table row of an instruction kind with the given mask and code.
pub open spec fn row(opcode: Opcode, mask: u16, code: u16) -> Instruction {
    Instruction {
        opcode,
        mask,
        code,
        operand_encoding: OperandEncoding::of_layout(layout_of(opcode)),
    }
}

/// The instruction table. Its order is part of its meaning: decoding
/// returns the first row that a word belongs to.
pub open spec fn table() -> Seq<Instruction> {
    seq![
        row(Opcode::Invalid, 0xFFFF, 0x0000),
        row(Opcode::Cls, 0xFFFF, 0x00E0),
        row(Opcode::Ret, 0xFFFF, 0x00EE),
        row(Opcode::Jp, 0xF000, 0x1000),
        row(Opcode::Call, 0xF000, 0x2000),
        row(Opcode::Sei, 0xF000, 0x3000),
        row(Opcode::Snei, 0xF000, 0x4000),
        row(Opcode::Se, 0xF00F, 0x5000),
        row(Opcode::Ldi, 0xF000, 0x6000),
        row(Opcode::Addi, 0xF000, 0x7000),
        row(Opcode::Ld, 0xF00F, 0x8000),
        row(Opcode::Or, 0xF00F, 0x8001),
        row(Opcode::And, 0xF00F, 0x8002),
        row(Opcode::Xor, 0xF00F, 0x8003),
        row(Opcode::Add, 0xF00F, 0x8004),
        row(Opcode::Sub, 0xF00F, 0x8005),
        row(Opcode::Shr, 0xF00F, 0x8006),
        row(Opcode::Subn, 0xF00F, 0x8007),
        row(Opcode::Shl, 0xF00F, 0x800E),
        row(Opcode::Sne, 0xF00F, 0x9000),
        row(Opcode::Seti, 0xF000, 0xA000),
        row(Opcode::B, 0xF000, 0xB000),
        row(Opcode::Rnd, 0xF000, 0xC000),
        row(Opcode::Drw, 0xF000, 0xD000),
        row(Opcode::Skp, 0xF0FF, 0xE09E),
        row(Opcode::Sknp, 0xF0FF, 0xE0A1),
        row(Opcode::Lddt, 0xF0FF, 0xF007),
        row(Opcode::Ldkp, 0xF0FF, 0xF00A),
        row(Opcode::Setdt, 0xF0FF, 0xF015),
        row(Opcode::Setst, 0xF0FF, 0xF018),
        row(Opcode::Addir, 0xF0FF, 0xF01E),
        row(Opcode::Setis, 0xF0FF, 0xF029),
        row(Opcode::Ibcd, 0xF0FF, 0xF033),
        row(Opcode::Stri, 0xF0FF, 0xF055),
        row(Opcode::Fetch, 0xF0FF, 0xF065),
    ]
}

/// Index of the first table row at or after `from` that `word` belongs to,
/// or the table's length when there is none.
pub open spec fn first_match(word: u16, from: nat) -> nat
    decreases table().len() - from,
{
    if from >= table().len() {
        table().len()
    } else if table()[from as int].matches(word) {
        from
    } else {
        first_match(word, from + 1)
    }
}

/// The row that decoding `word` yields: the first row it belongs to, and
/// the `Invalid` row at the head of the table when it belongs to none.
pub open spec fn spec_decode(word: u16) -> Instruction {
    let k = first_match(word, 0);
    if k < table().len() {
        table()[k as int]
    } else {
        table()[0]
    }
}

/// The instruction kind of a word, read off its hexadecimal digits.
#[verifier::opaque]
pub open spec fn classify(word: u16) -> Opcode {
    let family = word / 0x1000;
    let last = word % 0x10;
    let low = word % 0x100;
    if family == 0x0 {
        if word == 0x00E0 {
            Opcode::Cls
        } else if word == 0x00EE {
            Opcode::Ret
        } else {
            Opcode::Invalid
        }
    } else if family == 0x1 {
        Opcode::Jp
    } else if family == 0x2 {
        Opcode::Call
    } else if family == 0x3 {
        Opcode::Sei
    } else if family == 0x4 {
        Opcode::Snei
    } else if family == 0x5 {
        if last == 0x0 {
            Opcode::Se
        } else {
            Opcode::Invalid
        }
    } else if family == 0x6 {
        Opcode::Ldi
    } else if family == 0x7 {
        Opcode::Addi
    } else if family == 0x8 {
        if last == 0x0 {
            Opcode::Ld
        } else if last == 0x1 {
            Opcode::Or
        } else if last == 0x2 {
            Opcode::And
        } else if last == 0x3 {
            Opcode::Xor
        } else if last == 0x4 {
            Opcode::Add
        } else if last == 0x5 {
            Opcode::Sub
        } else if last == 0x6 {
            Opcode::Shr
        } else if last == 0x7 {
            Opcode::Subn
        } else if last == 0xE {
            Opcode::Shl
        } else {
            Opcode::Invalid
        }
    } else if family == 0x9 {
        if last == 0x0 {
            Opcode::Sne
        } else {
            Opcode::Invalid
        }
    } else if family == 0xA {
        Opcode::Seti
    } else if family == 0xB {
        Opcode::B
    } else if family == 0xC {
        Opcode::Rnd
    } else if family == 0xD {
        Opcode::Drw
    } else if family == 0xE {
        if low == 0x9E {
            Opcode::Skp
        } else if low == 0xA1 {
            Opcode::Sknp
        } else {
            Opcode::Invalid
        }
    } else {
        if low == 0x07 {
            Opcode::Lddt
        } else if low == 0x0A {
            Opcode::Ldkp
        } else if low == 0x15 {
            Opcode::Setdt
        } else if low == 0x18 {
            Opcode::Setst
        } else if low == 0x1E {
            Opcode::Addir
        } else if low == 0x29 {
            Opcode::Setis
        } else if low == 0x33 {
            Opcode::Ibcd
        } else if low == 0x55 {
            Opcode::Stri
        } else if low == 0x65 {
            Opcode::Fetch
        } else {
            Opcode::Invalid
        }
    }
}

/// What a layout reads out of a word: register x is the second hexadecimal
/// digit, register y the third, the address the low three digits, the
/// immediate the low byte (the last digit where register y is present too).
/// Operands that the layout lacks are zero.
#[verifier::opaque]
pub open spec fn layout_operands(layout: Layout, word: u16) -> Operands {
    let x = ((word / 0x100) % 0x10) as u8;
    let y = ((word / 0x10) % 0x10) as u8;
    match layout {
        Layout::Bare => Operands { reg_x: 0, reg_y: 0, address: 0, imm: 0 },
        Layout::Address => Operands { reg_x: 0, reg_y: 0, address: word % 0x1000, imm: 0 },
        Layout::RegXY => Operands { reg_x: x, reg_y: y, address: 0, imm: 0 },
        Layout::RegX => Operands { reg_x: x, reg_y: 0, address: 0, imm: 0 },
        Layout::RegXImm => Operands { reg_x: x, reg_y: 0, address: 0, imm: (word % 0x100) as u8 },
        Layout::RegXYImm => Operands { reg_x: x, reg_y: y, address: 0, imm: (word % 0x10) as u8 },
    }
}

/// The operands that decoding and extraction yield for a word.
pub open spec fn operands_of(word: u16) -> Operands {
    layout_operands(layout_of(classify(word)), word)
}

/// Masking and shifting, restated as division and remainder.
proof fn lemma_masks(word: u16)
    ensures
        word & 0xFFFF == word,
        word & 0xF000 == (word / 0x1000) * 0x1000,
        word & 0xF00F == (word / 0x1000) * 0x1000 + word % 0x10,
        word & 0xF0FF == (word / 0x1000) * 0x1000 + word % 0x100,
        (0x0F00u16 & word) >> 8u8 == (word / 0x100) % 0x10,
        (0x00F0u16 & word) >> 4u8 == (word / 0x10) % 0x10,
        (0x0000u16 & word) >> 0u8 == 0,
        0x0FFFu16 & word == word % 0x1000,
        0x00FFu16 & word == word % 0x100,
        0x000Fu16 & word == word % 0x10,
        0x0000u16 & word == 0,
{
    assert(word & 0xFFFF == word && word & 0xF000 == (word / 0x1000) * 0x1000 && word & 0xF00F == (
    word / 0x1000) * 0x1000 + word % 0x10 && word & 0xF0FF == (word / 0x1000) * 0x1000 + word
        % 0x100 && (0x0F00u16 & word) >> 8u8 == (word / 0x100) % 0x10 && (0x00F0u16 & word) >> 4u8
        == (word / 0x10) % 0x10 && (0x0000u16 & word) >> 0u8 == 0 && 0x0FFFu16 & word == word
        % 0x1000 && 0x00FFu16 & word == word % 0x100 && 0x000Fu16 & word == word % 0x10 && 0x0000u16
        & word == 0) by (bit_vector);
}

impl Instruction {
    /// Whether `word` belongs to this row.
    pub open spec fn matches(self, word: u16) -> bool {
        word & self.mask == self.code
    }

    /// The operands this row's encoding reads out of `word`.
    pub open spec fn spec_get_operands(self, word: u16) -> Operands {
        self.operand_encoding.extract(word)
    }

    /// Classifies a 16-bit instruction word: the first table row the word
    /// belongs to, or the `Invalid` row when it belongs to none.
    pub fn decode(instruction_bytes: u16) -> (ins: Instruction)
        ensures
            ins == spec_decode(instruction_bytes),
            table().contains(ins),
            ins.opcode == classify(instruction_bytes),
            ins.spec_get_operands(instruction_bytes) == operands_of(instruction_bytes),
    {
        let mut x: usize = 0;
        while x < TABLE_LEN
            invariant
                x <= TABLE_LEN,
                table().len() == TABLE_LEN,
                first_match(instruction_bytes, 0) == first_match(instruction_bytes, x as nat),
            decreases TABLE_LEN - x,
        {
            let candidate = Instruction::entry(x);
            if Instruction::test(&candidate, instruction_bytes) {
                proof {
                    lemma_decode_classifies(instruction_bytes);
                }
                return candidate;
            }
            x += 1;
        }
        proof {
            lemma_decode_classifies(instruction_bytes);
        }
        Instruction::entry(0)
    }

    /// Whether `instruction_bytes` belongs to the row `test_code`.
    pub fn test(test_code: &Instruction, instruction_bytes: u16) -> (hit: bool)
        ensures
            hit == test_code.matches(instruction_bytes),
    {
        instruction_bytes & test_code.mask == test_code.code
    }

    /// Extracts the operands of `instruction_bytes` as this row's encoding
    /// lays them out: each field is masked, then shifted right.
    pub fn get_operands(&self, instruction_bytes: u16) -> (ops: Operands)
        ensures
            ops == self.spec_get_operands(instruction_bytes),
            ops.reg_x < 16,
            ops.reg_y < 16,
            ops.address < 0x1000,
    {
        let enc = &self.operand_encoding;
        proof {
            use_type_invariant(enc);
            lemma_extract_fits(*enc, instruction_bytes);
        }
        Operands {
            reg_x: ((enc.reg_x_mask & instruction_bytes) >> enc.reg_x_right_shift) as u8,
            reg_y: ((enc.reg_y_mask & instruction_bytes) >> enc.reg_y_right_shift) as u8,
            address: enc.address_mask & instruction_bytes,
            imm: (enc.imm_mask & instruction_bytes) as u8,
        }
    }

    fn make(opcode: Opcode, mask: u16, code: u16, layout: Layout) -> (ins: Instruction)
        requires
            layout == layout_of(opcode),
        ensures
            ins == row(opcode, mask, code),
    {
        Instruction { opcode, mask, code, operand_encoding: OperandEncoding::for_layout(layout) }
    }

    /// Row `i` of the instruction table.
    fn entry(i: usize) -> (ins: Instruction)
        requires
            i < TABLE_LEN,
        ensures
            ins == table()[i as int],
            table().len() == TABLE_LEN,
    {
        match i {
            0 => Instruction::make(Opcode::Invalid, 0xFFFF, 0x0000, Layout::Bare),
            1 => Instruction::make(Opcode::Cls, 0xFFFF, 0x00E0, Layout::Bare),
            2 => Instruction::make(Opcode::Ret, 0xFFFF, 0x00EE, Layout::Bare),
            3 => Instruction::make(Opcode::Jp, 0xF000, 0x1000, Layout::Address),
            4 => Instruction::make(Opcode::Call, 0xF000, 0x2000, Layout::Address),
            5 => Instruction::make(Opcode::Sei, 0xF000, 0x3000, Layout::RegXImm),
            6 => Instruction::make(Opcode::Snei, 0xF000, 0x4000, Layout::RegXImm),
            7 => Instruction::make(Opcode::Se, 0xF00F, 0x5000, Layout::RegXY),
            8 => Instruction::make(Opcode::Ldi, 0xF000, 0x6000, Layout::RegXImm),
            9 => Instruction::make(Opcode::Addi, 0xF000, 0x7000, Layout::RegXImm),
            10 => Instruction::make(Opcode::Ld, 0xF00F, 0x8000, Layout::RegXY),
            11 => Instruction::make(Opcode::Or, 0xF00F, 0x8001, Layout::RegXY),
            12 => Instruction::make(Opcode::And, 0xF00F, 0x8002, Layout::RegXY),
            13 => Instruction::make(Opcode::Xor, 0xF00F, 0x8003, Layout::RegXY),
            14 => Instruction::make(Opcode::Add, 0xF00F, 0x8004, Layout::RegXY),
            15 => Instruction::make(Opcode::Sub, 0xF00F, 0x8005, Layout::RegXY),
            16 => Instruction::make(Opcode::Shr, 0xF00F, 0x8006, Layout::RegXY),
            17 => Instruction::make(Opcode::Subn, 0xF00F, 0x8007, Layout::RegXY),
            18 => Instruction::make(Opcode::Shl, 0xF00F, 0x800E, Layout::RegXY),
            19 => Instruction::make(Opcode::Sne, 0xF00F, 0x9000, Layout::RegXY),
            20 => Instruction::make(Opcode::Seti, 0xF000, 0xA000, Layout::Address),
            21 => Instruction::make(Opcode::B, 0xF000, 0xB000, Layout::Bare),
            22 => Instruction::make(Opcode::Rnd, 0xF000, 0xC000, Layout::RegXImm),
            23 => Instruction::make(Opcode::Drw, 0xF000, 0xD000, Layout::RegXYImm),
            24 => Instruction::make(Opcode::Skp, 0xF0FF, 0xE09E, Layout::RegX),
            25 => Instruction::make(Opcode::Sknp, 0xF0FF, 0xE0A1, Layout::RegX),
            26 => Instruction::make(Opcode::Lddt, 0xF0FF, 0xF007, Layout::RegX),
            27 => Instruction::make(Opcode::Ldkp, 0xF0FF, 0xF00A, Layout::RegX),
            28 => Instruction::make(Opcode::Setdt, 0xF0FF, 0xF015, Layout::RegX),
            29 => Instruction::make(Opcode::Setst, 0xF0FF, 0xF018, Layout::RegX),
            30 => Instruction::make(Opcode::Addir, 0xF0FF, 0xF01E, Layout::RegX),
            31 => Instruction::make(Opcode::Setis, 0xF0FF, 0xF029, Layout::RegX),
            32 => Instruction::make(Opcode::Ibcd, 0xF0FF, 0xF033, Layout::RegX),
            33 => Instruction::make(Opcode::Stri, 0xF0FF, 0xF055, Layout::RegX),
            _ => Instruction::make(Opcode::Fetch, 0xF0FF, 0xF065, Layout::RegX),
        }
    }
}

/// The table has `TABLE_LEN` rows.
proof fn lemma_table_len()
    ensures
        table().len() == TABLE_LEN,
{
}

/// Scanning from `from`, given that rows before `k` do not match and row `k`
/// does, finds `k`.
proof fn lemma_first_match_is(word: u16, from: nat, k: nat)
    requires
        from <= k < table().len(),
        table()[k as int].matches(word),
        forall|j: int| from <= j < k ==> !(#[trigger] table()[j]).matches(word),
    ensures
        first_match(word, from) == k,
    decreases k - from,
{
    if from < k {
        lemma_first_match_is(word, from + 1, k);
    }
}

/// Scanning from `from`, given that no row from there on matches, finds
/// nothing.
proof fn lemma_first_match_none(word: u16, from: nat)
    requires
        forall|j: int| from <= j < table().len() ==> !(#[trigger] table()[j]).matches(word),
    ensures
        first_match(word, from) == table().len(),
    decreases table().len() - from,
{
    if from < table().len() {
        lemma_first_match_none(word, from + 1);
    }
}

/// The scan never skips a matching row: the row it returns is the first
/// one the word belongs to, and no row matches when it returns the
/// table's length.
pub proof fn lemma_first_match_least(word: u16, from: nat)
    ensures
        from <= first_match(word, from) <= table().len() || from > table().len(),
        first_match(word, from) < table().len() ==> table()[first_match(word, from) as int].matches(
            word,
        ),
        forall|j: int|
            from <= j < first_match(word, from) ==> !(#[trigger] table()[j]).matches(word),
    decreases table().len() - from,
{
    if from < table().len() && !table()[from as int].matches(word) {
        lemma_first_match_least(word, from + 1);
    }
}

/// Decoding is total and lands in the table: every word is classified by
/// some row.
pub proof fn lemma_decode_in_table(word: u16)
    ensures
        table().contains(spec_decode(word)),
{
    lemma_table_len();
    lemma_first_match_least(word, 0);
    let k = first_match(word, 0);
    if k < table().len() {
        assert(table()[k as int] == spec_decode(word));
    } else {
        assert(table()[0] == spec_decode(word));
    }
}

/// A row with a full mask wins: when a word belongs to a row that matches
/// one exact word (mask `0xFFFF`), decoding yields that row, whatever rows
/// with broader masks the word may belong to as well.
pub proof fn lemma_exact_rows_take_precedence(word: u16, i: int)
    requires
        0 <= i < table().len(),
        table()[i].mask == 0xFFFF,
        table()[i].matches(word),
    ensures
        spec_decode(word) == table()[i],
{
    lemma_table_len();
    lemma_masks(word);
    assert(i <= 2);
    assert(forall|j: int| 0 <= j < i ==> !(#[trigger] table()[j]).matches(word));
    lemma_first_match_is(word, 0, i as nat);
}

/// The two instructions without operands are decoded as themselves.
pub proof fn lemma_clear_and_return_decode()
    ensures
        spec_decode(0x00E0).opcode == Opcode::Cls,
        spec_decode(0x00EE).opcode == Opcode::Ret,
{
    lemma_table_len();
    assert(0x00E0u16 & 0xFFFF == 0x00E0 && 0x00EEu16 & 0xFFFF == 0x00EE) by (bit_vector);
    lemma_exact_rows_take_precedence(0x00E0, 1);
    lemma_exact_rows_take_precedence(0x00EE, 2);
}

/// Index of the table row for an instruction kind.
spec fn row_index(opcode: Opcode) -> int {
    match opcode {
        Opcode::Invalid => 0,
        Opcode::Cls => 1,
        Opcode::Ret => 2,
        Opcode::Jp => 3,
        Opcode::Call => 4,
        Opcode::Sei => 5,
        Opcode::Snei => 6,
        Opcode::Se => 7,
        Opcode::Ldi => 8,
        Opcode::Addi => 9,
        Opcode::Ld => 10,
        Opcode::Or => 11,
        Opcode::And => 12,
        Opcode::Xor => 13,
        Opcode::Add => 14,
        Opcode::Sub => 15,
        Opcode::Shr => 16,
        Opcode::Subn => 17,
        Opcode::Shl => 18,
        Opcode::Sne => 19,
        Opcode::Seti => 20,
        Opcode::B => 21,
        Opcode::Rnd => 22,
        Opcode::Drw => 23,
        Opcode::Skp => 24,
        Opcode::Sknp => 25,
        Opcode::Lddt => 26,
        Opcode::Ldkp => 27,
        Opcode::Setdt => 28,
        Opcode::Setst => 29,
        Opcode::Addir => 30,
        Opcode::Setis => 31,
        Opcode::Ibcd => 32,
        Opcode::Stri => 33,
        Opcode::Fetch => 34,
    }
}

/// Which row a word belongs to, by its digits: row `j` matches exactly when
/// `j` is the row of the word's kind, except that the `Invalid` row matches
/// the zero word only.
proof fn lemma_row_matches(word: u16, j: int)
    requires
        0 <= j < table().len(),
    ensures
        table()[j].matches(word) <==> (if j == 0 {
            word == 0
        } else {
            j == row_index(classify(word))
        }),
        table()[j].opcode == classify(word) <==> j == row_index(classify(word)),
{
    reveal(classify);
    lemma_table_len();
    lemma_masks(word);
}

/// The table scan and the reading by digits agree on every word, for the
/// instruction kind and for the operands.
pub proof fn lemma_decode_classifies(word: u16)
    ensures
        table().contains(spec_decode(word)),
        spec_decode(word).opcode == classify(word),
        spec_decode(word).spec_get_operands(word) == operands_of(word),
{
    lemma_table_len();
    lemma_masks(word);
    lemma_decode_in_table(word);
    assert(word == 0 ==> classify(word) == Opcode::Invalid) by {
        reveal(classify);
    }
    let k = row_index(classify(word));
    if k == 0 {
        if word == 0 {
            lemma_row_matches(word, 0);
            lemma_first_match_is(word, 0, 0);
        } else {
            assert forall|j: int| 0 <= j < table().len() implies !(#[trigger] table()[j]).matches(
                word,
            ) by {
                lemma_row_matches(word, j);
            }
            lemma_first_match_none(word, 0);
        }
        assert(spec_decode(word) == table()[0]);
    } else {
        assert forall|j: int| 0 <= j < k implies !(#[trigger] table()[j]).matches(word) by {
            lemma_row_matches(word, j);
        }
        lemma_row_matches(word, k);
        lemma_first_match_is(word, 0, k as nat);
        assert(spec_decode(word) == table()[k]);
    }
    let ins = spec_decode(word);
    assert(ins == table()[k]);
    assert(ins.opcode == classify(word));
    assert(ins.operand_encoding == OperandEncoding::of_layout(layout_of(classify(word))));
    reveal(layout_operands);
}

/// What the encoding of a layout reads out of a word, by the word's digits.
pub proof fn lemma_extract_of_layout(layout: Layout, word: u16)
    ensures
        OperandEncoding::of_layout(layout).extract(word) == layout_operands(layout, word),
{
    lemma_masks(word);
    reveal(layout_operands);
}

/// What a row of the table reads out of a word, be it the word that the
/// row was decoded from or another: the operands that the layout of the
/// row's instruction kind gives.
pub proof fn lemma_row_operands(ins: Instruction, word: u16)
    requires
        table().contains(ins),
    ensures
        ins.spec_get_operands(word) == layout_operands(layout_of(ins.opcode), word),
{
    let i = choose|i: int| 0 <= i < table().len() && table()[i] == ins;
    lemma_table_len();
    lemma_extract_of_layout(layout_of(ins.opcode), word);
}

/// The operands of every word fit: register indices are below 16, the
/// address is below 4096, and the immediate of a draw instruction, its
/// number of rows, is below 16.
pub proof fn lemma_operands_in_range(word: u16)
    ensures
        operands_of(word).reg_x < 16,
        operands_of(word).reg_y < 16,
        operands_of(word).address < 0x1000,
        classify(word) == Opcode::Drw ==> operands_of(word).imm < 16,
{
    reveal(layout_operands);
}

/// The operands of a word by its digits: of `0xKXYN`, register x is `X`,
/// register y is `Y`; the address is `XYN`, the immediate `YN` or, where
/// register y is present too, `N`. What an instruction kind does not have
/// is zero.
pub proof fn lemma_operands_by_digits(word: u16)
    ensures
        operands_of(word) == layout_operands(layout_of(classify(word)), word),
        ({
            let layout = layout_of(classify(word));
            let ops = operands_of(word);
            &&& ops.reg_x == (if layout == Layout::Bare || layout == Layout::Address {
                0
            } else {
                (word / 0x100) % 0x10
            })
            &&& ops.reg_y == (if layout == Layout::RegXY || layout == Layout::RegXYImm {
                (word / 0x10) % 0x10
            } else {
                0
            })
            &&& ops.address == (if layout == Layout::Address {
                word % 0x1000
            } else {
                0
            })
            &&& ops.imm == (if layout == Layout::RegXImm {
                word % 0x100
            } else if layout == Layout::RegXYImm {
                word % 0x10
            } else {
                0
            })
        }),
{
    reveal(layout_operands);
}

/// With a well-formed encoding every extracted field fits its operand.
proof fn lemma_extract_fits(enc: OperandEncoding, word: u16)
    requires
        enc.well_formed(),
    ensures
        (enc.reg_x_mask & word) >> enc.reg_x_right_shift < 16,
        (enc.reg_y_mask & word) >> enc.reg_y_right_shift < 16,
        enc.address_mask & word < 0x1000,
        enc.imm_mask & word < 0x100,
{
    let (xm, xs) = (enc.reg_x_mask, enc.reg_x_right_shift);
    let (ym, ys) = (enc.reg_y_mask, enc.reg_y_right_shift);
    let (am, im) = (enc.address_mask, enc.imm_mask);
    assert((xm & word) >> xs < 16) by (bit_vector)
        requires
            xs < 16,
            (xm >> xs) < 16,
    ;
    assert((ym & word) >> ys < 16) by (bit_vector)
        requires
            ys < 16,
            (ym >> ys) < 16,
    ;
    assert(am & word < 0x1000) by (bit_vector)
        requires
            am < 0x1000,
    ;
    assert(im & word < 0x100) by (bit_vector)
        requires
            im < 0x100,
    ;
}

} // verus!
