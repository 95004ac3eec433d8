//! Basic machine types: the 32-bit machine word, the one-bit flag, the
//! register names, and the instruction set with its bit-exact codec.

use vstd::prelude::*;

verus! {

// The MiMA address space size in address bits and words (2^28 words):
pub const ADDRESS_SPACE_BITS: usize = 28;

pub const ADDRESS_SPACE_WORDS: usize = 0x10000000;

// The uppermost quarter of the address space is device IO memory.
// The lower three quarters are linear memory.
pub const DEVICE_IO_ADDRESS_SPACE_WORDS: usize = 0x04000000;

pub const LINEAR_ADDRESS_SPACE_WORDS: usize = 0x0C000000;

// The payload masks of the two instruction formats:
pub const BASIC_PAYLOAD_MASK: u32 = 0x0FFFFFFF;

pub const EXTENDED_PAYLOAD_MASK: u32 = 0x00FFFFFF;

// A MiMA machine word (32 bit, newtype idiom):
#[derive(Copy, Clone, PartialEq, Eq, Structural, Debug)]
pub struct Word(pub u32);

impl Word {
    /// The two's-complement signed reading of this word.
    pub open spec fn as_signed(self) -> int {
        if self.0 >= 0x80000000 {
            self.0 - 0x100000000
        } else {
            self.0 as int
        }
    }
}

// A MiMA machine flag (boolean, newtype idiom):
#[derive(Copy, Clone, PartialEq, Eq, Structural, Debug)]
pub struct Flag(pub bool);

// The nine named registers of the machine:
#[derive(Copy, Clone, PartialEq, Eq, Structural, Debug)]
pub enum Register {
    Acc,
    One,
    X,
    Y,
    Z,
    Iar,
    Ir,
    Sar,
    Sir,
}

// A set of register names, i. e. for the destinations of a bus transfer:
#[derive(Copy, Clone, PartialEq, Eq, Structural, Debug)]
pub struct RegisterSet {
    pub acc: bool,
    pub one: bool,
    pub x: bool,
    pub y: bool,
    pub z: bool,
    pub iar: bool,
    pub ir: bool,
    pub sar: bool,
    pub sir: bool,
}

impl RegisterSet {
    pub open spec fn spec_contains(self, r: Register) -> bool {
        match r {
            Register::Acc => self.acc,
            Register::One => self.one,
            Register::X => self.x,
            Register::Y => self.y,
            Register::Z => self.z,
            Register::Iar => self.iar,
            Register::Ir => self.ir,
            Register::Sar => self.sar,
            Register::Sir => self.sir,
        }
    }

    pub open spec fn spec_is_empty(self) -> bool {
        !self.acc && !self.one && !self.x && !self.y && !self.z && !self.iar && !self.ir
            && !self.sar && !self.sir
    }

    pub open spec fn spec_empty() -> RegisterSet {
        RegisterSet {
            acc: false,
            one: false,
            x: false,
            y: false,
            z: false,
            iar: false,
            ir: false,
            sar: false,
            sir: false,
        }
    }

    pub open spec fn spec_plus(self, r: Register) -> RegisterSet {
        match r {
            Register::Acc => RegisterSet { acc: true, ..self },
            Register::One => RegisterSet { one: true, ..self },
            Register::X => RegisterSet { x: true, ..self },
            Register::Y => RegisterSet { y: true, ..self },
            Register::Z => RegisterSet { z: true, ..self },
            Register::Iar => RegisterSet { iar: true, ..self },
            Register::Ir => RegisterSet { ir: true, ..self },
            Register::Sar => RegisterSet { sar: true, ..self },
            Register::Sir => RegisterSet { sir: true, ..self },
        }
    }

    pub open spec fn spec_single(r: Register) -> RegisterSet {
        RegisterSet::spec_empty().spec_plus(r)
    }

    /// The set without any register.
    pub fn empty() -> (r: RegisterSet)
        ensures
            r == RegisterSet::spec_empty(),
    {
        RegisterSet {
            acc: false,
            one: false,
            x: false,
            y: false,
            z: false,
            iar: false,
            ir: false,
            sar: false,
            sir: false,
        }
    }

    /// The set holding exactly one register.
    pub fn single(r: Register) -> (s: RegisterSet)
        ensures
            s == RegisterSet::spec_single(r),
    {
        RegisterSet::empty().plus(r)
    }

    /// This set with one more register.
    pub fn plus(self, r: Register) -> (s: RegisterSet)
        ensures
            s == self.spec_plus(r),
    {
        let mut s = self;
        match r {
            Register::Acc => {
                s.acc = true;
            },
            Register::One => {
                s.one = true;
            },
            Register::X => {
                s.x = true;
            },
            Register::Y => {
                s.y = true;
            },
            Register::Z => {
                s.z = true;
            },
            Register::Iar => {
                s.iar = true;
            },
            Register::Ir => {
                s.ir = true;
            },
            Register::Sar => {
                s.sar = true;
            },
            Register::Sir => {
                s.sir = true;
            },
        }
        s
    }

    pub fn contains(self, r: Register) -> (b: bool)
        ensures
            b == self.spec_contains(r),
    {
        match r {
            Register::Acc => self.acc,
            Register::One => self.one,
            Register::X => self.x,
            Register::Y => self.y,
            Register::Z => self.z,
            Register::Iar => self.iar,
            Register::Ir => self.ir,
            Register::Sar => self.sar,
            Register::Sir => self.sir,
        }
    }

    pub fn is_empty(self) -> (b: bool)
        ensures
            b == self.spec_is_empty(),
    {
        !self.acc && !self.one && !self.x && !self.y && !self.z && !self.iar && !self.ir
            && !self.sar && !self.sir
    }
}

// The MiMA instructions are an algebraic datatype:
#[derive(Copy, Clone, PartialEq, Eq, Structural, Debug)]
pub enum Instruction {
    Add(Word),
    And(Word),
    Or(Word),
    Xor(Word),
    LoadValue(Word),
    StoreValue(Word),
    LoadConstant(Word),
    Jump(Word),
    JumpIfNegative(Word),
    Equals(Word),
    Halt,
    Not,
    RotateRight(Word),
    NoOperation,
}

impl Instruction {
    /// Does the payload fit the format chosen by the opcode
    /// (28 bits for the basic format, 24 bits for the extended one)?
    pub open spec fn payload_fits(self) -> bool {
        match self {
            Instruction::Add(p) => p.0 <= BASIC_PAYLOAD_MASK,
            Instruction::And(p) => p.0 <= BASIC_PAYLOAD_MASK,
            Instruction::Or(p) => p.0 <= BASIC_PAYLOAD_MASK,
            Instruction::Xor(p) => p.0 <= BASIC_PAYLOAD_MASK,
            Instruction::LoadValue(p) => p.0 <= BASIC_PAYLOAD_MASK,
            Instruction::StoreValue(p) => p.0 <= BASIC_PAYLOAD_MASK,
            Instruction::LoadConstant(p) => p.0 <= BASIC_PAYLOAD_MASK,
            Instruction::Jump(p) => p.0 <= BASIC_PAYLOAD_MASK,
            Instruction::JumpIfNegative(p) => p.0 <= BASIC_PAYLOAD_MASK,
            Instruction::Equals(p) => p.0 <= BASIC_PAYLOAD_MASK,
            Instruction::Halt => true,
            Instruction::Not => true,
            Instruction::RotateRight(p) => p.0 <= EXTENDED_PAYLOAD_MASK,
            Instruction::NoOperation => true,
        }
    }

    /// The machine word of this instruction (payload bits above the
    /// format's mask are dropped).
    pub open spec fn spec_encode(self) -> Word {
        match self {
            Instruction::Add(p) => Word((0x0u32 << 28) | (p.0 & 0x0FFFFFFF)),
            Instruction::And(p) => Word((0x1u32 << 28) | (p.0 & 0x0FFFFFFF)),
            Instruction::Or(p) => Word((0x2u32 << 28) | (p.0 & 0x0FFFFFFF)),
            Instruction::Xor(p) => Word((0x3u32 << 28) | (p.0 & 0x0FFFFFFF)),
            Instruction::LoadValue(p) => Word((0x4u32 << 28) | (p.0 & 0x0FFFFFFF)),
            Instruction::StoreValue(p) => Word((0x5u32 << 28) | (p.0 & 0x0FFFFFFF)),
            Instruction::LoadConstant(p) => Word((0x6u32 << 28) | (p.0 & 0x0FFFFFFF)),
            Instruction::Jump(p) => Word((0x7u32 << 28) | (p.0 & 0x0FFFFFFF)),
            Instruction::JumpIfNegative(p) => Word((0x8u32 << 28) | (p.0 & 0x0FFFFFFF)),
            Instruction::Equals(p) => Word((0x9u32 << 28) | (p.0 & 0x0FFFFFFF)),
            Instruction::Halt => Word(0xF0000000u32 | (0x0u32 << 24) | (0u32 & 0x00FFFFFF)),
            Instruction::Not => Word(0xF0000000u32 | (0x1u32 << 24) | (0u32 & 0x00FFFFFF)),
            Instruction::RotateRight(p) => Word(
                0xF0000000u32 | (0x2u32 << 24) | (p.0 & 0x00FFFFFF),
            ),
            Instruction::NoOperation => Word(0xF0000000u32 | (0xFu32 << 24) | (0u32 & 0x00FFFFFF)),
        }
    }

    /// The instruction encoded in a machine word. Total: every unknown
    /// opcode or sub-opcode reads as no-operation.
    pub open spec fn spec_decode(word: Word) -> Instruction {
        let opcode = word.0 >> 28;
        if opcode != 15 {
            let payload = Word(word.0 & 0x0FFFFFFF);
            if opcode == 0x00 {
                Instruction::Add(payload)
            } else if opcode == 0x01 {
                Instruction::And(payload)
            } else if opcode == 0x02 {
                Instruction::Or(payload)
            } else if opcode == 0x03 {
                Instruction::Xor(payload)
            } else if opcode == 0x04 {
                Instruction::LoadValue(payload)
            } else if opcode == 0x05 {
                Instruction::StoreValue(payload)
            } else if opcode == 0x06 {
                Instruction::LoadConstant(payload)
            } else if opcode == 0x07 {
                Instruction::Jump(payload)
            } else if opcode == 0x08 {
                Instruction::JumpIfNegative(payload)
            } else if opcode == 0x09 {
                Instruction::Equals(payload)
            } else {
                Instruction::NoOperation
            }
        } else {
            let payload = Word(word.0 & 0x00FFFFFF);
            let sub_opcode = (word.0 & 0x0F000000) >> 24;
            if sub_opcode == 0x00 {
                Instruction::Halt
            } else if sub_opcode == 0x01 {
                Instruction::Not
            } else if sub_opcode == 0x02 {
                Instruction::RotateRight(payload)
            } else {
                Instruction::NoOperation
            }
        }
    }

    /// Disassemble an instruction from a machine word.
    pub fn decode(word: Word) -> (r: Instruction)
        ensures
            r == Instruction::spec_decode(word),
    {
        let opcode = word.0 >> 28;
        if opcode != 15 {
            // Basic format:
            let payload = Word(word.0 & 0x0FFFFFFF);
            if opcode == 0x00 {
                Instruction::Add(payload)
            } else if opcode == 0x01 {
                Instruction::And(payload)
            } else if opcode == 0x02 {
                Instruction::Or(payload)
            } else if opcode == 0x03 {
                Instruction::Xor(payload)
            } else if opcode == 0x04 {
                Instruction::LoadValue(payload)
            } else if opcode == 0x05 {
                Instruction::StoreValue(payload)
            } else if opcode == 0x06 {
                Instruction::LoadConstant(payload)
            } else if opcode == 0x07 {
                Instruction::Jump(payload)
            } else if opcode == 0x08 {
                Instruction::JumpIfNegative(payload)
            } else if opcode == 0x09 {
                Instruction::Equals(payload)
            } else {
                Instruction::NoOperation
            }
        } else {
            // Extended format:
            let payload = Word(word.0 & 0x00FFFFFF);
            let sub_opcode = (word.0 & 0x0F000000) >> 24;
            if sub_opcode == 0x00 {
                Instruction::Halt
            } else if sub_opcode == 0x01 {
                Instruction::Not
            } else if sub_opcode == 0x02 {
                Instruction::RotateRight(payload)
            } else {
                Instruction::NoOperation
            }
        }
    }

    /// Assemble an instruction into a machine word. The payload must fit
    /// the format chosen by the opcode.
    pub fn encode(self) -> (r: Word)
        requires
            self.payload_fits(),
        ensures
            r == self.spec_encode(),
    {
        match self {
            Instruction::Add(p) => Word((0x0u32 << 28) | (p.0 & 0x0FFFFFFF)),
            Instruction::And(p) => Word((0x1u32 << 28) | (p.0 & 0x0FFFFFFF)),
            Instruction::Or(p) => Word((0x2u32 << 28) | (p.0 & 0x0FFFFFFF)),
            Instruction::Xor(p) => Word((0x3u32 << 28) | (p.0 & 0x0FFFFFFF)),
            Instruction::LoadValue(p) => Word((0x4u32 << 28) | (p.0 & 0x0FFFFFFF)),
            Instruction::StoreValue(p) => Word((0x5u32 << 28) | (p.0 & 0x0FFFFFFF)),
            Instruction::LoadConstant(p) => Word((0x6u32 << 28) | (p.0 & 0x0FFFFFFF)),
            Instruction::Jump(p) => Word((0x7u32 << 28) | (p.0 & 0x0FFFFFFF)),
            Instruction::JumpIfNegative(p) => Word((0x8u32 << 28) | (p.0 & 0x0FFFFFFF)),
            Instruction::Equals(p) => Word((0x9u32 << 28) | (p.0 & 0x0FFFFFFF)),
            Instruction::Halt => Word(0xF0000000u32 | (0x0u32 << 24) | (0u32 & 0x00FFFFFF)),
            Instruction::Not => Word(0xF0000000u32 | (0x1u32 << 24) | (0u32 & 0x00FFFFFF)),
            Instruction::RotateRight(p) => Word(
                0xF0000000u32 | (0x2u32 << 24) | (p.0 & 0x00FFFFFF),
            ),
            Instruction::NoOperation => Word(0xF0000000u32 | (0xFu32 << 24) | (0u32 & 0x00FFFFFF)),
        }
    }

    pub open spec fn opcode_chars(self) -> Seq<char> {
        match self {
            Instruction::Add(_) => "ADD"@,
            Instruction::And(_) => "AND"@,
            Instruction::Or(_) => "OR"@,
            Instruction::Xor(_) => "XOR"@,
            Instruction::LoadValue(_) => "LDV"@,
            Instruction::StoreValue(_) => "STV"@,
            Instruction::LoadConstant(_) => "LDC"@,
            Instruction::Jump(_) => "JMP"@,
            Instruction::JumpIfNegative(_) => "JMN"@,
            Instruction::Equals(_) => "EQL"@,
            Instruction::Halt => "HLT"@,
            Instruction::Not => "NOT"@,
            Instruction::RotateRight(_) => "RAR"@,
            Instruction::NoOperation => "NOP"@,
        }
    }

    pub fn format_opcode(&self) -> (r: &'static str)
        ensures
            r@ == self.opcode_chars(),
    {
        match self {
            Instruction::Add(_) => "ADD",
            Instruction::And(_) => "AND",
            Instruction::Or(_) => "OR",
            Instruction::Xor(_) => "XOR",
            Instruction::LoadValue(_) => "LDV",
            Instruction::StoreValue(_) => "STV",
            Instruction::LoadConstant(_) => "LDC",
            Instruction::Jump(_) => "JMP",
            Instruction::JumpIfNegative(_) => "JMN",
            Instruction::Equals(_) => "EQL",
            Instruction::Halt => "HLT",
            Instruction::Not => "NOT",
            Instruction::RotateRight(_) => "RAR",
            Instruction::NoOperation => "NOP",
        }
    }
}

/// Bit facts about the basic instruction format: building a word from an
/// opcode of at most 9 and a 28-bit payload is inverted by the decoding
/// shifts and masks.
proof fn lemma_basic_format_bits()
    by (bit_vector)
    ensures
        forall|op: u32, p: u32|
            op <= 9 && p <= 0x0FFFFFFFu32 ==> ((op << 28) | (p & 0x0FFFFFFF)) >> 28 == op && (((op
                << 28) | (p & 0x0FFFFFFF)) & 0x0FFFFFFF) == p,
{
}

/// Bit facts about the extended instruction format.
proof fn lemma_extended_format_bits()
    by (bit_vector)
    ensures
        forall|sub: u32, p: u32|
            sub <= 15 && p <= 0x00FFFFFFu32 ==> (#[trigger] (0xF0000000u32 | (sub << 24) | (p
                & 0x00FFFFFF))) >> 28 == 15 && (((0xF0000000u32 | (sub << 24) | (p & 0x00FFFFFF))
                & 0x0F000000) >> 24) == sub && ((0xF0000000u32 | (sub << 24) | (p & 0x00FFFFFF))
                & 0x00FFFFFF) == p,
{
}

/// Codec round-trip on instructions: decoding the encoding of any
/// instruction whose payload is in range gives the instruction back.
pub proof fn lemma_instruction_round_trip(i: Instruction)
    requires
        i.payload_fits(),
    ensures
        Instruction::spec_decode(i.spec_encode()) == i,
{
    lemma_basic_format_bits();
    lemma_extended_format_bits();
}

/// Every decoded instruction has its payload in range, so it can be
/// encoded again.
pub proof fn lemma_decode_fits(w: Word)
    ensures
        Instruction::spec_decode(w).payload_fits(),
{
    let v = w.0;
    assert(v & 0x0FFFFFFF <= 0x0FFFFFFFu32 && v & 0x00FFFFFF <= 0x00FFFFFFu32) by (bit_vector);
}

/// Codec round-trip on words, characterised in full. A word in the basic
/// format, or an extended word with sub-opcode 0x2, survives unchanged.
/// An extended word with sub-opcode 0x0 or 0x1 keeps only its upper eight
/// bits (the payload is dropped). Every other word reads as no-operation
/// and encodes to the canonical no-operation word.
pub proof fn lemma_word_round_trip(w: Word)
    ensures
        ({
            let op = w.0 >> 28;
            let sub = (w.0 & 0x0F000000) >> 24;
            let back = Instruction::spec_decode(w).spec_encode();
            &&& op <= 9 ==> back == w
            &&& op == 15 && sub == 2 ==> back == w
            &&& op == 15 && (sub == 0 || sub == 1) ==> back == Word(w.0 & 0xFF000000)
            &&& (10 <= op <= 14 || (op == 15 && 3 <= sub <= 14) || (op == 15 && sub == 15)) ==> back
                == Word(0xF0000000u32 | (0xFu32 << 24) | (0u32 & 0x00FFFFFF))
        }),
{
    let v = w.0;
    assert(v >> 28 <= 15) by (bit_vector);
    assert(({
        let op = v >> 28;
        let sub = (v & 0x0F000000) >> 24;
        &&& sub <= 15
        &&& op <= 9 ==> ((op << 28) | ((v & 0x0FFFFFFF) & 0x0FFFFFFF)) == v
        &&& op == 15 && sub == 2 ==> (0xF0000000u32 | (0x2u32 << 24) | ((v & 0x00FFFFFF)
            & 0x00FFFFFF)) == v
        &&& op == 15 && sub == 0 ==> (0xF0000000u32 | (0x0u32 << 24) | (0u32 & 0x00FFFFFF)) == (v
            & 0xFF000000)
        &&& op == 15 && sub == 1 ==> (0xF0000000u32 | (0x1u32 << 24) | (0u32 & 0x00FFFFFF)) == (v
            & 0xFF000000)
    })) by (bit_vector);
}

} // verus!
