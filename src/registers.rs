//! The general and segment register files, stored as little-endian byte pairs.

use vstd::prelude::*;

use crate::register::{Register, SegmentRegister};
use crate::value::{word_of, Value};

verus! {

/// The low byte of a word's two's-complement bits.
pub open spec fn low_byte(v: i16) -> u8 {
    v as u8
}

/// The high byte of a word's two's-complement bits.
pub open spec fn high_byte(v: i16) -> u8 {
    ((v as u16) >> 8) as u8
}

/// Splitting a word into its two bytes and joining them again gives the
/// word back.
pub proof fn lemma_word_bytes(v: i16)
    ensures
        word_of(low_byte(v), high_byte(v)) == v,
{
    let lo = low_byte(v);
    let hi = high_byte(v);
    assert(((v as u8) as u32 + 256 * ((((v as u16) >> 8) as u8) as u32)) as i16 == v) by (bit_vector);
    assert((lo as u32 + 256 * hi as u32) as int == lo + 256 * hi);
}

/// Index of the byte that holds `reg` (its low byte for a word register) in
/// the general register storage: two bytes per register, in encoding order
/// AX, CX, DX, BX, SP, BP, SI, DI.
pub open spec fn reg_offset(reg: Register) -> int {
    match reg {
        Register::AX | Register::AL => 0,
        Register::AH => 1,
        Register::CX | Register::CL => 2,
        Register::CH => 3,
        Register::DX | Register::DL => 4,
        Register::DH => 5,
        Register::BX | Register::BL => 6,
        Register::BH => 7,
        Register::SP => 8,
        Register::BP => 10,
        Register::SI => 12,
        Register::DI => 14,
    }
}

/// The value of `reg` in register storage `bytes`.
pub open spec fn reg_value(bytes: Seq<u8>, reg: Register) -> Value {
    let o = reg_offset(reg);
    if reg.is_word() {
        Value::Word(word_of(bytes[o], bytes[o + 1]))
    } else {
        Value::Byte(bytes[o] as i8)
    }
}

/// Register storage after `val` is written to the bytes at offset `o`.
pub open spec fn store_value(bytes: Seq<u8>, o: int, val: Value) -> Seq<u8> {
    match val {
        Value::Byte(v) => bytes.update(o, v as u8),
        Value::Word(v) => bytes.update(o, low_byte(v)).update(o + 1, high_byte(v)),
    }
}

/// Register storage after `val` is written to `reg`.
pub open spec fn write_reg(bytes: Seq<u8>, reg: Register, val: Value) -> Seq<u8> {
    store_value(bytes, reg_offset(reg), val)
}

fn reg_index(reg: &Register) -> (r: usize)
    ensures
        r == reg_offset(*reg),
{
    match reg {
        Register::AX | Register::AL => 0,
        Register::AH => 1,
        Register::CX | Register::CL => 2,
        Register::CH => 3,
        Register::DX | Register::DL => 4,
        Register::DH => 5,
        Register::BX | Register::BL => 6,
        Register::BH => 7,
        Register::SP => 8,
        Register::BP => 10,
        Register::SI => 12,
        Register::DI => 14,
    }
}

/// The general registers AX, CX, DX, BX, SP, BP, SI and DI, two bytes each.
#[derive(Debug, Clone, Copy)]
pub struct GeneralRegisters {
    bytes: [u8; 16],
}

impl Default for GeneralRegisters {
    fn default() -> (r: GeneralRegisters)
        ensures
            r@ == Seq::new(16, |i: int| 0u8),
    {
        let r = GeneralRegisters { bytes: [0u8; 16] };
        assert(r.bytes@ =~= Seq::new(16, |i: int| 0u8));
        r
    }
}

impl View for GeneralRegisters {
    type V = Seq<u8>;

    closed spec fn view(&self) -> Seq<u8> {
        self.bytes@
    }
}

impl GeneralRegisters {
    /// The storage always holds sixteen bytes, two per register.
    pub proof fn lemma_view_len(&self)
        ensures
            self@.len() == 16,
    {
    }

    /// Returns the value of `reg`: a byte for a byte half, otherwise the
    /// little-endian word of its two bytes.
    pub fn get(&self, reg: &Register) -> (r: Value)
        ensures
            r == reg_value(self@, *reg),
            self@.len() == 16,
    {
        let o = reg_index(reg);
        match reg {
            Register::AL | Register::BL | Register::CL | Register::DL | Register::AH
            | Register::BH | Register::CH | Register::DH => Value::byte(self.bytes[o]),
            _ => Value::word([self.bytes[o], self.bytes[o + 1]]),
        }
    }

    /// Writes `val` to `reg`. A byte write changes one half and keeps the
    /// other; a word write replaces both bytes, low byte first.
    pub fn set(&mut self, reg: &Register, val: Value)
        requires
            reg.is_word() == val.is_word(),
        ensures
            final(self)@ == write_reg(old(self)@, *reg, val),
            final(self)@.len() == 16,
    {
        let o = reg_index(reg);
        match val {
            Value::Byte(v) => {
                self.bytes[o] = v as u8;
            },
            Value::Word(v) => {
                self.bytes[o] = v as u8;
                self.bytes[o + 1] = ((v as u16) >> 8) as u8;
            },
        }
    }
}

/// Index of the low byte of a segment register in the segment storage:
/// ES, CS, SS, DS.
pub open spec fn seg_offset(seg: SegmentRegister) -> int {
    match seg {
        SegmentRegister::ES => 0,
        SegmentRegister::CS => 2,
        SegmentRegister::SS => 4,
        SegmentRegister::DS => 6,
    }
}

/// The value of a segment register in segment storage `bytes`.
pub open spec fn seg_value(bytes: Seq<u8>, seg: SegmentRegister) -> Value {
    let o = seg_offset(seg);
    Value::Word(word_of(bytes[o], bytes[o + 1]))
}

fn seg_index(seg: &SegmentRegister) -> (r: usize)
    ensures
        r == seg_offset(*seg),
{
    match seg {
        SegmentRegister::ES => 0,
        SegmentRegister::CS => 2,
        SegmentRegister::SS => 4,
        SegmentRegister::DS => 6,
    }
}

/// The segment registers ES, CS, SS and DS, two bytes each.
#[derive(Debug, Clone, Copy)]
pub struct SegmentRegisters {
    bytes: [u8; 8],
}

impl Default for SegmentRegisters {
    fn default() -> (r: SegmentRegisters)
        ensures
            r@ == Seq::new(8, |i: int| 0u8),
    {
        let r = SegmentRegisters { bytes: [0u8; 8] };
        assert(r.bytes@ =~= Seq::new(8, |i: int| 0u8));
        r
    }
}

impl View for SegmentRegisters {
    type V = Seq<u8>;

    closed spec fn view(&self) -> Seq<u8> {
        self.bytes@
    }
}

impl SegmentRegisters {
    /// The storage always holds eight bytes, two per register.
    pub proof fn lemma_view_len(&self)
        ensures
            self@.len() == 8,
    {
    }

    /// Returns the word value of a segment register.
    pub fn get(&self, seg: &SegmentRegister) -> (r: Value)
        ensures
            r == seg_value(self@, *seg),
            self@.len() == 8,
    {
        let o = seg_index(seg);
        Value::word([self.bytes[o], self.bytes[o + 1]])
    }

    /// Writes a word to a segment register.
    pub fn set(&mut self, seg: &SegmentRegister, val: Value)
        requires
            val.is_word(),
        ensures
            final(self)@ == store_value(old(self)@, seg_offset(*seg), val),
            final(self)@.len() == 8,
    {
        let o = seg_index(seg);
        if let Value::Word(v) = val {
            self.bytes[o] = v as u8;
            self.bytes[o + 1] = ((v as u16) >> 8) as u8;
        }
    }

    /// Returns the code segment's base, the value of CS read as unsigned.
    pub fn cs(&self) -> (r: u16)
        ensures
            r == crate::address::le_u16(self@[2], self@[3]),
    {
        crate::address::read_u16(self.bytes[2], self.bytes[3])
    }
}

/// Byte and word views of a paired register agree: after a word `v` is
/// written to AX, AL reads its low byte and AH its high byte; after bytes
/// `b1` and `b2` are written to AL and AH, AX reads the word whose
/// little-endian bytes they are.
pub proof fn lemma_register_coherence(bytes: Seq<u8>, v: i16, b1: i8, b2: i8)
    requires
        bytes.len() == 16,
    ensures
        reg_value(write_reg(bytes, Register::AX, Value::Word(v)), Register::AL) == Value::Byte(low_byte(v) as i8),
        reg_value(write_reg(bytes, Register::AX, Value::Word(v)), Register::AH) == Value::Byte(high_byte(v) as i8),
        reg_value(
            write_reg(write_reg(bytes, Register::AL, Value::Byte(b1)), Register::AH, Value::Byte(b2)),
            Register::AX,
        ) == Value::Word(word_of(b1 as u8, b2 as u8)),
{
}

/// A byte write to one half of a paired register leaves the other half,
/// and every other register, unchanged.
pub proof fn lemma_half_write_keeps_rest(bytes: Seq<u8>, half: Register, other: Register, b: i8)
    requires
        bytes.len() == 16,
        !half.is_word(),
        !other.is_word() ==> other != half,
        other.is_word() ==> reg_offset(other) != reg_offset(half) && reg_offset(other) + 1 != reg_offset(half),
    ensures
        reg_value(write_reg(bytes, half, Value::Byte(b)), other) == reg_value(bytes, other),
{
}

} // verus!
