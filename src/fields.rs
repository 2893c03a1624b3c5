//! The bit fields of opcode and ModR/M bytes.

use vstd::prelude::*;

use crate::error::DecodeError;

verus! {

/// The bit at position `pos` of `byte`.
pub open spec fn bit(byte: u8, pos: u8) -> bool {
    if pos == 0 {
        byte % 2 == 1
    } else if pos == 1 {
        (byte / 2) % 2 == 1
    } else if pos == 2 {
        (byte / 4) % 2 == 1
    } else if pos == 3 {
        (byte / 8) % 2 == 1
    } else if pos == 4 {
        (byte / 16) % 2 == 1
    } else if pos == 5 {
        (byte / 32) % 2 == 1
    } else if pos == 6 {
        (byte / 64) % 2 == 1
    } else {
        byte / 128 == 1
    }
}

/// The two-bit MOD field: bits 6 and 7.
pub open spec fn mod_bits(byte: u8) -> u8 {
    byte / 64
}

/// The three-bit field in bits 3 to 5 (REG, or an operation code).
pub open spec fn mid_bits(byte: u8) -> u8 {
    (byte / 8) % 8
}

/// The three-bit field in bits 0 to 2 (R/M, or a register in the opcode).
pub open spec fn low_bits(byte: u8) -> u8 {
    byte % 8
}

/// The two-bit segment-register field in bits 3 and 4.
pub open spec fn sr_bits(byte: u8) -> u8 {
    (byte / 8) % 4
}

/// Returns the bit at position `pos` (0 is the least significant) of `byte`.
pub fn get_bit(byte: u8, pos: u8) -> (r: bool)
    requires
        pos < 8,
    ensures
        r == bit(byte, pos),
{
    match pos {
        0 => byte % 2 == 1,
        1 => (byte / 2) % 2 == 1,
        2 => (byte / 4) % 2 == 1,
        3 => (byte / 8) % 2 == 1,
        4 => (byte / 16) % 2 == 1,
        5 => (byte / 32) % 2 == 1,
        6 => (byte / 64) % 2 == 1,
        _ => byte / 128 == 1,
    }
}

/// The `W` field: whether an operation acts on a byte or on a word.
#[derive(Debug, Clone, Copy, PartialEq, Eq, Structural)]
pub enum Width {
    Byte,
    Word,
}

/// The width that a `W` bit selects.
pub open spec fn width_of(w: bool) -> Width {
    if w {
        Width::Word
    } else {
        Width::Byte
    }
}

impl Width {
    /// Whether this is the word width.
    pub open spec fn spec_bool(self) -> bool {
        self is Word
    }

    /// Extracts the width field from bit `pos` of `byte`.
    pub fn parse_byte(byte: u8, pos: u8) -> (r: Width)
        requires
            pos < 8,
        ensures
            r == width_of(bit(byte, pos)),
    {
        if get_bit(byte, pos) {
            Width::Word
        } else {
            Width::Byte
        }
    }

    /// Extracts the width field from bit 3 of `byte`, where the
    /// immediate-to-register MOV keeps it.
    pub fn parse_byte_mid(byte: u8) -> (r: Width)
        ensures
            r == width_of(bit(byte, 3)),
    {
        Width::parse_byte(byte, 3)
    }

    /// Returns `true` for a word and `false` for a byte.
    pub fn as_bool(&self) -> (r: bool)
        ensures
            r == self.spec_bool(),
    {
        match self {
            Width::Byte => false,
            Width::Word => true,
        }
    }

    /// Returns the width in bytes.
    pub fn n_bytes(&self) -> (r: usize)
        ensures
            r == (if self.spec_bool() { 2usize } else { 1usize }),
    {
        if self.as_bool() {
            2
        } else {
            1
        }
    }
}

/// The `D` field: whether the REG field names the source or the destination.
#[derive(Debug, Clone, Copy, PartialEq, Eq, Structural)]
pub enum Direction {
    Source,
    Destination,
}

impl Direction {
    /// Extracts the direction field, bit 1 of `byte`.
    pub fn parse_byte(byte: u8) -> (r: Direction)
        ensures
            r == (if bit(byte, 1) { Direction::Destination } else { Direction::Source }),
    {
        if get_bit(byte, 1) {
            Direction::Destination
        } else {
            Direction::Source
        }
    }
}

/// The `S` field: whether an 8-bit immediate is sign-extended to a word.
#[derive(Debug, Clone, Copy, PartialEq, Eq, Structural)]
pub enum Sign {
    NoExtention,
    Extend,
}

impl Sign {
    /// Extracts the sign-extension field, bit 1 of `byte`.
    pub fn parse_byte(byte: u8) -> (r: Sign)
        ensures
            r == (if bit(byte, 1) { Sign::Extend } else { Sign::NoExtention }),
    {
        if get_bit(byte, 1) {
            Sign::Extend
        } else {
            Sign::NoExtention
        }
    }
}

/// The `MOD` field of a ModR/M byte.
#[derive(Debug, Clone, Copy, PartialEq, Eq, Structural)]
pub enum Mode {
    /// Memory without displacement (or a direct address when R/M is `110`).
    Memory,
    /// Memory with an 8-bit displacement.
    Memory8,
    /// Memory with a 16-bit displacement.
    Memory16,
    /// Both operands are registers.
    Register,
}

/// The mode that a two-bit code names.
pub open spec fn mode_of(code: u8) -> Result<Mode, DecodeError> {
    if code == 0 {
        Ok(Mode::Memory)
    } else if code == 1 {
        Ok(Mode::Memory8)
    } else if code == 2 {
        Ok(Mode::Memory16)
    } else if code == 3 {
        Ok(Mode::Register)
    } else {
        Err(DecodeError::Mode)
    }
}

/// The number of displacement bytes that follow a ModR/M byte.
pub open spec fn disp_len(mode: Mode, rm: u8) -> u8 {
    match mode {
        Mode::Memory => if rm == 6 { 2u8 } else { 0u8 },
        Mode::Memory8 => 1u8,
        Mode::Memory16 => 2u8,
        Mode::Register => 0u8,
    }
}

impl Mode {
    /// Converts a two-bit code into a mode.
    pub fn try_from_code(code: u8) -> (r: Result<Mode, DecodeError>)
        ensures
            r == mode_of(code),
    {
        match code {
            0 => Ok(Mode::Memory),
            1 => Ok(Mode::Memory8),
            2 => Ok(Mode::Memory16),
            3 => Ok(Mode::Register),
            _ => Err(DecodeError::Mode),
        }
    }

    /// Extracts the mode field, the two most significant bits of `byte`.
    pub fn try_parse_byte(byte: u8) -> (r: Result<Mode, DecodeError>)
        ensures
            r == mode_of(mod_bits(byte)),
            r is Ok,
    {
        assert((byte >> 6) & 3 == byte / 64) by (bit_vector);
        Mode::try_from_code((byte >> 6) & 0b11)
    }

    /// Returns how many displacement bytes follow for this mode and the
    /// given R/M field.
    pub fn n_bytes(&self, rm: &RM) -> (r: u8)
        ensures
            r == disp_len(*self, rm.0),
    {
        match self {
            Mode::Memory => if rm.0 == 6 { 2 } else { 0 },
            Mode::Memory8 => 1,
            Mode::Memory16 => 2,
            Mode::Register => 0,
        }
    }
}

/// A three-bit REG field.
#[derive(Debug, Clone, Copy, PartialEq, Eq, Structural)]
pub struct Reg(pub u8);

impl Reg {
    /// Extracts the REG field from bits 3 to 5 of `byte`.
    pub fn parse_byte_mid(byte: u8) -> (r: Reg)
        ensures
            r.0 == mid_bits(byte),
            r.0 < 8,
    {
        assert((byte >> 3) & 7 == (byte / 8) % 8) by (bit_vector);
        Reg((byte >> 3) & 0b111)
    }

    /// Extracts the REG field from the three least significant bits of `byte`.
    pub fn parse_byte_low(byte: u8) -> (r: Reg)
        ensures
            r.0 == low_bits(byte),
            r.0 < 8,
    {
        assert(byte & 7 == byte % 8) by (bit_vector);
        Reg(byte & 0b111)
    }

    /// Returns the field's value.
    pub fn as_u8(&self) -> (r: u8)
        ensures
            r == self.0,
    {
        self.0
    }
}

/// A two-bit segment-register field.
#[derive(Debug, Clone, Copy, PartialEq, Eq, Structural)]
pub struct SR(pub u8);

impl SR {
    /// Extracts the SR field from bits 3 and 4 of `byte`.
    pub fn parse_byte(byte: u8) -> (r: SR)
        ensures
            r.0 == sr_bits(byte),
            r.0 < 4,
    {
        assert((byte >> 3) & 3 == (byte / 8) % 4) by (bit_vector);
        SR((byte >> 3) & 0b11)
    }

    /// Returns the field's value.
    pub fn as_u8(&self) -> (r: u8)
        ensures
            r == self.0,
    {
        self.0
    }
}

/// A three-bit R/M field.
#[derive(Debug, Clone, Copy, PartialEq, Eq, Structural)]
pub struct RM(pub u8);

impl RM {
    /// Extracts the R/M field, the three least significant bits of `byte`.
    pub fn parse_byte(byte: u8) -> (r: RM)
        ensures
            r.0 == low_bits(byte),
            r.0 < 8,
    {
        assert(byte & 7 == byte % 8) by (bit_vector);
        RM(byte & 0b111)
    }

    /// Returns the field's value.
    pub fn as_u8(&self) -> (r: u8)
        ensures
            r == self.0,
    {
        self.0
    }
}

} // verus!
