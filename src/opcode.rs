//! Classification of the first byte of an instruction.

use vstd::prelude::*;

use crate::error::DecodeError;

verus! {

/// The instruction family and addressing form that an opcode byte selects.
#[derive(Debug, Clone, Copy, PartialEq, Eq, Structural)]
pub enum OpCode {
    MovRegRM,
    MovImRM,
    MovImReg,
    MovMemAcc,
    MovRMSegReg,
    MovSegRegRM,
    NumImRM,
    AddRMReg,
    AdcRMReg,
    SubRMReg,
    SbbRMReg,
    CmpRMReg,
    AddImAcc,
    AdcImAcc,
    SubImAcc,
    SbbImAcc,
    CmpImAcc,
    JumpEqual,
    JumpLess,
    JumpLessEq,
    JumpBelow,
    JumpBelowEq,
    JumpParityEven,
    JumpOverflow,
    JumpNEqual,
    JumpSign,
    JumpGreaterEq,
    JumpGreater,
    JumpAboveEq,
    JumpAbove,
    JumpParityOdd,
    JumpNOverflow,
    JumpNSign,
    JumpCXZero,
    Loop,
    LoopEqual,
    LoopNEqual,
    PushRegRM,
    PushReg,
    PopRegRM,
    PopReg,
    PushPopSeg,
    Halt,
}

/// Whether the `len` most significant bits of `byte` equal `prefix`.
pub open spec fn has_prefix(byte: u8, prefix: u8, len: u8) -> bool {
    if len == 8 {
        byte == prefix
    } else if len == 7 {
        byte / 2 == prefix
    } else if len == 6 {
        byte / 4 == prefix
    } else if len == 5 {
        byte / 8 == prefix
    } else if len == 4 {
        byte / 16 == prefix
    } else {
        byte / 32 == prefix
    }
}

/// The opcode whose bit prefix `byte` starts with; the first match in the
/// table wins.
pub open spec fn opcode_of(byte: u8) -> Result<OpCode, DecodeError> {
    if has_prefix(byte, 0b100010, 6) {
        Ok(OpCode::MovRegRM)
    } else if has_prefix(byte, 0b1100011, 7) {
        Ok(OpCode::MovImRM)
    } else if has_prefix(byte, 0b1011, 4) {
        Ok(OpCode::MovImReg)
    } else if has_prefix(byte, 0b101000, 6) {
        Ok(OpCode::MovMemAcc)
    } else if has_prefix(byte, 0b10001110, 8) {
        Ok(OpCode::MovRMSegReg)
    } else if has_prefix(byte, 0b10001100, 8) {
        Ok(OpCode::MovSegRegRM)
    } else if has_prefix(byte, 0b100000, 6) {
        Ok(OpCode::NumImRM)
    } else if has_prefix(byte, 0b000000, 6) {
        Ok(OpCode::AddRMReg)
    } else if has_prefix(byte, 0b000100, 6) {
        Ok(OpCode::AdcRMReg)
    } else if has_prefix(byte, 0b001010, 6) {
        Ok(OpCode::SubRMReg)
    } else if has_prefix(byte, 0b000110, 6) {
        Ok(OpCode::SbbRMReg)
    } else if has_prefix(byte, 0b001110, 6) {
        Ok(OpCode::CmpRMReg)
    } else if has_prefix(byte, 0b0000010, 7) {
        Ok(OpCode::AddImAcc)
    } else if has_prefix(byte, 0b0001010, 7) {
        Ok(OpCode::AdcImAcc)
    } else if has_prefix(byte, 0b0010110, 7) {
        Ok(OpCode::SubImAcc)
    } else if has_prefix(byte, 0b0001110, 7) {
        Ok(OpCode::SbbImAcc)
    } else if has_prefix(byte, 0b0011110, 7) {
        Ok(OpCode::CmpImAcc)
    } else if has_prefix(byte, 0b01110100, 8) {
        Ok(OpCode::JumpEqual)
    } else if has_prefix(byte, 0b01111100, 8) {
        Ok(OpCode::JumpLess)
    } else if has_prefix(byte, 0b01111110, 8) {
        Ok(OpCode::JumpLessEq)
    } else if has_prefix(byte, 0b01110010, 8) {
        Ok(OpCode::JumpBelow)
    } else if has_prefix(byte, 0b01110110, 8) {
        Ok(OpCode::JumpBelowEq)
    } else if has_prefix(byte, 0b01111010, 8) {
        Ok(OpCode::JumpParityEven)
    } else if has_prefix(byte, 0b01110000, 8) {
        Ok(OpCode::JumpOverflow)
    } else if has_prefix(byte, 0b01110101, 8) {
        Ok(OpCode::JumpNEqual)
    } else if has_prefix(byte, 0b01111000, 8) {
        Ok(OpCode::JumpSign)
    } else if has_prefix(byte, 0b01111101, 8) {
        Ok(OpCode::JumpGreaterEq)
    } else if has_prefix(byte, 0b01111111, 8) {
        Ok(OpCode::JumpGreater)
    } else if has_prefix(byte, 0b01110011, 8) {
        Ok(OpCode::JumpAboveEq)
    } else if has_prefix(byte, 0b01110111, 8) {
        Ok(OpCode::JumpAbove)
    } else if has_prefix(byte, 0b01111011, 8) {
        Ok(OpCode::JumpParityOdd)
    } else if has_prefix(byte, 0b01110001, 8) {
        Ok(OpCode::JumpNOverflow)
    } else if has_prefix(byte, 0b01111001, 8) {
        Ok(OpCode::JumpNSign)
    } else if has_prefix(byte, 0b11100011, 8) {
        Ok(OpCode::JumpCXZero)
    } else if has_prefix(byte, 0b11100010, 8) {
        Ok(OpCode::Loop)
    } else if has_prefix(byte, 0b11100001, 8) {
        Ok(OpCode::LoopEqual)
    } else if has_prefix(byte, 0b11100000, 8) {
        Ok(OpCode::LoopNEqual)
    } else if has_prefix(byte, 0b11111111, 8) {
        Ok(OpCode::PushRegRM)
    } else if has_prefix(byte, 0b01010, 5) {
        Ok(OpCode::PushReg)
    } else if has_prefix(byte, 0b10001111, 8) {
        Ok(OpCode::PopRegRM)
    } else if has_prefix(byte, 0b01011, 5) {
        Ok(OpCode::PopReg)
    } else if has_prefix(byte, 0b000, 3) {
        Ok(OpCode::PushPopSeg)
    } else if has_prefix(byte, 0b11110100, 8) {
        Ok(OpCode::Halt)
    } else {
        Err(DecodeError::OpCode(byte))
    }
}

/// Returns whether the `len` most significant bits of `byte` equal `prefix`.
fn starts_with(byte: u8, prefix: u8, len: u8) -> (r: bool)
    ensures
        r == has_prefix(byte, prefix, len),
{
    match len {
        8 => byte == prefix,
        7 => byte / 2 == prefix,
        6 => byte / 4 == prefix,
        5 => byte / 8 == prefix,
        4 => byte / 16 == prefix,
        _ => byte / 32 == prefix,
    }
}

impl OpCode {
    /// Classifies an opcode byte.
    pub fn parse(byte: u8) -> (r: Result<OpCode, DecodeError>)
        ensures
            r == opcode_of(byte),
    {
        if starts_with(byte, 0b100010, 6) {
            Ok(OpCode::MovRegRM)
        } else if starts_with(byte, 0b1100011, 7) {
            Ok(OpCode::MovImRM)
        } else if starts_with(byte, 0b1011, 4) {
            Ok(OpCode::MovImReg)
        } else if starts_with(byte, 0b101000, 6) {
            Ok(OpCode::MovMemAcc)
        } else if starts_with(byte, 0b10001110, 8) {
            Ok(OpCode::MovRMSegReg)
        } else if starts_with(byte, 0b10001100, 8) {
            Ok(OpCode::MovSegRegRM)
        } else if starts_with(byte, 0b100000, 6) {
            Ok(OpCode::NumImRM)
        } else if starts_with(byte, 0b000000, 6) {
            Ok(OpCode::AddRMReg)
        } else if starts_with(byte, 0b000100, 6) {
            Ok(OpCode::AdcRMReg)
        } else if starts_with(byte, 0b001010, 6) {
            Ok(OpCode::SubRMReg)
        } else if starts_with(byte, 0b000110, 6) {
            Ok(OpCode::SbbRMReg)
        } else if starts_with(byte, 0b001110, 6) {
            Ok(OpCode::CmpRMReg)
        } else if starts_with(byte, 0b0000010, 7) {
            Ok(OpCode::AddImAcc)
        } else if starts_with(byte, 0b0001010, 7) {
            Ok(OpCode::AdcImAcc)
        } else if starts_with(byte, 0b0010110, 7) {
            Ok(OpCode::SubImAcc)
        } else if starts_with(byte, 0b0001110, 7) {
            Ok(OpCode::SbbImAcc)
        } else if starts_with(byte, 0b0011110, 7) {
            Ok(OpCode::CmpImAcc)
        } else if starts_with(byte, 0b01110100, 8) {
            Ok(OpCode::JumpEqual)
        } else if starts_with(byte, 0b01111100, 8) {
            Ok(OpCode::JumpLess)
        } else if starts_with(byte, 0b01111110, 8) {
            Ok(OpCode::JumpLessEq)
        } else if starts_with(byte, 0b01110010, 8) {
            Ok(OpCode::JumpBelow)
        } else if starts_with(byte, 0b01110110, 8) {
            Ok(OpCode::JumpBelowEq)
        } else if starts_with(byte, 0b01111010, 8) {
            Ok(OpCode::JumpParityEven)
        } else if starts_with(byte, 0b01110000, 8) {
            Ok(OpCode::JumpOverflow)
        } else if starts_with(byte, 0b01110101, 8) {
            Ok(OpCode::JumpNEqual)
        } else if starts_with(byte, 0b01111000, 8) {
            Ok(OpCode::JumpSign)
        } else if starts_with(byte, 0b01111101, 8) {
            Ok(OpCode::JumpGreaterEq)
        } else if starts_with(byte, 0b01111111, 8) {
            Ok(OpCode::JumpGreater)
        } else if starts_with(byte, 0b01110011, 8) {
            Ok(OpCode::JumpAboveEq)
        } else if starts_with(byte, 0b01110111, 8) {
            Ok(OpCode::JumpAbove)
        } else if starts_with(byte, 0b01111011, 8) {
            Ok(OpCode::JumpParityOdd)
        } else if starts_with(byte, 0b01110001, 8) {
            Ok(OpCode::JumpNOverflow)
        } else if starts_with(byte, 0b01111001, 8) {
            Ok(OpCode::JumpNSign)
        } else if starts_with(byte, 0b11100011, 8) {
            Ok(OpCode::JumpCXZero)
        } else if starts_with(byte, 0b11100010, 8) {
            Ok(OpCode::Loop)
        } else if starts_with(byte, 0b11100001, 8) {
            Ok(OpCode::LoopEqual)
        } else if starts_with(byte, 0b11100000, 8) {
            Ok(OpCode::LoopNEqual)
        } else if starts_with(byte, 0b11111111, 8) {
            Ok(OpCode::PushRegRM)
        } else if starts_with(byte, 0b01010, 5) {
            Ok(OpCode::PushReg)
        } else if starts_with(byte, 0b10001111, 8) {
            Ok(OpCode::PopRegRM)
        } else if starts_with(byte, 0b01011, 5) {
            Ok(OpCode::PopReg)
        } else if starts_with(byte, 0b000, 3) {
            Ok(OpCode::PushPopSeg)
        } else if starts_with(byte, 0b11110100, 8) {
            Ok(OpCode::Halt)
        } else {
            Err(DecodeError::OpCode(byte))
        }
    }
}

} // verus!
