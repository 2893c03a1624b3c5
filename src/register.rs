//! Register names and their encodings.

use vstd::prelude::*;

use crate::error::DecodeError;

verus! {

/// A general register: a byte half, a paired word, or a word-only register.
#[derive(Debug, Clone, Copy, PartialEq, Eq, Structural)]
pub enum Register {
    AL,
    BL,
    CL,
    DL,
    AH,
    BH,
    CH,
    DH,
    AX,
    BX,
    CX,
    DX,
    SP,
    BP,
    SI,
    DI,
}

/// The register that a three-bit code names at the given width.
pub open spec fn register_of(code: u8, w: bool) -> Register {
    if w {
        if code == 0 {
            Register::AX
        } else if code == 1 {
            Register::CX
        } else if code == 2 {
            Register::DX
        } else if code == 3 {
            Register::BX
        } else if code == 4 {
            Register::SP
        } else if code == 5 {
            Register::BP
        } else if code == 6 {
            Register::SI
        } else {
            Register::DI
        }
    } else {
        if code == 0 {
            Register::AL
        } else if code == 1 {
            Register::CL
        } else if code == 2 {
            Register::DL
        } else if code == 3 {
            Register::BL
        } else if code == 4 {
            Register::AH
        } else if code == 5 {
            Register::CH
        } else if code == 6 {
            Register::DH
        } else {
            Register::BH
        }
    }
}

impl Register {
    /// Whether the register holds a word (as opposed to a byte half).
    pub open spec fn is_word(self) -> bool {
        match self {
            Register::AL | Register::BL | Register::CL | Register::DL | Register::AH
            | Register::BH | Register::CH | Register::DH => false,
            _ => true,
        }
    }

    /// Creates a register from a three-bit code and the `W` bit.
    pub fn from(code: u8, w: bool) -> (r: Register)
        requires
            code < 8,
        ensures
            r == register_of(code, w),
            r.is_word() == w,
    {
        if w {
            match code {
                0 => Register::AX,
                1 => Register::CX,
                2 => Register::DX,
                3 => Register::BX,
                4 => Register::SP,
                5 => Register::BP,
                6 => Register::SI,
                _ => Register::DI,
            }
        } else {
            match code {
                0 => Register::AL,
                1 => Register::CL,
                2 => Register::DL,
                3 => Register::BL,
                4 => Register::AH,
                5 => Register::CH,
                6 => Register::DH,
                _ => Register::BH,
            }
        }
    }
}

/// A segment register.
#[derive(Debug, Clone, Copy, PartialEq, Eq, Structural)]
pub enum SegmentRegister {
    ES,
    CS,
    SS,
    DS,
}

/// The segment register that a two-bit code names.
pub open spec fn segment_register_of(code: u8) -> Result<SegmentRegister, DecodeError> {
    if code == 0 {
        Ok(SegmentRegister::ES)
    } else if code == 1 {
        Ok(SegmentRegister::CS)
    } else if code == 2 {
        Ok(SegmentRegister::SS)
    } else if code == 3 {
        Ok(SegmentRegister::DS)
    } else {
        Err(DecodeError::SegmentRegister)
    }
}

impl SegmentRegister {
    /// Converts a two-bit code into a segment register.
    pub fn try_from_code(code: u8) -> (r: Result<SegmentRegister, DecodeError>)
        ensures
            r == segment_register_of(code),
    {
        match code {
            0 => Ok(SegmentRegister::ES),
            1 => Ok(SegmentRegister::CS),
            2 => Ok(SegmentRegister::SS),
            3 => Ok(SegmentRegister::DS),
            _ => Err(DecodeError::SegmentRegister),
        }
    }
}

} // verus!
