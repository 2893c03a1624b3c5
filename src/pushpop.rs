//! Decoding of the stack instructions PUSH and POP.

use vstd::prelude::*;

use crate::error::DecodeError;
use crate::fields::{low_bits, mod_bits, mode_of, sr_bits, Mode, Reg, RM, SR};
use crate::operand::{rm_operand_of, DResult, Operand};
use crate::register::{register_of, segment_register_of, Register, SegmentRegister};

verus! {

/// The operand of a stack instruction in register-or-memory form.
pub open spec fn stack_rm_of(bytes: Seq<u8>) -> DResult<Operand> {
    if bytes.len() < 2 {
        Err(DecodeError::Incomplete)
    } else {
        match mode_of(mod_bits(bytes[1])) {
            Ok(mode) => match rm_operand_of(true, mode, low_bits(bytes[1]), bytes.skip(2)) {
                Ok((operand, n)) => Ok((operand, (n + 2) as usize)),
                Err(e) => Err(e),
            },
            Err(e) => Err(e),
        }
    }
}

/// The operand of a stack instruction with the register in the opcode.
pub open spec fn stack_reg_of(bytes: Seq<u8>) -> Operand {
    Operand::Register(register_of(low_bits(bytes[0]), true))
}

/// The operand of a stack instruction on a segment register (bits 3 and 4).
pub open spec fn stack_seg_of(bytes: Seq<u8>) -> Result<Operand, DecodeError> {
    match segment_register_of(sr_bits(bytes[0])) {
        Ok(s) => Ok(Operand::SegmentRegister(s)),
        Err(e) => Err(e),
    }
}

fn decode_stack_rm(bytes: &[u8]) -> (r: DResult<Operand>)
    ensures
        r == stack_rm_of(bytes@),
        r is Ok ==> 2 <= r->Ok_0.1 <= bytes@.len(),
{
    if bytes.len() < 2 {
        return Err(DecodeError::Incomplete);
    }
    let mode = match Mode::try_parse_byte(bytes[1]) {
        Ok(m) => m,
        Err(e) => return Err(e),
    };
    let rm = RM::parse_byte(bytes[1]);
    let rest = vstd::slice::slice_subrange(bytes, 2, bytes.len());
    match Operand::register_or_memory(true, &mode, rm.as_u8(), rest) {
        Ok((operand, n)) => Ok((operand, n + 2)),
        Err(e) => Err(e),
    }
}

fn decode_stack_reg(bytes: &[u8]) -> (r: Operand)
    requires
        bytes@.len() >= 1,
    ensures
        r == stack_reg_of(bytes@),
{
    let reg = Reg::parse_byte_low(bytes[0]);
    Operand::Register(Register::from(reg.as_u8(), true))
}

fn decode_stack_seg(bytes: &[u8]) -> (r: Result<Operand, DecodeError>)
    requires
        bytes@.len() >= 1,
    ensures
        r == stack_seg_of(bytes@),
        r is Ok,
{
    let sr = SR::parse_byte(bytes[0]);
    match SegmentRegister::try_from_code(sr.as_u8()) {
        Ok(s) => Ok(Operand::SegmentRegister(s)),
        Err(e) => Err(e),
    }
}

/// A PUSH of one word-sized operand.
#[derive(Debug, Clone, Copy, PartialEq, Eq, Structural)]
pub struct PushOp {
    pub operand: Operand,
}

/// A POP into one word-sized operand.
#[derive(Debug, Clone, Copy, PartialEq, Eq, Structural)]
pub struct PopOp {
    pub operand: Operand,
}

impl PushOp {
    /// Decodes a PUSH of a register-or-memory operand.
    pub fn try_decode_rm(bytes: &[u8]) -> (r: DResult<PushOp>)
        ensures
            r == (match stack_rm_of(bytes@) {
                Ok((operand, n)) => Ok((PushOp { operand }, n)),
                Err(e) => Err(e),
            }),
            r is Ok ==> 2 <= r->Ok_0.1 <= bytes@.len(),
    {
        match decode_stack_rm(bytes) {
            Ok((operand, n)) => Ok((PushOp { operand }, n)),
            Err(e) => Err(e),
        }
    }

    /// Decodes a PUSH of the word register named in the opcode.
    pub fn try_decode_reg(bytes: &[u8]) -> (r: DResult<PushOp>)
        ensures
            r == (if bytes@.len() == 0 {
                Err(DecodeError::Incomplete)
            } else {
                Ok::<(PushOp, usize), DecodeError>((PushOp { operand: stack_reg_of(bytes@) }, 1usize))
            }),
    {
        if bytes.len() == 0 {
            return Err(DecodeError::Incomplete);
        }
        Ok((PushOp { operand: decode_stack_reg(bytes) }, 1))
    }

    /// Decodes a PUSH of the segment register named in bits 3 and 4.
    pub fn try_decode_seg_reg(bytes: &[u8]) -> (r: DResult<PushOp>)
        ensures
            r == (if bytes@.len() == 0 {
                Err(DecodeError::Incomplete)
            } else {
                Ok::<(PushOp, usize), DecodeError>((PushOp { operand: stack_seg_of(bytes@)->Ok_0 }, 1usize))
            }),
    {
        if bytes.len() == 0 {
            return Err(DecodeError::Incomplete);
        }
        match decode_stack_seg(bytes) {
            Ok(operand) => Ok((PushOp { operand }, 1)),
            Err(e) => Err(e),
        }
    }
}

impl PopOp {
    /// Decodes a POP into a register-or-memory operand.
    pub fn try_decode_rm(bytes: &[u8]) -> (r: DResult<PopOp>)
        ensures
            r == (match stack_rm_of(bytes@) {
                Ok((operand, n)) => Ok((PopOp { operand }, n)),
                Err(e) => Err(e),
            }),
            r is Ok ==> 2 <= r->Ok_0.1 <= bytes@.len(),
    {
        match decode_stack_rm(bytes) {
            Ok((operand, n)) => Ok((PopOp { operand }, n)),
            Err(e) => Err(e),
        }
    }

    /// Decodes a POP into the word register named in the opcode.
    pub fn try_decode_reg(bytes: &[u8]) -> (r: DResult<PopOp>)
        ensures
            r == (if bytes@.len() == 0 {
                Err(DecodeError::Incomplete)
            } else {
                Ok::<(PopOp, usize), DecodeError>((PopOp { operand: stack_reg_of(bytes@) }, 1usize))
            }),
    {
        if bytes.len() == 0 {
            return Err(DecodeError::Incomplete);
        }
        Ok((PopOp { operand: decode_stack_reg(bytes) }, 1))
    }

    /// Decodes a POP into the segment register named in bits 3 and 4.
    pub fn try_decode_seg_reg(bytes: &[u8]) -> (r: DResult<PopOp>)
        ensures
            r == (if bytes@.len() == 0 {
                Err(DecodeError::Incomplete)
            } else {
                Ok::<(PopOp, usize), DecodeError>((PopOp { operand: stack_seg_of(bytes@)->Ok_0 }, 1usize))
            }),
    {
        if bytes.len() == 0 {
            return Err(DecodeError::Incomplete);
        }
        match decode_stack_seg(bytes) {
            Ok(operand) => Ok((PopOp { operand }, 1)),
            Err(e) => Err(e),
        }
    }
}

} // verus!
