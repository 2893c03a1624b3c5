//! Decoding of the arithmetic instructions ADD, ADC, SUB, SBB and CMP.

use vstd::prelude::*;

use crate::error::DecodeError;
use crate::fields::{bit, low_bits, mid_bits, mod_bits, mode_of, Mode, Reg, Sign, Width, RM};
use crate::mov::{immediate_at, modrm_pair_of, parse_modrm_pair, read_immediate};
use crate::operand::{rm_operand_of, DResult, Operand};
use crate::register::Register;
use crate::value::Value;

verus! {

/// The kind of an arithmetic instruction.
#[derive(Debug, Clone, Copy, PartialEq, Eq, Structural)]
pub enum NumOpType {
    Add,
    Adc,
    Sub,
    Sbb,
    Cmp,
}

/// The arithmetic kind that the REG field of an immediate arithmetic
/// instruction names.
pub open spec fn num_type_of(code: u8) -> Result<NumOpType, DecodeError> {
    if code == 0 {
        Ok(NumOpType::Add)
    } else if code == 2 {
        Ok(NumOpType::Adc)
    } else if code == 5 {
        Ok(NumOpType::Sub)
    } else if code == 3 {
        Ok(NumOpType::Sbb)
    } else if code == 7 {
        Ok(NumOpType::Cmp)
    } else {
        Err(DecodeError::NumType)
    }
}

impl NumOpType {
    /// Extracts the arithmetic kind from the REG field (bits 3 to 5) of `byte`.
    pub fn try_parse_byte(byte: u8) -> (r: Result<NumOpType, DecodeError>)
        ensures
            r == num_type_of(mid_bits(byte)),
    {
        match Reg::parse_byte_mid(byte).as_u8() {
            0 => Ok(NumOpType::Add),
            2 => Ok(NumOpType::Adc),
            5 => Ok(NumOpType::Sub),
            3 => Ok(NumOpType::Sbb),
            7 => Ok(NumOpType::Cmp),
            _ => Err(DecodeError::NumType),
        }
    }
}

/// An arithmetic instruction with its source and destination operands.
#[derive(Debug, Clone, Copy, PartialEq, Eq, Structural)]
pub enum NumOp {
    Add { source: Operand, destination: Operand },
    Adc { source: Operand, destination: Operand },
    Sub { source: Operand, destination: Operand },
    Sbb { source: Operand, destination: Operand },
    Cmp { source: Operand, destination: Operand },
}

/// The arithmetic instruction of the given kind.
pub open spec fn num_op_of(source: Operand, destination: Operand, optype: NumOpType) -> NumOp {
    match optype {
        NumOpType::Add => NumOp::Add { source, destination },
        NumOpType::Adc => NumOp::Adc { source, destination },
        NumOpType::Sub => NumOp::Sub { source, destination },
        NumOpType::Sbb => NumOp::Sbb { source, destination },
        NumOpType::Cmp => NumOp::Cmp { source, destination },
    }
}

/// Register / register-or-memory arithmetic of the given kind.
pub open spec fn num_rm_reg_of(bytes: Seq<u8>, optype: NumOpType) -> DResult<NumOp> {
    match modrm_pair_of(bytes) {
        Ok(((source, destination), n)) => Ok((num_op_of(source, destination, optype), n)),
        Err(e) => Err(e),
    }
}

/// Immediate to register-or-memory arithmetic; the kind is in the REG field.
///
/// The immediate is one byte for a byte destination or when the sign bit is
/// set (then sign-extended to a word), and two bytes otherwise.
pub open spec fn num_im_rm_of(bytes: Seq<u8>) -> DResult<NumOp> {
    if bytes.len() < 2 {
        Err(DecodeError::Incomplete)
    } else {
        let w = bit(bytes[0], 0);
        let s = bit(bytes[0], 1);
        match mode_of(mod_bits(bytes[1])) {
            Ok(mode) => match num_type_of(mid_bits(bytes[1])) {
                Ok(optype) => match rm_operand_of(w, mode, low_bits(bytes[1]), bytes.skip(2)) {
                    Ok((destination, n)) => {
                        let wide = w && !s;
                        let len = 2 + n + if wide { 2int } else { 1int };
                        if bytes.len() < len {
                            Err(DecodeError::Incomplete)
                        } else {
                            let imm = if w && s {
                                Value::Word(bytes[2 + n] as i8 as i16)
                            } else {
                                immediate_at(bytes, 2 + n, wide)
                            };
                            Ok((num_op_of(Operand::Immediate(imm), destination, optype), len as usize))
                        }
                    },
                    Err(e) => Err(e),
                },
                Err(e) => Err(e),
            },
            Err(e) => Err(e),
        }
    }
}

/// Immediate to accumulator arithmetic of the given kind.
pub open spec fn num_im_acc_of(bytes: Seq<u8>, optype: NumOpType) -> DResult<NumOp> {
    let w = bit(bytes[0], 0);
    let len = if w { 3int } else { 2int };
    if bytes.len() == 0 || bytes.len() < len {
        Err(DecodeError::Incomplete)
    } else {
        let acc = Operand::Register(if w { Register::AX } else { Register::AL });
        Ok((num_op_of(Operand::Immediate(immediate_at(bytes, 1, w)), acc, optype), len as usize))
    }
}

impl NumOp {
    /// Creates the arithmetic instruction of the given kind.
    fn new(source: Operand, destination: Operand, optype: NumOpType) -> (r: NumOp)
        ensures
            r == num_op_of(source, destination, optype),
    {
        match optype {
            NumOpType::Add => NumOp::Add { source, destination },
            NumOpType::Adc => NumOp::Adc { source, destination },
            NumOpType::Sub => NumOp::Sub { source, destination },
            NumOpType::Sbb => NumOp::Sbb { source, destination },
            NumOpType::Cmp => NumOp::Cmp { source, destination },
        }
    }

    /// Decodes a register / register-or-memory arithmetic instruction.
    pub fn try_decode_rm_reg(bytes: &[u8], optype: NumOpType) -> (r: DResult<NumOp>)
        ensures
            r == num_rm_reg_of(bytes@, optype),
            r is Ok ==> 2 <= r->Ok_0.1 <= bytes@.len(),
    {
        match parse_modrm_pair(bytes) {
            Ok(((source, destination), n)) => Ok((NumOp::new(source, destination, optype), n)),
            Err(e) => Err(e),
        }
    }

    /// Decodes an immediate to register-or-memory arithmetic instruction.
    pub fn try_decode_im_rm(bytes: &[u8]) -> (r: DResult<NumOp>)
        ensures
            r == num_im_rm_of(bytes@),
            r is Ok ==> 3 <= r->Ok_0.1 <= bytes@.len(),
    {
        if bytes.len() < 2 {
            return Err(DecodeError::Incomplete);
        }
        let width = Width::parse_byte(bytes[0], 0);
        let sign = Sign::parse_byte(bytes[0]);
        let mode = match Mode::try_parse_byte(bytes[1]) {
            Ok(m) => m,
            Err(e) => return Err(e),
        };
        let optype = match NumOpType::try_parse_byte(bytes[1]) {
            Ok(t) => t,
            Err(e) => return Err(e),
        };
        let rm = RM::parse_byte(bytes[1]);
        let w = width.as_bool();
        let rest = vstd::slice::slice_subrange(bytes, 2, bytes.len());
        match Operand::register_or_memory(w, &mode, rm.as_u8(), rest) {
            Ok((destination, n)) => {
                let extend = match sign {
                    Sign::Extend => true,
                    Sign::NoExtention => false,
                };
                let wide = w && !extend;
                let len = if wide { 4 + n } else { 3 + n };
                if bytes.len() < len {
                    return Err(DecodeError::Incomplete);
                }
                let imm = if w && extend {
                    Value::Word(bytes[2 + n] as i8 as i16)
                } else {
                    read_immediate(bytes, 2 + n, wide)
                };
                Ok((NumOp::new(Operand::immediate(imm), destination, optype), len))
            },
            Err(e) => Err(e),
        }
    }

    /// Decodes an immediate to accumulator arithmetic instruction.
    pub fn try_decode_im_acc(bytes: &[u8], optype: NumOpType) -> (r: DResult<NumOp>)
        ensures
            r == num_im_acc_of(bytes@, optype),
            r is Ok ==> 2 <= r->Ok_0.1 <= bytes@.len(),
    {
        if bytes.len() == 0 {
            return Err(DecodeError::Incomplete);
        }
        let width = Width::parse_byte(bytes[0], 0);
        let w = width.as_bool();
        let len = 1 + width.n_bytes();
        if bytes.len() < len {
            return Err(DecodeError::Incomplete);
        }
        let acc = if w {
            Operand::Register(Register::AX)
        } else {
            Operand::Register(Register::AL)
        };
        Ok((NumOp::new(Operand::immediate(read_immediate(bytes, 1, w)), acc, optype), len))
    }
}

} // verus!
