//! Decoding of the data-move (MOV) instructions.

use vstd::prelude::*;

use crate::address::{le_u16, read_i16, read_u16};
use crate::error::DecodeError;
use crate::fields::{bit, low_bits, mid_bits, mod_bits, mode_of, Direction, Mode, Reg, Width, RM};
use crate::operand::{get_operands, operands_of, rm_operand_of, DResult, Operand};
use crate::register::{register_of, segment_register_of, Register, SegmentRegister};
use crate::address::EffectiveAddr;
use crate::value::{word_of, Value};

verus! {

/// A data move from `source` to `destination`.
#[derive(Debug, Clone, Copy, PartialEq, Eq, Structural)]
pub struct MovOp {
    pub source: Operand,
    pub destination: Operand,
}

/// The direction that bit 1 of an opcode byte selects.
pub open spec fn direction_of(byte: u8) -> Direction {
    if bit(byte, 1) {
        Direction::Destination
    } else {
        Direction::Source
    }
}

/// The operands of an instruction with a ModR/M byte at `bytes[1]` and the
/// direction and width bits in `bytes[0]`, with the total length.
pub open spec fn modrm_pair_of(bytes: Seq<u8>) -> DResult<(Operand, Operand)> {
    if bytes.len() < 2 {
        Err(DecodeError::Incomplete)
    } else {
        match mode_of(mod_bits(bytes[1])) {
            Ok(mode) => match operands_of(
                mode,
                direction_of(bytes[0]),
                bit(bytes[0], 0),
                mid_bits(bytes[1]),
                low_bits(bytes[1]),
                bytes.skip(2),
            ) {
                Ok((pair, n)) => Ok((pair, (n + 2) as usize)),
                Err(e) => Err(e),
            },
            Err(e) => Err(e),
        }
    }
}

/// The immediate of the given width at `bytes[at]`.
pub open spec fn immediate_at(bytes: Seq<u8>, at: int, w: bool) -> Value {
    if w {
        Value::Word(word_of(bytes[at], bytes[at + 1]))
    } else {
        Value::Byte(bytes[at] as i8)
    }
}

/// Register / register-or-memory MOV.
pub open spec fn mov_reg_rm_of(bytes: Seq<u8>) -> DResult<MovOp> {
    match modrm_pair_of(bytes) {
        Ok(((source, destination), n)) => Ok((MovOp { source, destination }, n)),
        Err(e) => Err(e),
    }
}

/// Immediate to register-or-memory MOV; the REG field must be `000`.
pub open spec fn mov_im_rm_of(bytes: Seq<u8>) -> DResult<MovOp> {
    if bytes.len() < 2 {
        Err(DecodeError::Incomplete)
    } else if mid_bits(bytes[1]) != 0 {
        Err(DecodeError::OpCode(bytes[0]))
    } else {
        let w = bit(bytes[0], 0);
        match mode_of(mod_bits(bytes[1])) {
            Ok(mode) => match rm_operand_of(w, mode, low_bits(bytes[1]), bytes.skip(2)) {
                Ok((destination, n)) => {
                    let len = 2 + n + if w { 2int } else { 1int };
                    if bytes.len() < len {
                        Err(DecodeError::Incomplete)
                    } else {
                        Ok((MovOp { source: Operand::Immediate(immediate_at(bytes, 2 + n, w)), destination }, len as usize))
                    }
                },
                Err(e) => Err(e),
            },
            Err(e) => Err(e),
        }
    }
}

/// Immediate to register MOV; width in bit 3, register in the low bits.
pub open spec fn mov_im_reg_of(bytes: Seq<u8>) -> DResult<MovOp> {
    let w = bit(bytes[0], 3);
    let len = if w { 3int } else { 2int };
    if bytes.len() == 0 || bytes.len() < len {
        Err(DecodeError::Incomplete)
    } else {
        Ok((
            MovOp {
                source: Operand::Immediate(immediate_at(bytes, 1, w)),
                destination: Operand::Register(register_of(low_bits(bytes[0]), w)),
            },
            len as usize,
        ))
    }
}

/// Memory / accumulator MOV with a 16-bit absolute address.
pub open spec fn mov_mem_acc_of(bytes: Seq<u8>) -> DResult<MovOp> {
    if bytes.len() < 3 {
        Err(DecodeError::Incomplete)
    } else {
        let mem = Operand::Memory(EffectiveAddr::Direct(le_u16(bytes[1], bytes[2])));
        let acc = Operand::Register(if bit(bytes[0], 0) { Register::AX } else { Register::AL });
        if bit(bytes[0], 1) {
            Ok((MovOp { source: acc, destination: mem }, 3usize))
        } else {
            Ok((MovOp { source: mem, destination: acc }, 3usize))
        }
    }
}

/// Register-or-memory / segment register MOV; always word-sized.
pub open spec fn mov_rm_segreg_of(bytes: Seq<u8>) -> DResult<MovOp> {
    if bytes.len() < 2 {
        Err(DecodeError::Incomplete)
    } else {
        match mode_of(mod_bits(bytes[1])) {
            Ok(mode) => match segment_register_of(mid_bits(bytes[1])) {
                Ok(segreg) => match rm_operand_of(true, mode, low_bits(bytes[1]), bytes.skip(2)) {
                    Ok((rm_operand, n)) => {
                        let seg = Operand::SegmentRegister(segreg);
                        if bit(bytes[0], 1) {
                            Ok((MovOp { source: rm_operand, destination: seg }, (n + 2) as usize))
                        } else {
                            Ok((MovOp { source: seg, destination: rm_operand }, (n + 2) as usize))
                        }
                    },
                    Err(e) => Err(e),
                },
                Err(e) => Err(e),
            },
            Err(e) => Err(e),
        }
    }
}

/// Reads the immediate of the given width at `bytes[at]`.
pub(crate) fn read_immediate(bytes: &[u8], at: usize, w: bool) -> (r: Value)
    requires
        at + (if w { 2int } else { 1int }) <= bytes@.len(),
    ensures
        r == immediate_at(bytes@, at as int, w),
{
    if w {
        Value::Word(read_i16(bytes[at], bytes[at + 1]))
    } else {
        Value::byte(bytes[at])
    }
}

impl MovOp {
    /// Creates a move from `source` to `destination`.
    fn new(source: Operand, destination: Operand) -> (r: MovOp)
        ensures
            r == (MovOp { source, destination }),
    {
        MovOp { source, destination }
    }

    /// Decodes a register / register-or-memory MOV.
    pub fn try_parse_reg_rm(bytes: &[u8]) -> (r: DResult<MovOp>)
        ensures
            r == mov_reg_rm_of(bytes@),
            r is Ok ==> 2 <= r->Ok_0.1 <= bytes@.len(),
    {
        match parse_modrm_pair(bytes) {
            Ok(((source, destination), n)) => Ok((MovOp::new(source, destination), n)),
            Err(e) => Err(e),
        }
    }

    /// Decodes an immediate to register-or-memory MOV.
    pub fn try_parse_im_rm(bytes: &[u8]) -> (r: DResult<MovOp>)
        ensures
            r == mov_im_rm_of(bytes@),
            r is Ok ==> 3 <= r->Ok_0.1 <= bytes@.len(),
    {
        if bytes.len() < 2 {
            return Err(DecodeError::Incomplete);
        }
        if Reg::parse_byte_mid(bytes[1]).as_u8() != 0 {
            return Err(DecodeError::OpCode(bytes[0]));
        }
        let width = Width::parse_byte(bytes[0], 0);
        let w = width.as_bool();
        let mode = match Mode::try_parse_byte(bytes[1]) {
            Ok(m) => m,
            Err(e) => return Err(e),
        };
        let rm = RM::parse_byte(bytes[1]);
        let rest = vstd::slice::slice_subrange(bytes, 2, bytes.len());
        match Operand::register_or_memory(w, &mode, rm.as_u8(), rest) {
            Ok((destination, n)) => {
                let len = 2 + n + width.n_bytes();
                if bytes.len() < len {
                    Err(DecodeError::Incomplete)
                } else {
                    let source = Operand::immediate(read_immediate(bytes, 2 + n, w));
                    Ok((MovOp::new(source, destination), len))
                }
            },
            Err(e) => Err(e),
        }
    }

    /// Decodes an immediate to register MOV.
    pub fn try_parse_im_reg(bytes: &[u8]) -> (r: DResult<MovOp>)
        ensures
            r == mov_im_reg_of(bytes@),
            r is Ok ==> 2 <= r->Ok_0.1 <= bytes@.len(),
    {
        if bytes.len() == 0 {
            return Err(DecodeError::Incomplete);
        }
        let width = Width::parse_byte_mid(bytes[0]);
        let w = width.as_bool();
        let len = 1 + width.n_bytes();
        if bytes.len() < len {
            return Err(DecodeError::Incomplete);
        }
        let reg = Reg::parse_byte_low(bytes[0]);
        let source = Operand::immediate(read_immediate(bytes, 1, w));
        let destination = Operand::register(reg.as_u8(), w);
        Ok((MovOp::new(source, destination), len))
    }

    /// Decodes a memory / accumulator MOV.
    pub fn try_decode_mem_acc(bytes: &[u8]) -> (r: DResult<MovOp>)
        ensures
            r == mov_mem_acc_of(bytes@),
            r is Ok ==> 3 <= r->Ok_0.1 <= bytes@.len(),
    {
        if bytes.len() < 3 {
            return Err(DecodeError::Incomplete);
        }
        let mem = Operand::Memory(EffectiveAddr::Direct(read_u16(bytes[1], bytes[2])));
        let acc = match Width::parse_byte(bytes[0], 0) {
            Width::Byte => Operand::Register(Register::AL),
            Width::Word => Operand::Register(Register::AX),
        };
        if crate::fields::get_bit(bytes[0], 1) {
            Ok((MovOp::new(acc, mem), 3))
        } else {
            Ok((MovOp::new(mem, acc), 3))
        }
    }

    /// Decodes a register-or-memory / segment register MOV.
    pub fn try_decode_rm_segreg(bytes: &[u8]) -> (r: DResult<MovOp>)
        ensures
            r == mov_rm_segreg_of(bytes@),
            r is Ok ==> 2 <= r->Ok_0.1 <= bytes@.len(),
    {
        if bytes.len() < 2 {
            return Err(DecodeError::Incomplete);
        }
        let mode = match Mode::try_parse_byte(bytes[1]) {
            Ok(m) => m,
            Err(e) => return Err(e),
        };
        let segreg = match SegmentRegister::try_from_code(Reg::parse_byte_mid(bytes[1]).as_u8()) {
            Ok(s) => s,
            Err(e) => return Err(e),
        };
        let rm = RM::parse_byte(bytes[1]);
        let rest = vstd::slice::slice_subrange(bytes, 2, bytes.len());
        match Operand::register_or_memory(true, &mode, rm.as_u8(), rest) {
            Ok((rm_operand, n)) => {
                let seg = Operand::SegmentRegister(segreg);
                match Direction::parse_byte(bytes[0]) {
                    Direction::Destination => Ok((MovOp::new(rm_operand, seg), n + 2)),
                    Direction::Source => Ok((MovOp::new(seg, rm_operand), n + 2)),
                }
            },
            Err(e) => Err(e),
        }
    }
}

/// Decodes the operands of an instruction with a ModR/M byte: shared by the
/// MOV and arithmetic register / register-or-memory forms.
pub(crate) fn parse_modrm_pair(bytes: &[u8]) -> (r: DResult<(Operand, Operand)>)
    ensures
        r == modrm_pair_of(bytes@),
        r is Ok ==> 2 <= r->Ok_0.1 <= bytes@.len(),
{
    if bytes.len() < 2 {
        return Err(DecodeError::Incomplete);
    }
    let direction = Direction::parse_byte(bytes[0]);
    let width = Width::parse_byte(bytes[0], 0);
    let mode = match Mode::try_parse_byte(bytes[1]) {
        Ok(m) => m,
        Err(e) => return Err(e),
    };
    let reg = Reg::parse_byte_mid(bytes[1]);
    let rm = RM::parse_byte(bytes[1]);
    let rest = vstd::slice::slice_subrange(bytes, 2, bytes.len());
    match get_operands(mode, direction, width, reg, rm, rest) {
        Ok((pair, n)) => Ok((pair, n + 2)),
        Err(e) => Err(e),
    }
}

} // verus!
