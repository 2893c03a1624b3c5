//! Errors of the decoder and of the executor.

use vstd::prelude::*;

verus! {

/// Why a byte stream could not be decoded.
#[derive(Debug, Clone, Copy, PartialEq, Eq, Structural)]
pub enum DecodeError {
    /// The two-bit mode field held an illegal value.
    Mode,
    /// The REG field of an immediate arithmetic instruction names no
    /// arithmetic operation.
    NumType,
    /// The segment-register field names no segment register.
    SegmentRegister,
    /// The first byte matches no known opcode; it is carried for diagnostics.
    OpCode(u8),
    /// A displacement was requested in register mode.
    Displacement,
    /// The stream ends in the middle of an instruction.
    Incomplete,
}

/// Why execution stopped with an error.
#[derive(Debug, Clone, Copy, PartialEq, Eq, Structural)]
pub enum ExecutionError {
    /// An instruction tried to store into an immediate operand.
    ImmediateDestination,
    /// The instruction pointer left the 16-bit space.
    InstructionOffset,
    /// A memory offset left the 16-bit space or the memory buffer.
    MemoryOffset,
    /// The bytes at the instruction pointer do not decode.
    Decode(DecodeError),
    /// A value was stored into a register of another width.
    WidthMismatch,
    /// Arithmetic was asked for on byte operands, which is not supported.
    ByteArithmetic,
    /// The step budget ran out before a halt instruction was reached.
    StepLimit,
}

} // verus!
