//! Decoder and functional simulator for a 16-bit 8086-class instruction set.
//!
//! The decoder turns raw machine code into typed instructions; the
//! simulator executes them against a modelled CPU with general and segment
//! registers, a flags record, an instruction pointer and 64 KiB of memory.

pub mod address;
pub mod cpu;
pub mod decode;
pub mod error;
pub mod fields;
pub mod flags;
pub mod instruct;
pub mod jump;
pub mod mov;
pub mod num;
pub mod opcode;
pub mod operand;
pub mod pushpop;
pub mod register;
pub mod registers;
pub mod state;
pub mod text;
pub mod value;

pub use address::{Displacement, EffectiveAddr};
pub use cpu::{Cpu, EResult};
pub use decode::Decoder;
pub use error::{DecodeError, ExecutionError};
pub use fields::{get_bit, Direction, Mode, Reg, Sign, Width, RM, SR};
pub use flags::Flags;
pub use instruct::{Instruction, InstructionQueue};
pub use jump::CondJumpOp;
pub use mov::MovOp;
pub use num::{NumOp, NumOpType};
pub use opcode::OpCode;
pub use operand::{get_operands, get_prefix, DResult, Operand};
pub use pushpop::{PopOp, PushOp};
pub use register::{Register, SegmentRegister};
pub use registers::{GeneralRegisters, SegmentRegisters};
pub use state::{CpuState, HALT, MEM_SIZE};
pub use value::Value;
