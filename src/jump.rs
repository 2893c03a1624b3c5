//! Conditional jumps and loops.

use vstd::prelude::*;

verus! {

/// A conditional jump or loop with its signed 8-bit offset, relative to the
/// byte that follows the instruction.
#[derive(Debug, Clone, Copy, PartialEq, Eq, Structural)]
pub enum CondJumpOp {
    Equal(i8),
    Less(i8),
    LessEqual(i8),
    Below(i8),
    BelowEqual(i8),
    ParityEven(i8),
    Overflow(i8),
    NotEqual(i8),
    Sign(i8),
    GreaterEqual(i8),
    Greater(i8),
    AboveEqual(i8),
    Above(i8),
    ParityOdd(i8),
    NotOverflow(i8),
    NotSign(i8),
    CXZero(i8),
    Loop(i8),
    LoopEqual(i8),
    LoopNEqual(i8),
}

impl CondJumpOp {
    /// The jump's offset.
    pub open spec fn spec_offset(self) -> i8 {
        match self {
            CondJumpOp::Equal(n) | CondJumpOp::Less(n) | CondJumpOp::LessEqual(n)
            | CondJumpOp::Below(n) | CondJumpOp::BelowEqual(n) | CondJumpOp::ParityEven(n)
            | CondJumpOp::Overflow(n) | CondJumpOp::NotEqual(n) | CondJumpOp::Sign(n)
            | CondJumpOp::GreaterEqual(n) | CondJumpOp::Greater(n) | CondJumpOp::AboveEqual(n)
            | CondJumpOp::Above(n) | CondJumpOp::ParityOdd(n) | CondJumpOp::NotOverflow(n)
            | CondJumpOp::NotSign(n) | CondJumpOp::CXZero(n) | CondJumpOp::Loop(n)
            | CondJumpOp::LoopEqual(n) | CondJumpOp::LoopNEqual(n) => n,
        }
    }

    /// Returns the jump's offset.
    pub fn offset(&self) -> (r: i8)
        ensures
            r == self.spec_offset(),
    {
        match self {
            CondJumpOp::Equal(n) | CondJumpOp::Less(n) | CondJumpOp::LessEqual(n)
            | CondJumpOp::Below(n) | CondJumpOp::BelowEqual(n) | CondJumpOp::ParityEven(n)
            | CondJumpOp::Overflow(n) | CondJumpOp::NotEqual(n) | CondJumpOp::Sign(n)
            | CondJumpOp::GreaterEqual(n) | CondJumpOp::Greater(n) | CondJumpOp::AboveEqual(n)
            | CondJumpOp::Above(n) | CondJumpOp::ParityOdd(n) | CondJumpOp::NotOverflow(n)
            | CondJumpOp::NotSign(n) | CondJumpOp::CXZero(n) | CondJumpOp::Loop(n)
            | CondJumpOp::LoopEqual(n) | CondJumpOp::LoopNEqual(n) => *n,
        }
    }
}

} // verus!
