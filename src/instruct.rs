//! Instructions and the decoded program.

use vstd::prelude::*;

use crate::error::DecodeError;
use crate::jump::CondJumpOp;
use crate::mov::{mov_im_reg_of, mov_im_rm_of, mov_mem_acc_of, mov_reg_rm_of, mov_rm_segreg_of, MovOp};
use crate::num::{num_im_acc_of, num_im_rm_of, num_rm_reg_of, NumOp, NumOpType};
use crate::fields::low_bits;
use crate::opcode::{opcode_of, OpCode};
use crate::operand::DResult;
use crate::pushpop::{stack_reg_of, stack_rm_of, stack_seg_of, PopOp, PushOp};

verus! {

/// A decoded instruction.
#[derive(Debug, Clone, Copy, PartialEq, Eq, Structural)]
pub enum Instruction {
    Mov(MovOp),
    Push(PushOp),
    Pop(PopOp),
    Num(NumOp),
    CondJump(CondJumpOp),
    Halt,
}

pub open spec fn as_mov(r: DResult<MovOp>) -> DResult<Instruction> {
    match r {
        Ok((op, n)) => Ok((Instruction::Mov(op), n)),
        Err(e) => Err(e),
    }
}

pub open spec fn as_num(r: DResult<NumOp>) -> DResult<Instruction> {
    match r {
        Ok((op, n)) => Ok((Instruction::Num(op), n)),
        Err(e) => Err(e),
    }
}

/// The conditional jump that a jump opcode selects, with offset `n`.
pub open spec fn cond_jump_of(code: OpCode, n: i8) -> CondJumpOp {
    match code {
        OpCode::JumpEqual => CondJumpOp::Equal(n),
        OpCode::JumpLess => CondJumpOp::Less(n),
        OpCode::JumpLessEq => CondJumpOp::LessEqual(n),
        OpCode::JumpBelow => CondJumpOp::Below(n),
        OpCode::JumpBelowEq => CondJumpOp::BelowEqual(n),
        OpCode::JumpParityEven => CondJumpOp::ParityEven(n),
        OpCode::JumpOverflow => CondJumpOp::Overflow(n),
        OpCode::JumpNEqual => CondJumpOp::NotEqual(n),
        OpCode::JumpSign => CondJumpOp::Sign(n),
        OpCode::JumpGreaterEq => CondJumpOp::GreaterEqual(n),
        OpCode::JumpGreater => CondJumpOp::Greater(n),
        OpCode::JumpAboveEq => CondJumpOp::AboveEqual(n),
        OpCode::JumpAbove => CondJumpOp::Above(n),
        OpCode::JumpParityOdd => CondJumpOp::ParityOdd(n),
        OpCode::JumpNOverflow => CondJumpOp::NotOverflow(n),
        OpCode::JumpNSign => CondJumpOp::NotSign(n),
        OpCode::JumpCXZero => CondJumpOp::CXZero(n),
        OpCode::Loop => CondJumpOp::Loop(n),
        OpCode::LoopEqual => CondJumpOp::LoopEqual(n),
        OpCode::LoopNEqual => CondJumpOp::LoopNEqual(n),
        _ => CondJumpOp::Equal(n),
    }
}

/// The first instruction of `bytes` and its length in bytes.
pub open spec fn decode_next_of(bytes: Seq<u8>) -> DResult<Instruction> {
    if bytes.len() == 0 {
        Err(DecodeError::Incomplete)
    } else {
        match opcode_of(bytes[0]) {
            Ok(code) => decode_opcode_of(code, bytes),
            Err(e) => Err(e),
        }
    }
}

/// The instruction that starts `bytes`, whose first byte is classified as
/// `code`, and its length in bytes.
pub open spec fn decode_opcode_of(code: OpCode, bytes: Seq<u8>) -> DResult<Instruction> {
    match code {
        OpCode::MovRegRM => as_mov(mov_reg_rm_of(bytes)),
        OpCode::MovImRM => as_mov(mov_im_rm_of(bytes)),
        OpCode::MovImReg => as_mov(mov_im_reg_of(bytes)),
        OpCode::MovMemAcc => as_mov(mov_mem_acc_of(bytes)),
        OpCode::MovRMSegReg | OpCode::MovSegRegRM => as_mov(mov_rm_segreg_of(bytes)),
        OpCode::NumImRM => as_num(num_im_rm_of(bytes)),
        OpCode::AddRMReg => as_num(num_rm_reg_of(bytes, NumOpType::Add)),
        OpCode::AddImAcc => as_num(num_im_acc_of(bytes, NumOpType::Add)),
        OpCode::AdcRMReg => as_num(num_rm_reg_of(bytes, NumOpType::Adc)),
        OpCode::AdcImAcc => as_num(num_im_acc_of(bytes, NumOpType::Adc)),
        OpCode::SubRMReg => as_num(num_rm_reg_of(bytes, NumOpType::Sub)),
        OpCode::SubImAcc => as_num(num_im_acc_of(bytes, NumOpType::Sub)),
        OpCode::SbbRMReg => as_num(num_rm_reg_of(bytes, NumOpType::Sbb)),
        OpCode::SbbImAcc => as_num(num_im_acc_of(bytes, NumOpType::Sbb)),
        OpCode::CmpRMReg => as_num(num_rm_reg_of(bytes, NumOpType::Cmp)),
        OpCode::CmpImAcc => as_num(num_im_acc_of(bytes, NumOpType::Cmp)),
        OpCode::JumpEqual
        | OpCode::JumpLess
        | OpCode::JumpLessEq
        | OpCode::JumpBelow
        | OpCode::JumpBelowEq
        | OpCode::JumpParityEven
        | OpCode::JumpOverflow
        | OpCode::JumpNEqual
        | OpCode::JumpSign
        | OpCode::JumpGreaterEq
        | OpCode::JumpGreater
        | OpCode::JumpAboveEq
        | OpCode::JumpAbove
        | OpCode::JumpParityOdd
        | OpCode::JumpNOverflow
        | OpCode::JumpNSign
        | OpCode::JumpCXZero
        | OpCode::Loop
        | OpCode::LoopEqual
        | OpCode::LoopNEqual => if bytes.len() < 2 {
            Err(DecodeError::Incomplete)
        } else {
            Ok((Instruction::CondJump(cond_jump_of(code, bytes[1] as i8)), 2usize))
        },
        OpCode::PushRegRM => match stack_rm_of(bytes) {
            Ok((operand, n)) => Ok((Instruction::Push(PushOp { operand }), n)),
            Err(e) => Err(e),
        },
        OpCode::PushReg => Ok((Instruction::Push(PushOp { operand: stack_reg_of(bytes) }), 1usize)),
        OpCode::PopRegRM => match stack_rm_of(bytes) {
            Ok((operand, n)) => Ok((Instruction::Pop(PopOp { operand }), n)),
            Err(e) => Err(e),
        },
        OpCode::PopReg => Ok((Instruction::Pop(PopOp { operand: stack_reg_of(bytes) }), 1usize)),
        OpCode::PushPopSeg => if low_bits(bytes[0]) == 6 {
            Ok((Instruction::Push(PushOp { operand: stack_seg_of(bytes)->Ok_0 }), 1usize))
        } else if low_bits(bytes[0]) == 7 {
            Ok((Instruction::Pop(PopOp { operand: stack_seg_of(bytes)->Ok_0 }), 1usize))
        } else {
            Err(DecodeError::OpCode(bytes[0]))
        },
        OpCode::Halt => Ok((Instruction::Halt, 1usize)),
    }
}

pub(crate) fn lift_mov(r: DResult<MovOp>) -> (out: DResult<Instruction>)
    ensures
        out == as_mov(r),
{
    match r {
        Ok((op, n)) => Ok((Instruction::Mov(op), n)),
        Err(e) => Err(e),
    }
}

pub(crate) fn lift_num(r: DResult<NumOp>) -> (out: DResult<Instruction>)
    ensures
        out == as_num(r),
{
    match r {
        Ok((op, n)) => Ok((Instruction::Num(op), n)),
        Err(e) => Err(e),
    }
}

pub(crate) fn make_cond_jump(code: OpCode, n: i8) -> (r: CondJumpOp)
    ensures
        r == cond_jump_of(code, n),
{
    match code {
        OpCode::JumpEqual => CondJumpOp::Equal(n),
        OpCode::JumpLess => CondJumpOp::Less(n),
        OpCode::JumpLessEq => CondJumpOp::LessEqual(n),
        OpCode::JumpBelow => CondJumpOp::Below(n),
        OpCode::JumpBelowEq => CondJumpOp::BelowEqual(n),
        OpCode::JumpParityEven => CondJumpOp::ParityEven(n),
        OpCode::JumpOverflow => CondJumpOp::Overflow(n),
        OpCode::JumpNEqual => CondJumpOp::NotEqual(n),
        OpCode::JumpSign => CondJumpOp::Sign(n),
        OpCode::JumpGreaterEq => CondJumpOp::GreaterEqual(n),
        OpCode::JumpGreater => CondJumpOp::Greater(n),
        OpCode::JumpAboveEq => CondJumpOp::AboveEqual(n),
        OpCode::JumpAbove => CondJumpOp::Above(n),
        OpCode::JumpParityOdd => CondJumpOp::ParityOdd(n),
        OpCode::JumpNOverflow => CondJumpOp::NotOverflow(n),
        OpCode::JumpNSign => CondJumpOp::NotSign(n),
        OpCode::JumpCXZero => CondJumpOp::CXZero(n),
        OpCode::Loop => CondJumpOp::Loop(n),
        OpCode::LoopEqual => CondJumpOp::LoopEqual(n),
        OpCode::LoopNEqual => CondJumpOp::LoopNEqual(n),
        _ => CondJumpOp::Equal(n),
    }
}

/// The sum of a sequence of sizes.
pub open spec fn total(sizes: Seq<usize>) -> int
    decreases sizes.len(),
{
    if sizes.len() == 0 {
        0
    } else {
        total(sizes.drop_last()) + sizes.last()
    }
}

/// A decoded program: instructions with their sizes and byte offsets.
///
/// Each instruction's offset is the sum of the sizes of the instructions
/// before it, so an instruction can be found by its offset.
#[derive(Debug)]
pub struct InstructionQueue {
    inner: Vec<Instruction>,
    sizes: Vec<usize>,
    byte_offsets: Vec<usize>,
    next_offset: usize,
}

impl InstructionQueue {
    /// The instructions, in order.
    pub closed spec fn instructions(&self) -> Seq<Instruction> {
        self.inner@
    }

    /// The size in bytes of each instruction.
    pub closed spec fn sizes(&self) -> Seq<usize> {
        self.sizes@
    }

    /// The byte offset of each instruction.
    pub closed spec fn offsets(&self) -> Seq<usize> {
        self.byte_offsets@
    }

    /// The offset at which the next appended instruction would start.
    pub closed spec fn end_offset(&self) -> usize {
        self.next_offset
    }

    /// The queue's invariant: three parallel sequences, offsets that are the
    /// running sums of the sizes.
    pub open spec fn wf(&self) -> bool {
        &&& self.sizes().len() == self.instructions().len()
        &&& self.offsets().len() == self.instructions().len()
        &&& forall|i: int| 0 <= i < self.offsets().len() ==> self.offsets()[i] == total(#[trigger] self.sizes().take(i))
        &&& self.end_offset() == total(self.sizes())
    }

    /// Creates an empty queue.
    pub fn new() -> (r: InstructionQueue)
        ensures
            r.wf(),
            r.instructions().len() == 0,
            r.end_offset() == 0,
    {
        InstructionQueue { inner: Vec::new(), sizes: Vec::new(), byte_offsets: Vec::new(), next_offset: 0 }
    }

    /// Returns the number of instructions.
    pub fn len(&self) -> (r: usize)
        ensures
            r == self.instructions().len(),
    {
        self.inner.len()
    }

    /// Returns the `i`-th instruction and its size.
    pub fn entry(&self, i: usize) -> (r: (Instruction, usize))
        requires
            self.wf(),
            i < self.instructions().len(),
        ensures
            r == (self.instructions()[i as int], self.sizes()[i as int]),
    {
        (self.inner[i], self.sizes[i])
    }

    /// Gets the instruction that starts at byte offset `ip`, with its size.
    pub fn get(&self, ip: usize) -> (r: Option<(&Instruction, &usize)>)
        requires
            self.wf(),
        ensures
            r is None <==> (forall|i: int| 0 <= i < self.offsets().len() ==> self.offsets()[i] != ip),
            r is Some ==> exists|i: int|
                0 <= i < self.offsets().len() && self.offsets()[i] == ip
                && *r->Some_0.0 == self.instructions()[i] && *r->Some_0.1 == self.sizes()[i]
                && (forall|j: int| 0 <= j < i ==> self.offsets()[j] != ip),
    {
        let mut idx: usize = 0;
        while idx < self.byte_offsets.len()
            invariant
                self.wf(),
                idx <= self.offsets().len(),
                forall|j: int| 0 <= j < idx ==> self.offsets()[j] != ip,
            decreases self.offsets().len() - idx,
        {
            if self.byte_offsets[idx] == ip {
                return Some((&self.inner[idx], &self.sizes[idx]));
            }
            idx = idx + 1;
        }
        None
    }

    /// Appends an instruction of the given size.
    pub fn push(&mut self, instr: Instruction, size: usize)
        requires
            old(self).wf(),
            old(self).end_offset() + size <= usize::MAX,
        ensures
            final(self).wf(),
            final(self).instructions() == old(self).instructions().push(instr),
            final(self).sizes() == old(self).sizes().push(size),
            final(self).offsets() == old(self).offsets().push(old(self).end_offset()),
            final(self).end_offset() == old(self).end_offset() + size,
    {
        let ghost old_sizes = self.sizes@;
        self.inner.push(instr);
        self.sizes.push(size);
        self.byte_offsets.push(self.next_offset);
        self.next_offset = self.next_offset + size;
        proof {
            assert(self.sizes@.drop_last() =~= old_sizes);
            assert(self.sizes@.take(old_sizes.len() as int) =~= old_sizes);
            assert forall|i: int| 0 <= i < self.byte_offsets@.len() implies self.byte_offsets@[i] == total(
                #[trigger] self.sizes@.take(i),
            ) by {
                if i < old_sizes.len() {
                    assert(self.sizes@.take(i) =~= old_sizes.take(i));
                }
            }
        }
    }
}

} // verus!
