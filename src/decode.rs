//! The program decoder.

use vstd::prelude::*;

use crate::error::DecodeError;
use crate::instruct::{
    decode_next_of, lift_mov, lift_num, make_cond_jump, Instruction, InstructionQueue,
};
use crate::mov::MovOp;
use crate::num::{NumOp, NumOpType};
use crate::opcode::OpCode;
use crate::operand::DResult;
use crate::pushpop::{PopOp, PushOp};

verus! {

/// The instructions of a whole byte stream, each with its size.
pub open spec fn decode_all(bytes: Seq<u8>) -> Result<Seq<(Instruction, usize)>, DecodeError>
    decreases bytes.len(),
{
    if bytes.len() == 0 {
        Ok(Seq::empty())
    } else {
        match decode_next_of(bytes) {
            Ok((instr, n)) => if 1 <= n <= bytes.len() {
                match decode_all(bytes.skip(n as int)) {
                    Ok(rest) => Ok(seq![(instr, n)] + rest),
                    Err(e) => Err(e),
                }
            } else {
                Err(DecodeError::Incomplete)
            },
            Err(e) => Err(e),
        }
    }
}

/// The sum of the sizes of decoded instructions.
pub open spec fn sum_sizes(entries: Seq<(Instruction, usize)>) -> int
    decreases entries.len(),
{
    if entries.len() == 0 {
        0
    } else {
        entries[0].1 + sum_sizes(entries.skip(1))
    }
}

/// Decoding a whole stream consumes it exactly: the sizes of the decoded
/// instructions add up to the length of the input.
pub proof fn lemma_sizes_add_up(bytes: Seq<u8>)
    requires
        decode_all(bytes) is Ok,
    ensures
        sum_sizes(decode_all(bytes)->Ok_0) == bytes.len(),
    decreases bytes.len(),
{
    if bytes.len() > 0 {
        let (instr, n) = decode_next_of(bytes)->Ok_0;
        let rest = decode_all(bytes.skip(n as int))->Ok_0;
        lemma_sizes_add_up(bytes.skip(n as int));
        assert((seq![(instr, n)] + rest).skip(1) =~= rest);
    }
}

/// A decoder over an owned buffer of machine code.
pub struct Decoder {
    buffer: Vec<u8>,
}

impl Decoder {
    /// The machine code to decode.
    pub closed spec fn bytes(&self) -> Seq<u8> {
        self.buffer@
    }

    /// Creates a decoder over `buffer`.
    pub fn new(buffer: Vec<u8>) -> (r: Decoder)
        ensures
            r.bytes() == buffer@,
    {
        Decoder { buffer }
    }

    /// Creates a decoder over a copy of `bytes`.
    pub fn from(bytes: &[u8]) -> (r: Decoder)
        ensures
            r.bytes() == bytes@,
    {
        let mut buffer: Vec<u8> = Vec::new();
        let mut i: usize = 0;
        while i < bytes.len()
            invariant
                i <= bytes@.len(),
                buffer@ == bytes@.take(i as int),
            decreases bytes@.len() - i,
        {
            buffer.push(bytes[i]);
            i = i + 1;
            assert(buffer@ =~= bytes@.take(i as int));
        }
        assert(bytes@.take(i as int) =~= bytes@);
        Decoder { buffer }
    }

    /// Decodes the whole buffer into a program, then appends a halt sentinel
    /// of size zero at the final offset.
    pub fn decode(self) -> (r: Result<InstructionQueue, DecodeError>)
        ensures
            r is Ok <==> decode_all(self.bytes()) is Ok,
            r is Err ==> r->Err_0 == decode_all(self.bytes())->Err_0,
            r is Ok ==> {
                let q = r->Ok_0;
                let entries = decode_all(self.bytes())->Ok_0;
                &&& q.wf()
                &&& q.instructions() == entries.map_values(|e: (Instruction, usize)| e.0).push(Instruction::Halt)
                &&& q.sizes() == entries.map_values(|e: (Instruction, usize)| e.1).push(0usize)
                &&& q.end_offset() == self.bytes().len()
            },
    {
        let ghost all = self.bytes();
        let mut queue = InstructionQueue::new();
        let mut pos: usize = 0;
        let len = self.buffer.len();
        let ghost mut done: Seq<(Instruction, usize)> = Seq::empty();
        proof {
            assert(all.skip(0) =~= all);
            if decode_all(all) is Ok {
                assert(done + decode_all(all)->Ok_0 =~= decode_all(all)->Ok_0);
            }
        }
        while pos < len
            invariant
                len == all.len(),
                self.buffer@ == all,
                pos <= len,
                queue.wf(),
                queue.end_offset() == pos,
                queue.instructions() == done.map_values(|e: (Instruction, usize)| e.0),
                queue.sizes() == done.map_values(|e: (Instruction, usize)| e.1),
                decode_all(all) == (match decode_all(all.skip(pos as int)) {
                    Ok(rest) => Ok(done + rest),
                    Err(e) => Err(e),
                }),
            decreases len - pos,
        {
            let rest = vstd::slice::slice_subrange(self.buffer.as_slice(), pos, len);
            assert(rest@ =~= all.skip(pos as int));
            match Decoder::try_decode_next(rest) {
                Ok((instr, size)) => {
                    proof {
                        assert(all.skip(pos as int).skip(size as int) =~= all.skip(pos + size));
                        let tail = decode_all(all.skip(pos + size));
                        if tail is Ok {
                            assert(done + (seq![(instr, size)] + tail->Ok_0) =~= done.push((instr, size)) + tail->Ok_0);
                        }
                    }
                    queue.push(instr, size);
                    pos = pos + size;
                    proof {
                        done = done.push((instr, size));
                        assert(queue.instructions() =~= done.map_values(|e: (Instruction, usize)| e.0));
                        assert(queue.sizes() =~= done.map_values(|e: (Instruction, usize)| e.1));
                    }
                },
                Err(e) => {
                    return Err(e);
                },
            }
        }
        proof {
            assert(all.skip(pos as int).len() == 0);
            assert(done + Seq::<(Instruction, usize)>::empty() =~= done);
        }
        queue.push(Instruction::Halt, 0);
        Ok(queue)
    }

    /// Decodes the first instruction of `bytes`, returning it with its length.
    pub fn try_decode_next(bytes: &[u8]) -> (r: DResult<Instruction>)
        ensures
            r == decode_next_of(bytes@),
            r is Ok ==> 1 <= r->Ok_0.1 <= bytes@.len(),
    {
        if bytes.len() == 0 {
            return Err(DecodeError::Incomplete);
        }
        let code = match OpCode::parse(bytes[0]) {
            Ok(c) => c,
            Err(e) => return Err(e),
        };
        match code {
            OpCode::MovRegRM => lift_mov(MovOp::try_parse_reg_rm(bytes)),
            OpCode::MovImRM => lift_mov(MovOp::try_parse_im_rm(bytes)),
            OpCode::MovImReg => lift_mov(MovOp::try_parse_im_reg(bytes)),
            OpCode::MovMemAcc => lift_mov(MovOp::try_decode_mem_acc(bytes)),
            OpCode::MovRMSegReg | OpCode::MovSegRegRM => lift_mov(MovOp::try_decode_rm_segreg(bytes)),
            OpCode::NumImRM => lift_num(NumOp::try_decode_im_rm(bytes)),
            OpCode::AddRMReg => lift_num(NumOp::try_decode_rm_reg(bytes, NumOpType::Add)),
            OpCode::AddImAcc => lift_num(NumOp::try_decode_im_acc(bytes, NumOpType::Add)),
            OpCode::AdcRMReg => lift_num(NumOp::try_decode_rm_reg(bytes, NumOpType::Adc)),
            OpCode::AdcImAcc => lift_num(NumOp::try_decode_im_acc(bytes, NumOpType::Adc)),
            OpCode::SubRMReg => lift_num(NumOp::try_decode_rm_reg(bytes, NumOpType::Sub)),
            OpCode::SubImAcc => lift_num(NumOp::try_decode_im_acc(bytes, NumOpType::Sub)),
            OpCode::SbbRMReg => lift_num(NumOp::try_decode_rm_reg(bytes, NumOpType::Sbb)),
            OpCode::SbbImAcc => lift_num(NumOp::try_decode_im_acc(bytes, NumOpType::Sbb)),
            OpCode::CmpRMReg => lift_num(NumOp::try_decode_rm_reg(bytes, NumOpType::Cmp)),
            OpCode::CmpImAcc => lift_num(NumOp::try_decode_im_acc(bytes, NumOpType::Cmp)),
            OpCode::JumpEqual
            | OpCode::JumpLess
            | OpCode::JumpLessEq
            | OpCode::JumpBelow
            | OpCode::JumpBelowEq
            | OpCode::JumpParityEven
            | OpCode::JumpOverflow
            | OpCode::JumpNEqual
            | OpCode::JumpSign
            | OpCode::JumpGreaterEq
            | OpCode::JumpGreater
            | OpCode::JumpAboveEq
            | OpCode::JumpAbove
            | OpCode::JumpParityOdd
            | OpCode::JumpNOverflow
            | OpCode::JumpNSign
            | OpCode::JumpCXZero
            | OpCode::Loop
            | OpCode::LoopEqual
            | OpCode::LoopNEqual => {
                if bytes.len() < 2 {
                    Err(DecodeError::Incomplete)
                } else {
                    Ok((Instruction::CondJump(make_cond_jump(code, bytes[1] as i8)), 2))
                }
            },
            OpCode::PushRegRM => match PushOp::try_decode_rm(bytes) {
                Ok((op, n)) => Ok((Instruction::Push(op), n)),
                Err(e) => Err(e),
            },
            OpCode::PushReg => match PushOp::try_decode_reg(bytes) {
                Ok((op, n)) => Ok((Instruction::Push(op), n)),
                Err(e) => Err(e),
            },
            OpCode::PopRegRM => match PopOp::try_decode_rm(bytes) {
                Ok((op, n)) => Ok((Instruction::Pop(op), n)),
                Err(e) => Err(e),
            },
            OpCode::PopReg => match PopOp::try_decode_reg(bytes) {
                Ok((op, n)) => Ok((Instruction::Pop(op), n)),
                Err(e) => Err(e),
            },
            OpCode::PushPopSeg => {
                let low = crate::fields::Reg::parse_byte_low(bytes[0]).as_u8();
                if low == 0b110 {
                    match PushOp::try_decode_seg_reg(bytes) {
                        Ok((op, n)) => Ok((Instruction::Push(op), n)),
                        Err(e) => Err(e),
                    }
                } else if low == 0b111 {
                    match PopOp::try_decode_seg_reg(bytes) {
                        Ok((op, n)) => Ok((Instruction::Pop(op), n)),
                        Err(e) => Err(e),
                    }
                } else {
                    Err(DecodeError::OpCode(bytes[0]))
                }
            },
            OpCode::Halt => Ok((Instruction::Halt, 1)),
        }
    }
}

impl Instruction {
    /// Decodes the first instruction of `bytes`, returning it with the bytes
    /// that follow it.
    pub fn try_parse_next(bytes: &[u8]) -> (r: Result<(Instruction, &[u8]), DecodeError>)
        ensures
            match decode_next_of(bytes@) {
                Ok((instr, n)) => r is Ok && r->Ok_0.0 == instr && r->Ok_0.1@ == bytes@.skip(n as int),
                Err(e) => r is Err && r->Err_0 == e,
            },
            decode_next_of(bytes@) is Ok ==> 1 <= decode_next_of(bytes@)->Ok_0.1 <= bytes@.len(),
    {
        match Decoder::try_decode_next(bytes) {
            Ok((instr, n)) => Ok((instr, vstd::slice::slice_subrange(bytes, n, bytes.len()))),
            Err(e) => Err(e),
        }
    }

    /// Decodes every instruction of `bytes`, in order.
    pub fn try_parse(bytes: &[u8]) -> (r: Result<Vec<Instruction>, DecodeError>)
        ensures
            match decode_all(bytes@) {
                Ok(entries) => r is Ok && r->Ok_0@ == entries.map_values(|e: (Instruction, usize)| e.0),
                Err(e) => r is Err && r->Err_0 == e,
            },
    {
        let ghost all = bytes@;
        let mut instructions: Vec<Instruction> = Vec::new();
        let mut rest = bytes;
        let ghost mut done: Seq<(Instruction, usize)> = Seq::empty();
        proof {
            if decode_all(all) is Ok {
                assert(done + decode_all(all)->Ok_0 =~= decode_all(all)->Ok_0);
            }
        }
        while rest.len() > 0
            invariant
                all == bytes@,
                instructions@ == done.map_values(|e: (Instruction, usize)| e.0),
                decode_all(all) == (match decode_all(rest@) {
                    Ok(tail) => Ok(done + tail),
                    Err(e) => Err(e),
                }),
            decreases rest@.len(),
        {
            match Instruction::try_parse_next(rest) {
                Ok((instr, next)) => {
                    proof {
                        let n = decode_next_of(rest@)->Ok_0.1;
                        let tail = decode_all(rest@.skip(n as int));
                        if tail is Ok {
                            assert(done + (seq![(instr, n)] + tail->Ok_0) =~= done.push((instr, n)) + tail->Ok_0);
                        }
                        done = done.push((instr, n));
                    }
                    instructions.push(instr);
                    rest = next;
                    assert(instructions@ =~= done.map_values(|e: (Instruction, usize)| e.0));
                },
                Err(e) => {
                    assert(decode_all(rest@) == Err::<Seq<(Instruction, usize)>, DecodeError>(e));
                    return Err(e);
                },
            }
        }
        proof {
            assert(decode_all(rest@) == Ok::<Seq<(Instruction, usize)>, DecodeError>(Seq::empty()));
            assert(done + Seq::<(Instruction, usize)>::empty() =~= done);
        }
        Ok(instructions)
    }
}

} // verus!
