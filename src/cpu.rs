//! The executable CPU: fetch, decode and execute against registers, flags
//! and memory.

use vstd::prelude::*;

use crate::address::EffectiveAddr;
use crate::decode::Decoder;
use crate::error::{DecodeError, ExecutionError};
use crate::flags::{flags_from_value, Flags};
use crate::instruct::Instruction;
use crate::jump::CondJumpOp;
use crate::mov::MovOp;
use crate::num::NumOp;
use crate::operand::Operand;
use crate::pushpop::{PopOp, PushOp};
use crate::register::Register;
use crate::registers::{GeneralRegisters, SegmentRegisters};
use crate::state::{
    access_width, cs_base, fetch_bytes, initial_state, jump_of, mem_index_of, mov_of, num_of,
    offset_by, operand_width, num_result_of, pop_of, push_of, read_operand_of, run_of, step_of, stop_state_of, store_operand_of,
    wrap_add, write_operand_of, CpuState, HALT, MEM_SIZE,
};
use crate::value::Value;

verus! {

/// The result of an operation of the executor.
pub type EResult<T> = Result<T, ExecutionError>;

/// The number of steps `execute` takes at most before giving up.
pub const STEP_LIMIT: u64 = 18446744073709551615;

/// Whether an exec result agrees with a modelled outcome: success with the
/// modelled state, or the modelled error.
pub open spec fn agrees(r: EResult<()>, model: Result<CpuState, ExecutionError>, after: CpuState) -> bool {
    match model {
        Ok(s) => r is Ok && after == s,
        Err(e) => r == Err::<(), ExecutionError>(e),
    }
}

/// Memory after `prog` is loaded at `base` and a halt byte written after it.
pub open spec fn loaded_mem(mem: Seq<u8>, base: int, prog: Seq<u8>) -> Seq<u8> {
    Seq::new(
        mem.len(),
        |j: int|
            if base <= j < base + prog.len() {
                prog[j - base]
            } else if j == base + prog.len() {
                HALT
            } else {
                mem[j]
            },
    )
}

/// A simulated CPU with 64 KiB of memory.
#[derive(Debug)]
pub struct Cpu {
    pub gen_regs: GeneralRegisters,
    pub seg_regs: SegmentRegisters,
    pub flags: Flags,
    pub mem: Vec<u8>,
    pub ip: u16,
}

impl View for Cpu {
    type V = CpuState;

    open spec fn view(&self) -> CpuState {
        CpuState {
            regs: self.gen_regs@,
            segs: self.seg_regs@,
            flags: self.flags,
            ip: self.ip,
            mem: self.mem@,
        }
    }
}

fn reg_is_word(reg: &Register) -> (r: bool)
    ensures
        r == reg.is_word(),
{
    match reg {
        Register::AL | Register::BL | Register::CL | Register::DL | Register::AH | Register::BH
        | Register::CH | Register::DH => false,
        _ => true,
    }
}

fn value_is_word(val: &Value) -> (r: bool)
    ensures
        r == val.is_word(),
{
    match val {
        Value::Byte(_) => false,
        Value::Word(_) => true,
    }
}

fn width_of_operand(op: &Operand) -> (r: Option<bool>)
    ensures
        r == operand_width(*op),
{
    match op {
        Operand::Register(r) => Some(reg_is_word(r)),
        Operand::SegmentRegister(_) => Some(true),
        Operand::Immediate(v) => Some(value_is_word(v)),
        Operand::Memory(_) => None,
    }
}

fn width_of_access(source: &Operand, dest: &Operand) -> (r: bool)
    ensures
        r == access_width(*source, *dest),
{
    match width_of_operand(dest) {
        Some(w) => w,
        None => match width_of_operand(source) {
            Some(w) => w,
            None => true,
        },
    }
}

fn add_displacement(x: u16, disp: &crate::address::Displacement) -> (r: EResult<u16>)
    ensures
        r == offset_by(x, *disp),
{
    match disp.value() {
        Some(d) => {
            let t: i32 = x as i32 + d as i32;
            if 0 <= t && t <= 65535 {
                Ok(t as u16)
            } else {
                Err(ExecutionError::MemoryOffset)
            }
        },
        None => Err(ExecutionError::MemoryOffset),
    }
}

fn add_wrapping(a: u16, b: u16) -> (r: u16)
    ensures
        r == wrap_add(a, b),
{
    ((a as u32 + b as u32) % 65536) as u16
}

impl Cpu {
    /// The CPU's invariant: memory holds exactly 64 KiB.
    pub open spec fn wf(&self) -> bool {
        self.mem@.len() == MEM_SIZE
    }

    /// Creates a CPU with all registers, flags, IP and memory zero.
    pub fn new() -> (r: Cpu)
        ensures
            r.wf(),
            r@ == initial_state(),
    {
        let mut mem: Vec<u8> = Vec::new();
        let mut i: usize = 0;
        while i < MEM_SIZE
            invariant
                i <= MEM_SIZE,
                mem@ == Seq::new(i as nat, |j: int| 0u8),
            decreases MEM_SIZE - i,
        {
            mem.push(0);
            i = i + 1;
            assert(mem@ =~= Seq::new(i as nat, |j: int| 0u8));
        }
        let r = Cpu {
            gen_regs: GeneralRegisters::default(),
            seg_regs: SegmentRegisters::default(),
            flags: Flags::default(),
            mem,
            ip: 0,
        };
        assert(r@.mem =~= initial_state().mem);
        r
    }

    /// Returns the memory index of the next instruction: the code segment's
    /// base plus IP.
    pub fn ip_abs(&self) -> (r: usize)
        ensures
            r == cs_base(self@) + self.ip,
    {
        self.seg_regs.cs() as usize + self.ip as usize
    }

    /// Loads a program into memory at the code segment's base and writes a
    /// halt byte right after it.
    pub fn load_instructions(&mut self, buffer: &[u8])
        requires
            old(self).wf(),
            cs_base(old(self)@) + buffer@.len() < MEM_SIZE,
        ensures
            final(self).wf(),
            final(self)@ == (CpuState {
                mem: loaded_mem(old(self)@.mem, cs_base(old(self)@), buffer@),
                ..old(self)@
            }),
    {
        let base = self.seg_regs.cs() as usize;
        let ghost old_mem = self.mem@;
        let mut i: usize = 0;
        while i < buffer.len()
            invariant
                self.wf(),
                base == cs_base(old(self)@),
                base + buffer@.len() < MEM_SIZE,
                i <= buffer@.len(),
                self.gen_regs == old(self).gen_regs,
                self.seg_regs == old(self).seg_regs,
                self.flags == old(self).flags,
                self.ip == old(self).ip,
                old_mem == old(self)@.mem,
                self.mem@ =~= Seq::new(
                    MEM_SIZE as nat,
                    |j: int| if base <= j < base + i { buffer@[j - base] } else { old_mem[j] },
                ),
            decreases buffer@.len() - i,
        {
            self.mem.set(base + i, buffer[i]);
            i = i + 1;
        }
        self.mem.set(base + buffer.len(), HALT);
        assert(self.mem@ =~= loaded_mem(old_mem, base as int, buffer@));
    }

    /// Returns the memory offset that an effective address names.
    fn get_memory_index(&self, addr: &EffectiveAddr) -> (r: EResult<u16>)
        ensures
            r == mem_index_of(self@, *addr),
    {
        match addr {
            EffectiveAddr::Direct(a) => Ok(*a),
            EffectiveAddr::Reg(reg) => Ok(self.gen_regs.get(reg).as_u16()),
            EffectiveAddr::RegDisp { base, disp } => {
                add_displacement(self.gen_regs.get(base).as_u16(), disp)
            },
            EffectiveAddr::RegPair { base, index } => {
                Ok(add_wrapping(self.gen_regs.get(base).as_u16(), self.gen_regs.get(index).as_u16()))
            },
            EffectiveAddr::RegPairDisp { base, index, disp } => {
                let sum = add_wrapping(self.gen_regs.get(base).as_u16(), self.gen_regs.get(index).as_u16());
                add_displacement(sum, disp)
            },
        }
    }

    /// Returns the value an operand holds; memory is read at width `word`.
    fn get_operand_value(&self, operand: &Operand, word: bool) -> (r: EResult<Value>)
        requires
            self.wf(),
        ensures
            r == read_operand_of(self@, *operand, word),
    {
        match operand {
            Operand::Register(reg) => Ok(self.gen_regs.get(reg)),
            Operand::SegmentRegister(seg) => Ok(self.seg_regs.get(seg)),
            Operand::Immediate(val) => Ok(*val),
            Operand::Memory(addr) => {
                let i = match self.get_memory_index(addr) {
                    Ok(i) => i as usize,
                    Err(e) => return Err(e),
                };
                if word {
                    if i + 1 >= MEM_SIZE {
                        return Err(ExecutionError::MemoryOffset);
                    }
                    Ok(Value::word([self.mem[i], self.mem[i + 1]]))
                } else {
                    Ok(Value::byte(self.mem[i]))
                }
            },
        }
    }

    /// Returns the value a destination operand holds; an immediate cannot be
    /// a destination.
    fn get_destination_value(&self, operand: &Operand, word: bool) -> (r: EResult<Value>)
        requires
            self.wf(),
        ensures
            r == (if *operand is Immediate {
                Err(ExecutionError::ImmediateDestination)
            } else {
                read_operand_of(self@, *operand, word)
            }),
    {
        match operand {
            Operand::Immediate(_) => Err(ExecutionError::ImmediateDestination),
            _ => self.get_operand_value(operand, word),
        }
    }

    /// Sets the zero, sign and parity flags from a value: zero when it is
    /// zero, sign when it is negative, parity when it is even.
    pub fn set_flags_from_val(&mut self, val: &Value)
        ensures
            *final(self) == (Cpu { flags: flags_from_value(old(self).flags, *val), ..*old(self) }),
    {
        self.flags.set_from_value(val);
    }

    /// Stores `val` into `dest`, leaving the flags alone. On error nothing
    /// changes.
    fn store_operand_value(&mut self, dest: &Operand, val: Value) -> (r: EResult<()>)
        requires
            old(self).wf(),
        ensures
            final(self).wf(),
            agrees(r, store_operand_of(old(self)@, *dest, val), final(self)@),
            r is Err ==> final(self)@ == old(self)@,
    {
        match dest {
            Operand::Immediate(_) => Err(ExecutionError::ImmediateDestination),
            Operand::Register(reg) => {
                if reg_is_word(reg) != value_is_word(&val) {
                    return Err(ExecutionError::WidthMismatch);
                }
                self.gen_regs.set(reg, val);
                Ok(())
            },
            Operand::SegmentRegister(seg) => {
                if !value_is_word(&val) {
                    return Err(ExecutionError::WidthMismatch);
                }
                self.seg_regs.set(seg, val);
                Ok(())
            },
            Operand::Memory(addr) => {
                let i = match self.get_memory_index(addr) {
                    Ok(i) => i as usize,
                    Err(e) => return Err(e),
                };
                match val {
                    Value::Byte(v) => {
                        self.mem.set(i, v as u8);
                    },
                    Value::Word(v) => {
                        if i + 1 >= MEM_SIZE {
                            return Err(ExecutionError::MemoryOffset);
                        }
                        self.mem.set(i, v as u8);
                        self.mem.set(i + 1, ((v as u16) >> 8) as u8);
                    },
                }
                Ok(())
            },
        }
    }

    /// Stores `val` into `dest` and sets zero, sign and parity from it. On
    /// error nothing changes.
    fn set_operand_value(&mut self, dest: &Operand, val: Value) -> (r: EResult<()>)
        requires
            old(self).wf(),
        ensures
            final(self).wf(),
            agrees(r, write_operand_of(old(self)@, *dest, val), final(self)@),
            r is Err ==> final(self)@ == old(self)@,
    {
        let r = self.store_operand_value(dest, val);
        if r.is_ok() {
            self.set_flags_from_val(&val);
        }
        r
    }

    /// Executes a MOV.
    fn exec_mov(&mut self, op: &MovOp) -> (r: EResult<()>)
        requires
            old(self).wf(),
        ensures
            final(self).wf(),
            agrees(r, mov_of(old(self)@, *op), final(self)@),
            r is Err ==> final(self).mem@ == old(self).mem@,
    {
        let w = width_of_access(&op.source, &op.destination);
        let val = match self.get_operand_value(&op.source, w) {
            Ok(v) => v,
            Err(e) => return Err(e),
        };
        self.set_operand_value(&op.destination, val)
    }
}

impl Cpu {
    /// Executes an arithmetic instruction: ADD, ADC, SUB, SBB or CMP.
    fn exec_numeric(&mut self, op: &NumOp) -> (r: EResult<()>)
        requires
            old(self).wf(),
        ensures
            final(self).wf(),
            agrees(r, num_of(old(self)@, *op), final(self)@),
            r is Err ==> final(self).mem@ == old(self).mem@,
    {
        let (source, dest) = match op {
            NumOp::Add { source, destination } => (source, destination),
            NumOp::Adc { source, destination } => (source, destination),
            NumOp::Sub { source, destination } => (source, destination),
            NumOp::Sbb { source, destination } => (source, destination),
            NumOp::Cmp { source, destination } => (source, destination),
        };
        let w = width_of_access(source, dest);
        let sval = match self.get_operand_value(source, w) {
            Ok(v) => v,
            Err(e) => return Err(e),
        };
        let dval = match self.get_destination_value(dest, w) {
            Ok(v) => v,
            Err(e) => return Err(e),
        };
        self.store_numeric(op, dest, dval, sval)
    }

    /// Sets the flags of an arithmetic instruction and stores its result.
    fn store_numeric(&mut self, op: &NumOp, dest: &Operand, dval: Value, sval: Value) -> (r: EResult<()>)
        requires
            old(self).wf(),
        ensures
            final(self).wf(),
            agrees(r, num_result_of(old(self)@, *op, *dest, dval, sval), final(self)@),
            r is Err ==> final(self).mem@ == old(self).mem@,
    {
        if let NumOp::Cmp { .. } = op {
            match dval.cmp(&sval) {
                core::cmp::Ordering::Equal => self.flags.set_zero(),
                core::cmp::Ordering::Greater => self.flags.set_positive(),
                core::cmp::Ordering::Less => self.flags.set_negative(),
            }
            return Ok(());
        }
        if !(value_is_word(&dval) && value_is_word(&sval)) {
            return Err(ExecutionError::ByteArithmetic);
        }
        let (val, overflow, carry, aux_carry) = match op {
            NumOp::Add { .. } => dval.flagged_add(&sval),
            NumOp::Adc { .. } => dval.flagged_carrying_add(&sval, self.flags.carry),
            NumOp::Sub { .. } => dval.flagged_sub(&sval),
            NumOp::Sbb { .. } => dval.flagged_carrying_sub(&sval, self.flags.carry),
            NumOp::Cmp { .. } => dval.flagged_sub(&sval),
        };
        self.flags.set_overflow_aux_carry(overflow, carry, aux_carry);
        self.set_operand_value(dest, val)
    }

    /// Executes a PUSH: SP drops by two, then the operand's word is stored at
    /// the new SP.
    fn exec_push(&mut self, op: &PushOp) -> (r: EResult<()>)
        requires
            old(self).wf(),
        ensures
            final(self).wf(),
            agrees(r, push_of(old(self)@, *op), final(self)@),
            r is Err ==> final(self).mem@ == old(self).mem@,
    {
        let sp = self.gen_regs.get(&Register::SP).as_u16();
        let new_sp: u16 = if sp >= 2 { sp - 2 } else { sp + 65534 };
        self.gen_regs.set(&Register::SP, Value::Word(new_sp as i16));
        let val = match self.get_operand_value(&op.operand, true) {
            Ok(v) => v,
            Err(e) => return Err(e),
        };
        if new_sp as usize + 1 >= MEM_SIZE {
            return Err(ExecutionError::MemoryOffset);
        }
        let word = val.as_u16() as i16;
        self.mem.set(new_sp as usize, word as u8);
        self.mem.set(new_sp as usize + 1, ((word as u16) >> 8) as u8);
        Ok(())
    }

    /// Executes a POP: the word at SP is stored into the operand, then SP
    /// rises by two.
    fn exec_pop(&mut self, op: &PopOp) -> (r: EResult<()>)
        requires
            old(self).wf(),
        ensures
            final(self).wf(),
            agrees(r, pop_of(old(self)@, *op), final(self)@),
            r is Err ==> final(self).mem@ == old(self).mem@,
    {
        let sp = self.gen_regs.get(&Register::SP).as_u16() as usize;
        if sp + 1 >= MEM_SIZE {
            return Err(ExecutionError::MemoryOffset);
        }
        let popped = Value::word([self.mem[sp], self.mem[sp + 1]]);
        match self.store_operand_value(&op.operand, popped) {
            Ok(()) => {},
            Err(e) => return Err(e),
        }
        let sp1 = self.gen_regs.get(&Register::SP).as_u16();
        let next: u16 = if sp1 <= 65533 { sp1 + 2 } else { sp1 - 65534 };
        self.gen_regs.set(&Register::SP, Value::Word(next as i16));
        Ok(())
    }

    /// Moves IP by `offset` when `condition` holds.
    fn jump(&mut self, condition: bool, offset: i8) -> (r: EResult<()>)
        ensures
            final(self).gen_regs == old(self).gen_regs,
            final(self).seg_regs == old(self).seg_regs,
            final(self).flags == old(self).flags,
            final(self).mem == old(self).mem,
            !condition ==> r is Ok && final(self).ip == old(self).ip,
            condition ==> if 0 <= old(self).ip + offset <= u16::MAX {
                r is Ok && final(self).ip == old(self).ip + offset
            } else {
                r == Err::<(), ExecutionError>(ExecutionError::InstructionOffset)
            },
    {
        if condition {
            match self.ip.checked_add_signed(offset as i16) {
                Some(t) => {
                    self.ip = t;
                },
                None => return Err(ExecutionError::InstructionOffset),
            }
        }
        Ok(())
    }

    /// Executes a conditional jump or loop.
    fn exec_conditional_jump(&mut self, op: &CondJumpOp) -> (r: EResult<()>)
        requires
            old(self).wf(),
        ensures
            final(self).wf(),
            agrees(r, jump_of(old(self)@, *op), final(self)@),
            r is Err ==> final(self).mem@ == old(self).mem@,
    {
        let is_loop = match op {
            CondJumpOp::Loop(_) | CondJumpOp::LoopEqual(_) | CondJumpOp::LoopNEqual(_) => true,
            _ => false,
        };
        if is_loop {
            let cx = self.gen_regs.get(&Register::CX).as_u16();
            let dec: u16 = if cx >= 1 { cx - 1 } else { 65535 };
            self.gen_regs.set(&Register::CX, Value::Word(dec as i16));
        }
        let cx = self.gen_regs.get(&Register::CX).as_u16();
        let f = self.flags;
        let condition = match op {
            CondJumpOp::Equal(_) => f.zero,
            CondJumpOp::NotEqual(_) => !f.zero,
            CondJumpOp::ParityEven(_) => f.parity,
            CondJumpOp::ParityOdd(_) => !f.parity,
            CondJumpOp::Overflow(_) => f.overflow,
            CondJumpOp::NotOverflow(_) => !f.overflow,
            CondJumpOp::Sign(_) => f.sign,
            CondJumpOp::NotSign(_) => !f.sign,
            CondJumpOp::Less(_) => f.sign != f.overflow,
            CondJumpOp::LessEqual(_) => f.sign != f.overflow || f.zero,
            CondJumpOp::Greater(_) => !f.zero && f.sign == f.overflow,
            CondJumpOp::GreaterEqual(_) => f.sign == f.overflow,
            CondJumpOp::Below(_) => f.carry,
            CondJumpOp::BelowEqual(_) => f.carry || f.zero,
            CondJumpOp::Above(_) => !f.zero && !f.carry,
            CondJumpOp::AboveEqual(_) => !f.carry,
            CondJumpOp::CXZero(_) => cx == 0,
            CondJumpOp::Loop(_) => cx != 0,
            CondJumpOp::LoopEqual(_) => cx != 0 && f.zero,
            CondJumpOp::LoopNEqual(_) => cx != 0 && !f.zero,
        };
        self.jump(condition, op.offset())
    }

    /// Fetches, decodes and executes one instruction. Returns whether it was
    /// the halt instruction, which leaves IP at its own address. A step that
    /// fails changes nothing.
    pub fn step(&mut self) -> (r: EResult<bool>)
        requires
            old(self).wf(),
        ensures
            final(self).wf(),
            match step_of(old(self)@) {
                Ok((s, halted)) => r == Ok::<bool, ExecutionError>(halted) && final(self)@ == s,
                Err(e) => r == Err::<bool, ExecutionError>(e),
            },
            r is Err ==> final(self)@ == old(self)@,
    {
        let idx = self.ip_abs();
        if idx > self.mem.len() {
            return Err(ExecutionError::Decode(DecodeError::Incomplete));
        }
        let decoded = {
            let bytes = vstd::slice::slice_subrange(self.mem.as_slice(), idx, self.mem.len());
            assert(bytes@ =~= fetch_bytes(self@));
            Decoder::try_decode_next(bytes)
        };
        let (instr, size) = match decoded {
            Ok(d) => d,
            Err(e) => return Err(ExecutionError::Decode(e)),
        };
        if self.ip as usize + size > 65535 {
            return Err(ExecutionError::InstructionOffset);
        }
        let saved_regs = self.gen_regs;
        let saved_segs = self.seg_regs;
        let saved_flags = self.flags;
        let saved_ip = self.ip;
        self.ip = (self.ip as usize + size) as u16;
        let r = match instr {
            Instruction::Mov(op) => self.exec_mov(&op),
            Instruction::Push(op) => self.exec_push(&op),
            Instruction::Pop(op) => self.exec_pop(&op),
            Instruction::Num(op) => self.exec_numeric(&op),
            Instruction::CondJump(op) => self.exec_conditional_jump(&op),
            Instruction::Halt => {
                self.ip = self.ip - 1;
                return Ok(true);
            },
        };
        match r {
            Ok(()) => Ok(false),
            Err(e) => {
                self.gen_regs = saved_regs;
                self.seg_regs = saved_segs;
                self.flags = saved_flags;
                self.ip = saved_ip;
                Err(e)
            },
        }
    }

    /// Executes from the current IP until a halt instruction, giving up
    /// after `STEP_LIMIT` steps. On error the CPU is left as it stood before
    /// the failing instruction, with IP at that instruction.
    pub fn execute(&mut self) -> (r: EResult<()>)
        requires
            old(self).wf(),
        ensures
            final(self).wf(),
            agrees(r, run_of(old(self)@, STEP_LIMIT as nat), final(self)@),
            final(self)@ == stop_state_of(old(self)@, STEP_LIMIT as nat),
    {
        let mut fuel: u64 = STEP_LIMIT;
        loop
            invariant
                self.wf(),
                run_of(old(self)@, STEP_LIMIT as nat) == run_of(self@, fuel as nat),
                stop_state_of(old(self)@, STEP_LIMIT as nat) == stop_state_of(self@, fuel as nat),
            decreases fuel,
        {
            if fuel == 0 {
                return Err(ExecutionError::StepLimit);
            }
            match self.step() {
                Ok(true) => return Ok(()),
                Ok(false) => {},
                Err(e) => return Err(e),
            }
            fuel = fuel - 1;
        }
    }
}

} // verus!
