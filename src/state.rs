//! The mathematical model of the CPU and the meaning of each instruction.

use vstd::prelude::*;

use crate::address::{le_u16, Displacement, EffectiveAddr};
use crate::error::ExecutionError;
use crate::flags::{flags_from_value, Flags};
use crate::instruct::{decode_next_of, Instruction};
use crate::jump::CondJumpOp;
use crate::mov::MovOp;
use crate::num::NumOp;
use crate::operand::Operand;
use crate::pushpop::{PopOp, PushOp};
use crate::register::Register;
use crate::registers::{reg_value, seg_offset, seg_value, store_value, write_reg};
use crate::value::{ordering_of, out_of_i16, word_of, Value};

verus! {

/// Size of the linear memory in bytes.
pub const MEM_SIZE: usize = 65536;

/// The halt opcode, written after a loaded program.
pub const HALT: u8 = 0xF4;

/// The CPU as mathematical values: register storage (sixteen bytes, see
/// `reg_offset`), segment storage (eight bytes), flags, instruction pointer
/// and memory.
pub struct CpuState {
    pub regs: Seq<u8>,
    pub segs: Seq<u8>,
    pub flags: Flags,
    pub ip: u16,
    pub mem: Seq<u8>,
}

/// The state of a freshly created CPU: everything zero.
pub open spec fn initial_state() -> CpuState {
    CpuState {
        regs: Seq::new(16, |i: int| 0u8),
        segs: Seq::new(8, |i: int| 0u8),
        flags: crate::flags::cleared_flags(),
        ip: 0,
        mem: Seq::new(MEM_SIZE as nat, |i: int| 0u8),
    }
}

/// The value of a general register read as unsigned.
pub open spec fn reg_u16(s: CpuState, reg: Register) -> u16 {
    reg_value(s.regs, reg).spec_u16()
}

/// The base of the code segment: CS read as unsigned.
pub open spec fn cs_base(s: CpuState) -> int {
    le_u16(s.segs[2], s.segs[3]) as int
}

/// The width an operand fixes, if any; a memory operand fixes none.
pub open spec fn operand_width(op: Operand) -> Option<bool> {
    match op {
        Operand::Register(r) => Some(r.is_word()),
        Operand::SegmentRegister(_) => Some(true),
        Operand::Immediate(v) => Some(v.is_word()),
        Operand::Memory(_) => None,
    }
}

/// The width of a two-operand access: that of the destination, else that of
/// the source, else a word.
pub open spec fn access_width(source: Operand, dest: Operand) -> bool {
    match operand_width(dest) {
        Some(w) => w,
        None => match operand_width(source) {
            Some(w) => w,
            None => true,
        },
    }
}

/// `x` moved by a signed displacement, which must stay within 16 bits.
pub open spec fn offset_by(x: u16, disp: Displacement) -> Result<u16, ExecutionError> {
    match disp.spec_value() {
        Some(d) => if 0 <= x + d <= u16::MAX {
            Ok((x + d) as u16)
        } else {
            Err(ExecutionError::MemoryOffset)
        },
        None => Err(ExecutionError::MemoryOffset),
    }
}

/// The sum of two words modulo 2^16.
pub open spec fn wrap_add(a: u16, b: u16) -> u16 {
    ((a + b) % 65536) as u16
}

/// The memory offset that an effective address names in state `s`.
pub open spec fn mem_index_of(s: CpuState, addr: EffectiveAddr) -> Result<u16, ExecutionError> {
    match addr {
        EffectiveAddr::Direct(a) => Ok(a),
        EffectiveAddr::Reg(r) => Ok(reg_u16(s, r)),
        EffectiveAddr::RegDisp { base, disp } => offset_by(reg_u16(s, base), disp),
        EffectiveAddr::RegPair { base, index } => Ok(wrap_add(reg_u16(s, base), reg_u16(s, index))),
        EffectiveAddr::RegPairDisp { base, index, disp } => offset_by(
            wrap_add(reg_u16(s, base), reg_u16(s, index)),
            disp,
        ),
    }
}

/// Whether a value of the given width fits in memory at offset `i`.
pub open spec fn fits_at(i: u16, word: bool) -> bool {
    !word || i + 1 < MEM_SIZE
}

/// The value of the given width stored in memory at offset `i`.
pub open spec fn mem_value(mem: Seq<u8>, i: u16, word: bool) -> Value {
    if word {
        Value::Word(word_of(mem[i as int], mem[i + 1]))
    } else {
        Value::Byte(mem[i as int] as i8)
    }
}

/// The value an operand holds; a memory operand is read at width `word`.
pub open spec fn read_operand_of(s: CpuState, op: Operand, word: bool) -> Result<Value, ExecutionError> {
    match op {
        Operand::Register(r) => Ok(reg_value(s.regs, r)),
        Operand::SegmentRegister(sr) => Ok(seg_value(s.segs, sr)),
        Operand::Immediate(v) => Ok(v),
        Operand::Memory(addr) => match mem_index_of(s, addr) {
            Ok(i) => if fits_at(i, word) {
                Ok(mem_value(s.mem, i, word))
            } else {
                Err(ExecutionError::MemoryOffset)
            },
            Err(e) => Err(e),
        },
    }
}

/// The state after `val` is stored into `dest`, flags untouched.
pub open spec fn store_operand_of(s: CpuState, dest: Operand, val: Value) -> Result<CpuState, ExecutionError> {
    match dest {
        Operand::Immediate(_) => Err(ExecutionError::ImmediateDestination),
        Operand::Register(r) => if r.is_word() != val.is_word() {
            Err(ExecutionError::WidthMismatch)
        } else {
            Ok(CpuState { regs: write_reg(s.regs, r, val), ..s })
        },
        Operand::SegmentRegister(sr) => if !val.is_word() {
            Err(ExecutionError::WidthMismatch)
        } else {
            Ok(CpuState { segs: store_value(s.segs, seg_offset(sr), val), ..s })
        },
        Operand::Memory(addr) => match mem_index_of(s, addr) {
            Ok(i) => if fits_at(i, val.is_word()) {
                Ok(CpuState { mem: store_value(s.mem, i as int, val), ..s })
            } else {
                Err(ExecutionError::MemoryOffset)
            },
            Err(e) => Err(e),
        },
    }
}

/// The state after `val` is stored into `dest` and zero, sign and parity are
/// set from the value.
pub open spec fn write_operand_of(s: CpuState, dest: Operand, val: Value) -> Result<CpuState, ExecutionError> {
    match store_operand_of(s, dest, val) {
        Ok(s1) => Ok(CpuState { flags: flags_from_value(s.flags, val), ..s1 }),
        Err(e) => Err(e),
    }
}

/// The state after a MOV.
pub open spec fn mov_of(s: CpuState, op: MovOp) -> Result<CpuState, ExecutionError> {
    match read_operand_of(s, op.source, access_width(op.source, op.destination)) {
        Ok(v) => write_operand_of(s, op.destination, v),
        Err(e) => Err(e),
    }
}

/// Wrapped sum of two words and a carry, with overflow, carry and auxiliary
/// carry.
pub open spec fn add_of(a: Value, b: Value, c: bool) -> (Value, bool, bool, bool) {
    (
        Value::Word((a.spec_int() + b.spec_int() + c as int) as i16),
        out_of_i16(a.spec_int() + b.spec_int() + c as int),
        a.spec_u16() + b.spec_u16() + c as int > u16::MAX,
        a.spec_u16() % 16 + b.spec_u16() % 16 + c as int > 15,
    )
}

/// Wrapped difference of two words and a borrow, with overflow, carry
/// (borrow) and auxiliary carry (nibble borrow).
pub open spec fn sub_of(a: Value, b: Value, c: bool) -> (Value, bool, bool, bool) {
    (
        Value::Word((a.spec_int() - b.spec_int() - c as int) as i16),
        out_of_i16(a.spec_int() - b.spec_int() - c as int),
        a.spec_u16() < b.spec_u16() + c as int,
        a.spec_u16() % 16 < b.spec_u16() % 16 + c as int,
    )
}

/// The flags after a compare whose destination orders as `ord` against its
/// source: zero, sign and (on equality) parity.
pub open spec fn cmp_flags(f: Flags, ord: core::cmp::Ordering) -> Flags {
    match ord {
        core::cmp::Ordering::Equal => Flags { zero: true, parity: true, sign: false, ..f },
        core::cmp::Ordering::Greater => Flags { zero: false, sign: false, ..f },
        core::cmp::Ordering::Less => Flags { zero: false, sign: true, ..f },
    }
}

/// The source and destination of an arithmetic instruction.
pub open spec fn num_operands(op: NumOp) -> (Operand, Operand) {
    match op {
        NumOp::Add { source, destination } => (source, destination),
        NumOp::Adc { source, destination } => (source, destination),
        NumOp::Sub { source, destination } => (source, destination),
        NumOp::Sbb { source, destination } => (source, destination),
        NumOp::Cmp { source, destination } => (source, destination),
    }
}

/// The result and flags of a storing arithmetic instruction on `d` (the
/// destination's value) and `v` (the source's).
pub open spec fn arith_of(op: NumOp, d: Value, v: Value, carry: bool) -> (Value, bool, bool, bool) {
    match op {
        NumOp::Add { .. } => add_of(d, v, false),
        NumOp::Adc { .. } => add_of(d, v, carry),
        NumOp::Sub { .. } => sub_of(d, v, false),
        NumOp::Sbb { .. } => sub_of(d, v, carry),
        NumOp::Cmp { .. } => sub_of(d, v, false),
    }
}

/// The state after an arithmetic instruction whose destination `dest` held
/// `d` and whose source held `v`.
pub open spec fn num_result_of(s: CpuState, op: NumOp, dest: Operand, d: Value, v: Value) -> Result<CpuState, ExecutionError> {
    if op is Cmp {
        Ok(CpuState { flags: cmp_flags(s.flags, ordering_of(d.spec_int(), v.spec_int())), ..s })
    } else if !(d.is_word() && v.is_word()) {
        Err(ExecutionError::ByteArithmetic)
    } else {
        let (r, overflow, carry, aux_carry) = arith_of(op, d, v, s.flags.carry);
        write_operand_of(CpuState { flags: Flags { overflow, carry, aux_carry, ..s.flags }, ..s }, dest, r)
    }
}

/// The state after an arithmetic instruction.
pub open spec fn num_of(s: CpuState, op: NumOp) -> Result<CpuState, ExecutionError> {
    let (source, dest) = num_operands(op);
    let w = access_width(source, dest);
    match read_operand_of(s, source, w) {
        Err(e) => Err(e),
        Ok(v) => if dest is Immediate {
            Err(ExecutionError::ImmediateDestination)
        } else {
            match read_operand_of(s, dest, w) {
                Err(e) => Err(e),
                Ok(d) => num_result_of(s, op, dest, d, v),
            }
        },
    }
}

/// The word `x` as a signed value.
pub open spec fn word_value(x: u16) -> Value {
    Value::Word(x as i16)
}

/// The state after a PUSH: SP drops by two, then the operand's word is
/// stored little-endian at the new SP.
pub open spec fn push_of(s: CpuState, op: PushOp) -> Result<CpuState, ExecutionError> {
    let sp = ((reg_u16(s, Register::SP) - 2) % 65536) as u16;
    let s1 = CpuState { regs: write_reg(s.regs, Register::SP, word_value(sp)), ..s };
    match read_operand_of(s1, op.operand, true) {
        Err(e) => Err(e),
        Ok(v) => if fits_at(sp, true) {
            Ok(CpuState { mem: store_value(s1.mem, sp as int, word_value(v.spec_u16())), ..s1 })
        } else {
            Err(ExecutionError::MemoryOffset)
        },
    }
}

/// The state after a POP: the word at SP is stored into the operand, then
/// SP rises by two; the flags are untouched.
pub open spec fn pop_of(s: CpuState, op: PopOp) -> Result<CpuState, ExecutionError> {
    let sp = reg_u16(s, Register::SP);
    if !fits_at(sp, true) {
        Err(ExecutionError::MemoryOffset)
    } else {
        match store_operand_of(s, op.operand, mem_value(s.mem, sp, true)) {
            Err(e) => Err(e),
            Ok(s1) => {
                let sp1 = ((reg_u16(s1, Register::SP) + 2) % 65536) as u16;
                Ok(CpuState { regs: write_reg(s1.regs, Register::SP, word_value(sp1)), ..s1 })
            },
        }
    }
}

/// Whether a conditional jump is taken, given the flags and the value of CX
/// (after the decrement, for the loop forms).
pub open spec fn condition_of(op: CondJumpOp, f: Flags, cx: u16) -> bool {
    match op {
        CondJumpOp::Equal(_) => f.zero,
        CondJumpOp::NotEqual(_) => !f.zero,
        CondJumpOp::ParityEven(_) => f.parity,
        CondJumpOp::ParityOdd(_) => !f.parity,
        CondJumpOp::Overflow(_) => f.overflow,
        CondJumpOp::NotOverflow(_) => !f.overflow,
        CondJumpOp::Sign(_) => f.sign,
        CondJumpOp::NotSign(_) => !f.sign,
        CondJumpOp::Less(_) => f.sign != f.overflow,
        CondJumpOp::LessEqual(_) => f.sign != f.overflow || f.zero,
        CondJumpOp::Greater(_) => !f.zero && f.sign == f.overflow,
        CondJumpOp::GreaterEqual(_) => f.sign == f.overflow,
        CondJumpOp::Below(_) => f.carry,
        CondJumpOp::BelowEqual(_) => f.carry || f.zero,
        CondJumpOp::Above(_) => !f.zero && !f.carry,
        CondJumpOp::AboveEqual(_) => !f.carry,
        CondJumpOp::CXZero(_) => cx == 0,
        CondJumpOp::Loop(_) => cx != 0,
        CondJumpOp::LoopEqual(_) => cx != 0 && f.zero,
        CondJumpOp::LoopNEqual(_) => cx != 0 && !f.zero,
    }
}

/// Whether the jump is one of the loop forms, which first decrement CX.
pub open spec fn is_loop(op: CondJumpOp) -> bool {
    op is Loop || op is LoopEqual || op is LoopNEqual
}

/// The state after a conditional jump or loop.
pub open spec fn jump_of(s: CpuState, op: CondJumpOp) -> Result<CpuState, ExecutionError> {
    let cx = reg_u16(s, Register::CX);
    let s1 = if is_loop(op) {
        CpuState { regs: write_reg(s.regs, Register::CX, word_value(((cx - 1) % 65536) as u16)), ..s }
    } else {
        s
    };
    if condition_of(op, s1.flags, reg_u16(s1, Register::CX)) {
        let target = s1.ip + op.spec_offset();
        if 0 <= target <= u16::MAX {
            Ok(CpuState { ip: target as u16, ..s1 })
        } else {
            Err(ExecutionError::InstructionOffset)
        }
    } else {
        Ok(s1)
    }
}

/// The state after an instruction whose IP has already been advanced, and
/// whether it halted.
pub open spec fn exec_of(s: CpuState, instr: Instruction) -> Result<(CpuState, bool), ExecutionError> {
    let r = match instr {
        Instruction::Mov(op) => mov_of(s, op),
        Instruction::Push(op) => push_of(s, op),
        Instruction::Pop(op) => pop_of(s, op),
        Instruction::Num(op) => num_of(s, op),
        Instruction::CondJump(op) => jump_of(s, op),
        Instruction::Halt => Ok(CpuState { ip: (s.ip - 1) as u16, ..s }),
    };
    match r {
        Ok(s1) => Ok((s1, instr is Halt)),
        Err(e) => Err(e),
    }
}

/// The bytes from which the next instruction is fetched: memory from
/// CS + IP on.
pub open spec fn fetch_bytes(s: CpuState) -> Seq<u8> {
    let idx = cs_base(s) + s.ip;
    if idx <= s.mem.len() {
        s.mem.skip(idx)
    } else {
        Seq::empty()
    }
}

/// One fetch-decode-execute step: the next state and whether it halted.
pub open spec fn step_of(s: CpuState) -> Result<(CpuState, bool), ExecutionError> {
    match decode_next_of(fetch_bytes(s)) {
        Err(e) => Err(ExecutionError::Decode(e)),
        Ok((instr, n)) => if s.ip + n > u16::MAX {
            Err(ExecutionError::InstructionOffset)
        } else {
            exec_of(CpuState { ip: (s.ip + n) as u16, ..s }, instr)
        },
    }
}

/// The state in which execution halts within `fuel` steps.
pub open spec fn run_of(s: CpuState, fuel: nat) -> Result<CpuState, ExecutionError>
    decreases fuel,
{
    if fuel == 0 {
        Err(ExecutionError::StepLimit)
    } else {
        match step_of(s) {
            Err(e) => Err(e),
            Ok((s1, halted)) => if halted {
                Ok(s1)
            } else {
                run_of(s1, (fuel - 1) as nat)
            },
        }
    }
}

/// The state in which execution stops within `fuel` steps: the state after
/// a halt; or, when a step fails or the fuel runs out, the state before that
/// step.
pub open spec fn stop_state_of(s: CpuState, fuel: nat) -> CpuState
    decreases fuel,
{
    if fuel == 0 {
        s
    } else {
        match step_of(s) {
            Err(_) => s,
            Ok((s1, halted)) => if halted {
                s1
            } else {
                stop_state_of(s1, (fuel - 1) as nat)
            },
        }
    }
}

} // verus!
