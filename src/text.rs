//! Disassembly text: one line per instruction, destination first, in the
//! syntax a standard assembler accepts.

use vstd::prelude::*;
use vstd::string::StringExecFns;

use crate::address::{Displacement, EffectiveAddr};
use crate::instruct::{Instruction, InstructionQueue};
use crate::jump::CondJumpOp;
use crate::mov::MovOp;
use crate::num::NumOp;
use crate::operand::{get_prefix, prefix_of, Operand};
use crate::register::{Register, SegmentRegister};
use crate::value::Value;

verus! {

/// The decimal digit `d`.
pub open spec fn digit_text(d: int) -> Seq<char> {
    if d == 0 { "0"@ } else if d == 1 { "1"@ } else if d == 2 { "2"@ } else if d == 3 { "3"@ }
    else if d == 4 { "4"@ } else if d == 5 { "5"@ } else if d == 6 { "6"@ } else if d == 7 { "7"@ }
    else if d == 8 { "8"@ } else { "9"@ }
}

/// The decimal representation of `n`, without leading zeros.
pub open spec fn decimal(n: nat) -> Seq<char>
    decreases n,
{
    if n < 10 {
        digit_text(n as int)
    } else {
        decimal(n / 10) + digit_text((n % 10) as int)
    }
}

/// The decimal representation of a signed integer, with `-` when negative.
pub open spec fn signed_decimal(v: int) -> Seq<char> {
    if v < 0 {
        "-"@ + decimal((-v) as nat)
    } else {
        decimal(v as nat)
    }
}

/// The assembler name of a register.
pub open spec fn register_text(r: Register) -> Seq<char> {
    match r {
        Register::AL => "al"@,
        Register::BL => "bl"@,
        Register::CL => "cl"@,
        Register::DL => "dl"@,
        Register::AH => "ah"@,
        Register::BH => "bh"@,
        Register::CH => "ch"@,
        Register::DH => "dh"@,
        Register::AX => "ax"@,
        Register::BX => "bx"@,
        Register::CX => "cx"@,
        Register::DX => "dx"@,
        Register::SP => "sp"@,
        Register::BP => "bp"@,
        Register::SI => "si"@,
        Register::DI => "di"@,
    }
}

/// The assembler name of a segment register.
pub open spec fn segment_text(s: SegmentRegister) -> Seq<char> {
    match s {
        SegmentRegister::ES => "es"@,
        SegmentRegister::CS => "cs"@,
        SegmentRegister::SS => "ss"@,
        SegmentRegister::DS => "ds"@,
    }
}

/// The displacement part of a memory operand: a signed 8-bit displacement
/// with its sign, a 16-bit one as an unsigned addend.
pub open spec fn disp_text(d: Displacement) -> Seq<char> {
    match d {
        Displacement::Empty => ""@,
        Displacement::NoneDirect(a) => " + "@ + decimal(a as nat),
        Displacement::Byte(v) => if v >= 0 {
            " + "@ + decimal(v as nat)
        } else {
            " - "@ + decimal((-v) as nat)
        },
        Displacement::Word(v) => " + "@ + decimal((v as u16) as nat),
    }
}

/// A memory operand in brackets.
pub open spec fn addr_text(a: EffectiveAddr) -> Seq<char> {
    match a {
        EffectiveAddr::Direct(x) => "["@ + decimal(x as nat) + "]"@,
        EffectiveAddr::Reg(r) => "["@ + register_text(r) + "]"@,
        EffectiveAddr::RegDisp { base, disp } => "["@ + register_text(base) + disp_text(disp) + "]"@,
        EffectiveAddr::RegPair { base, index } => "["@ + register_text(base) + " + "@ + register_text(index) + "]"@,
        EffectiveAddr::RegPairDisp { base, index, disp } => "["@ + register_text(base) + " + "@
            + register_text(index) + disp_text(disp) + "]"@,
    }
}

/// An immediate: signed, or as the unsigned reading of its bits.
pub open spec fn immediate_text(v: Value, unsigned: bool) -> Seq<char> {
    if unsigned {
        match v {
            Value::Byte(b) => decimal((b as u8) as nat),
            Value::Word(w) => decimal((w as u16) as nat),
        }
    } else {
        signed_decimal(v.spec_int())
    }
}

/// An operand; `unsigned` says how an immediate is written.
pub open spec fn operand_text(op: Operand, unsigned: bool) -> Seq<char> {
    match op {
        Operand::Register(r) => register_text(r),
        Operand::SegmentRegister(s) => segment_text(s),
        Operand::Memory(a) => addr_text(a),
        Operand::Immediate(v) => immediate_text(v, unsigned),
    }
}

/// A MOV: destination, then source; an immediate is written unsigned.
pub open spec fn mov_text(op: MovOp) -> Seq<char> {
    "mov "@ + operand_text(op.destination, true) + ", "@ + prefix_of(op.source, op.destination)
        + operand_text(op.source, true)
}

/// The mnemonic of an arithmetic instruction.
pub open spec fn num_mnemonic(op: NumOp) -> Seq<char> {
    match op {
        NumOp::Add { .. } => "add"@,
        NumOp::Adc { .. } => "adc"@,
        NumOp::Sub { .. } => "sub"@,
        NumOp::Sbb { .. } => "sbb"@,
        NumOp::Cmp { .. } => "cmp"@,
    }
}

/// An arithmetic instruction; an immediate is written signed so that the
/// sign-extended short form reassembles.
pub open spec fn num_text(op: NumOp) -> Seq<char> {
    let (source, destination) = crate::state::num_operands(op);
    num_mnemonic(op) + " "@ + prefix_of(source, destination) + operand_text(destination, false) + ", "@
        + operand_text(source, false)
}

/// The operand of PUSH or POP; memory is marked as a word.
pub open spec fn stack_text(op: Operand) -> Seq<char> {
    match op {
        Operand::Memory(a) => "word "@ + addr_text(a),
        _ => operand_text(op, false),
    }
}

/// The mnemonic of a conditional jump.
pub open spec fn jump_mnemonic(op: CondJumpOp) -> Seq<char> {
    match op {
        CondJumpOp::Equal(_) => "je"@,
        CondJumpOp::Less(_) => "jl"@,
        CondJumpOp::LessEqual(_) => "jle"@,
        CondJumpOp::Below(_) => "jb"@,
        CondJumpOp::BelowEqual(_) => "jbe"@,
        CondJumpOp::ParityEven(_) => "jp"@,
        CondJumpOp::Overflow(_) => "jo"@,
        CondJumpOp::NotEqual(_) => "jnz"@,
        CondJumpOp::Sign(_) => "js"@,
        CondJumpOp::GreaterEqual(_) => "jnl"@,
        CondJumpOp::Greater(_) => "jg"@,
        CondJumpOp::AboveEqual(_) => "jnb"@,
        CondJumpOp::Above(_) => "ja"@,
        CondJumpOp::ParityOdd(_) => "jnp"@,
        CondJumpOp::NotOverflow(_) => "jno"@,
        CondJumpOp::NotSign(_) => "jns"@,
        CondJumpOp::CXZero(_) => "jcxz"@,
        CondJumpOp::Loop(_) => "loop"@,
        CondJumpOp::LoopEqual(_) => "loopz"@,
        CondJumpOp::LoopNEqual(_) => "loopnz"@,
    }
}

/// A conditional jump, with its target relative to its own address.
pub open spec fn jump_text(op: CondJumpOp) -> Seq<char> {
    let n = op.spec_offset() + 2;
    jump_mnemonic(op) + if n == 0 {
        " $+0"@
    } else if n > 0 {
        " $+"@ + decimal(n as nat) + "+0"@
    } else {
        " $-"@ + decimal((-n) as nat) + "+0"@
    }
}

/// The text of one instruction.
pub open spec fn instruction_text(i: Instruction) -> Seq<char> {
    match i {
        Instruction::Mov(op) => mov_text(op),
        Instruction::Push(op) => "push "@ + stack_text(op.operand),
        Instruction::Pop(op) => "pop "@ + stack_text(op.operand),
        Instruction::Num(op) => num_text(op),
        Instruction::CondJump(op) => jump_text(op),
        Instruction::Halt => "hlt"@,
    }
}

fn digit(d: u32) -> (r: &'static str)
    requires
        d < 10,
    ensures
        r@ == digit_text(d as int),
{
    match d {
        0 => "0",
        1 => "1",
        2 => "2",
        3 => "3",
        4 => "4",
        5 => "5",
        6 => "6",
        7 => "7",
        8 => "8",
        _ => "9",
    }
}

/// Appends the decimal representation of `n`.
fn push_decimal(out: &mut String, n: u32)
    ensures
        final(out)@ == old(out)@ + decimal(n as nat),
    decreases n,
{
    if n < 10 {
        out.append(digit(n));
    } else {
        push_decimal(out, n / 10);
        out.append(digit(n % 10));
        assert(final(out)@ =~= old(out)@ + decimal(n as nat));
    }
}

fn push_signed(out: &mut String, v: i32)
    ensures
        final(out)@ == old(out)@ + signed_decimal(v as int),
{
    if v < 0 {
        out.append("-");
        push_decimal(out, (0 - (v as i64)) as u32);
        assert(final(out)@ =~= old(out)@ + signed_decimal(v as int));
    } else {
        push_decimal(out, v as u32);
    }
}

fn register_name(r: &Register) -> (s: &'static str)
    ensures
        s@ == register_text(*r),
{
    match r {
        Register::AL => "al",
        Register::BL => "bl",
        Register::CL => "cl",
        Register::DL => "dl",
        Register::AH => "ah",
        Register::BH => "bh",
        Register::CH => "ch",
        Register::DH => "dh",
        Register::AX => "ax",
        Register::BX => "bx",
        Register::CX => "cx",
        Register::DX => "dx",
        Register::SP => "sp",
        Register::BP => "bp",
        Register::SI => "si",
        Register::DI => "di",
    }
}

fn segment_name(r: &SegmentRegister) -> (s: &'static str)
    ensures
        s@ == segment_text(*r),
{
    match r {
        SegmentRegister::ES => "es",
        SegmentRegister::CS => "cs",
        SegmentRegister::SS => "ss",
        SegmentRegister::DS => "ds",
    }
}

fn push_disp(out: &mut String, d: &Displacement)
    ensures
        final(out)@ == old(out)@ + disp_text(*d),
{
    match d {
        Displacement::Empty => {
            proof {
                reveal_strlit("");
            }
            assert(old(out)@ + ""@ =~= old(out)@);
        },
        Displacement::NoneDirect(a) => {
            out.append(" + ");
            push_decimal(out, *a as u32);
        },
        Displacement::Byte(v) => {
            if *v >= 0 {
                out.append(" + ");
                push_decimal(out, *v as u32);
            } else {
                out.append(" - ");
                push_decimal(out, (0 - (*v as i32)) as u32);
            }
        },
        Displacement::Word(v) => {
            out.append(" + ");
            push_decimal(out, (*v as u16) as u32);
        },
    }
    assert(final(out)@ =~= old(out)@ + disp_text(*d));
}

fn push_addr(out: &mut String, a: &EffectiveAddr)
    ensures
        final(out)@ == old(out)@ + addr_text(*a),
{
    out.append("[");
    match a {
        EffectiveAddr::Direct(x) => push_decimal(out, *x as u32),
        EffectiveAddr::Reg(r) => out.append(register_name(r)),
        EffectiveAddr::RegDisp { base, disp } => {
            out.append(register_name(base));
            push_disp(out, disp);
        },
        EffectiveAddr::RegPair { base, index } => {
            out.append(register_name(base));
            out.append(" + ");
            out.append(register_name(index));
        },
        EffectiveAddr::RegPairDisp { base, index, disp } => {
            out.append(register_name(base));
            out.append(" + ");
            out.append(register_name(index));
            push_disp(out, disp);
        },
    }
    out.append("]");
    assert(final(out)@ =~= old(out)@ + addr_text(*a));
}

fn push_operand(out: &mut String, op: &Operand, unsigned: bool)
    ensures
        final(out)@ == old(out)@ + operand_text(*op, unsigned),
{
    match op {
        Operand::Register(r) => out.append(register_name(r)),
        Operand::SegmentRegister(s) => out.append(segment_name(s)),
        Operand::Memory(a) => push_addr(out, a),
        Operand::Immediate(v) => {
            if unsigned {
                match v {
                    Value::Byte(b) => push_decimal(out, (*b as u8) as u32),
                    Value::Word(w) => push_decimal(out, (*w as u16) as u32),
                }
            } else {
                match v {
                    Value::Byte(b) => push_signed(out, *b as i32),
                    Value::Word(w) => push_signed(out, *w as i32),
                }
            }
        },
    }
}

fn push_stack_operand(out: &mut String, op: &Operand)
    ensures
        final(out)@ == old(out)@ + stack_text(*op),
{
    match op {
        Operand::Memory(a) => {
            out.append("word ");
            push_addr(out, a);
            assert(final(out)@ =~= old(out)@ + stack_text(*op));
        },
        _ => push_operand(out, op, false),
    }
}

fn jump_name(op: &CondJumpOp) -> (s: &'static str)
    ensures
        s@ == jump_mnemonic(*op),
{
    match op {
        CondJumpOp::Equal(_) => "je",
        CondJumpOp::Less(_) => "jl",
        CondJumpOp::LessEqual(_) => "jle",
        CondJumpOp::Below(_) => "jb",
        CondJumpOp::BelowEqual(_) => "jbe",
        CondJumpOp::ParityEven(_) => "jp",
        CondJumpOp::Overflow(_) => "jo",
        CondJumpOp::NotEqual(_) => "jnz",
        CondJumpOp::Sign(_) => "js",
        CondJumpOp::GreaterEqual(_) => "jnl",
        CondJumpOp::Greater(_) => "jg",
        CondJumpOp::AboveEqual(_) => "jnb",
        CondJumpOp::Above(_) => "ja",
        CondJumpOp::ParityOdd(_) => "jnp",
        CondJumpOp::NotOverflow(_) => "jno",
        CondJumpOp::NotSign(_) => "jns",
        CondJumpOp::CXZero(_) => "jcxz",
        CondJumpOp::Loop(_) => "loop",
        CondJumpOp::LoopEqual(_) => "loopz",
        CondJumpOp::LoopNEqual(_) => "loopnz",
    }
}

fn push_instruction(out: &mut String, instr: &Instruction)
    ensures
        final(out)@ == old(out)@ + instruction_text(*instr),
{
    proof {
        reveal_strlit("");
    }
    match instr {
        Instruction::Mov(op) => {
            out.append("mov ");
            push_operand(out, &op.destination, true);
            out.append(", ");
            out.append(get_prefix(&op.source, &op.destination));
            push_operand(out, &op.source, true);
        },
        Instruction::Push(op) => {
            out.append("push ");
            push_stack_operand(out, &op.operand);
        },
        Instruction::Pop(op) => {
            out.append("pop ");
            push_stack_operand(out, &op.operand);
        },
        Instruction::Num(op) => {
            let (mnemonic, source, destination) = match op {
                NumOp::Add { source, destination } => ("add", source, destination),
                NumOp::Adc { source, destination } => ("adc", source, destination),
                NumOp::Sub { source, destination } => ("sub", source, destination),
                NumOp::Sbb { source, destination } => ("sbb", source, destination),
                NumOp::Cmp { source, destination } => ("cmp", source, destination),
            };
            out.append(mnemonic);
            out.append(" ");
            out.append(get_prefix(source, destination));
            push_operand(out, destination, false);
            out.append(", ");
            push_operand(out, source, false);
        },
        Instruction::CondJump(op) => {
            out.append(jump_name(op));
            let n: i32 = op.offset() as i32 + 2;
            if n == 0 {
                out.append(" $+0");
            } else if n > 0 {
                out.append(" $+");
                push_decimal(out, n as u32);
                out.append("+0");
            } else {
                out.append(" $-");
                push_decimal(out, (0 - n) as u32);
                out.append("+0");
            }
        },
        Instruction::Halt => out.append("hlt"),
    }
    assert(final(out)@ =~= old(out)@ + instruction_text(*instr));
}

impl Instruction {
    /// Returns the instruction's disassembly text.
    pub fn to_string(&self) -> (r: String)
        ensures
            r@ == instruction_text(*self),
    {
        let mut out = String::new();
        push_instruction(&mut out, self);
        assert(out@ =~= instruction_text(*self));
        out
    }
}

/// The listing of a program: each instruction of nonzero size on a line of
/// its own, each line ending in a newline; the size-zero halt sentinel is
/// not listed.
pub open spec fn program_text(instrs: Seq<Instruction>, sizes: Seq<usize>) -> Seq<char>
    decreases instrs.len(),
{
    if instrs.len() == 0 {
        Seq::empty()
    } else {
        program_text(instrs.drop_last(), sizes.drop_last()) + if sizes[instrs.len() - 1] == 0 {
            Seq::empty()
        } else {
            instruction_text(instrs.last()) + "\n"@
        }
    }
}

impl InstructionQueue {
    /// Returns the program's disassembly listing.
    pub fn to_string(&self) -> (r: String)
        requires
            self.wf(),
        ensures
            r@ == program_text(self.instructions(), self.sizes()),
    {
        let mut out = String::new();
        let n = self.len();
        let mut i: usize = 0;
        while i < n
            invariant
                self.wf(),
                n == self.instructions().len(),
                i <= n,
                out@ == program_text(self.instructions().take(i as int), self.sizes().take(i as int)),
            decreases n - i,
        {
            let (instr, size) = self.entry(i);
            if size != 0 {
                push_instruction(&mut out, &instr);
                out.append("\n");
            }
            proof {
                let ins = self.instructions().take(i + 1);
                let szs = self.sizes().take(i + 1);
                assert(ins.drop_last() =~= self.instructions().take(i as int));
                assert(szs.drop_last() =~= self.sizes().take(i as int));
                reveal_strlit("");
            }
            i = i + 1;
            assert(out@ =~= program_text(self.instructions().take(i as int), self.sizes().take(i as int)));
        }
        assert(self.instructions().take(n as int) =~= self.instructions());
        assert(self.sizes().take(n as int) =~= self.sizes());
        out
    }
}

} // verus!
