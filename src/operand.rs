//! Instruction operands and the ModR/M operand decoder.

use vstd::prelude::*;

use crate::address::{addr_allowed, displacement_of, effective_addr_of, Displacement, EffectiveAddr};
use crate::error::DecodeError;
use crate::fields::{Direction, Mode, Reg, Width, RM};
use crate::register::{register_of, Register, SegmentRegister};
use crate::value::Value;

verus! {

/// A decoded item together with the number of bytes it took.
pub type DResult<I> = Result<(I, usize), DecodeError>;

/// An instruction operand.
#[derive(Debug, Clone, Copy, PartialEq, Eq, Structural)]
pub enum Operand {
    Register(Register),
    SegmentRegister(SegmentRegister),
    Memory(EffectiveAddr),
    Immediate(Value),
}

/// The operand that the R/M field names for `mode`, reading any displacement
/// from `bytes`, with the number of bytes read.
pub open spec fn rm_operand_of(w: bool, mode: Mode, rm: u8, bytes: Seq<u8>) -> DResult<Operand> {
    match mode {
        Mode::Register => Ok((Operand::Register(register_of(rm, w)), 0usize)),
        _ => match displacement_of(mode, rm, bytes) {
            Ok((disp, n)) => Ok((Operand::Memory(effective_addr_of(rm, disp)), n)),
            Err(e) => Err(e),
        },
    }
}

/// The (source, destination) pair of a REG / R/M instruction.
pub open spec fn operands_of(
    mode: Mode,
    direction: Direction,
    w: bool,
    reg: u8,
    rm: u8,
    bytes: Seq<u8>,
) -> DResult<(Operand, Operand)> {
    match rm_operand_of(w, mode, rm, bytes) {
        Ok((rm_operand, n)) => {
            let reg_operand = Operand::Register(register_of(reg, w));
            match direction {
                Direction::Source => Ok(((reg_operand, rm_operand), n)),
                Direction::Destination => Ok(((rm_operand, reg_operand), n)),
            }
        },
        Err(e) => Err(e),
    }
}

impl Operand {
    /// Creates a register operand from a three-bit code and the `W` bit.
    pub fn register(rm: u8, width: bool) -> (r: Operand)
        requires
            rm < 8,
        ensures
            r == Operand::Register(register_of(rm, width)),
    {
        Operand::Register(Register::from(rm, width))
    }

    /// Creates a memory operand from the R/M field and a displacement.
    pub fn memory(rm: u8, disp: Displacement) -> (r: Operand)
        requires
            addr_allowed(rm, disp),
        ensures
            r == Operand::Memory(effective_addr_of(rm, disp)),
    {
        Operand::Memory(EffectiveAddr::new(rm, disp))
    }

    /// Creates an immediate operand.
    pub fn immediate(value: Value) -> (r: Operand)
        ensures
            r == Operand::Immediate(value),
    {
        Operand::Immediate(value)
    }

    /// Creates the register or memory operand that the mode and R/M field
    /// name, reading any displacement from the start of `bytes`.
    pub fn register_or_memory(width: bool, mode: &Mode, rm: u8, bytes: &[u8]) -> (r: DResult<Operand>)
        requires
            rm < 8,
        ensures
            r == rm_operand_of(width, *mode, rm, bytes@),
            r is Ok ==> r->Ok_0.1 <= bytes@.len(),
    {
        match mode {
            Mode::Register => Ok((Operand::register(rm, width), 0)),
            _ => {
                match Displacement::new(mode, rm, bytes) {
                    Ok((disp, n)) => Ok((Operand::memory(rm, disp), n)),
                    Err(e) => Err(e),
                }
            },
        }
    }
}

/// Returns the (source, destination) operands of a REG / R/M instruction:
/// the direction bit says whether the REG field names the source or the
/// destination.
pub fn get_operands(
    mode: Mode,
    direction: Direction,
    width: Width,
    reg: Reg,
    rm: RM,
    bytes: &[u8],
) -> (r: DResult<(Operand, Operand)>)
    requires
        reg.0 < 8,
        rm.0 < 8,
    ensures
        r == operands_of(mode, direction, width.spec_bool(), reg.0, rm.0, bytes@),
        r is Ok ==> r->Ok_0.1 <= bytes@.len(),
{
    let reg_operand = Operand::register(reg.as_u8(), width.as_bool());
    match Operand::register_or_memory(width.as_bool(), &mode, rm.as_u8(), bytes) {
        Ok((rm_operand, n)) => match direction {
            Direction::Source => Ok(((reg_operand, rm_operand), n)),
            Direction::Destination => Ok(((rm_operand, reg_operand), n)),
        },
        Err(e) => Err(e),
    }
}

/// The size prefix that disambiguates an immediate stored to memory.
pub open spec fn prefix_of(source: Operand, dest: Operand) -> Seq<char> {
    match (source, dest) {
        (Operand::Immediate(Value::Byte(_)), Operand::Memory(_)) => "byte "@,
        (Operand::Immediate(Value::Word(_)), Operand::Memory(_)) => "word "@,
        _ => ""@,
    }
}

/// Returns the size prefix that an immediate stored to memory needs in
/// disassembly, where the memory operand has no width of its own: `byte `
/// or `word ` by the immediate's width, and nothing for any other pair.
pub fn get_prefix<'a>(source: &'a Operand, dest: &'a Operand) -> (r: &'a str)
    ensures
        r@ == prefix_of(*source, *dest),
{
    match (source, dest) {
        (Operand::Immediate(Value::Byte(_)), Operand::Memory(_)) => "byte ",
        (Operand::Immediate(Value::Word(_)), Operand::Memory(_)) => "word ",
        _ => "",
    }
}

} // verus!
