//! Displacements and effective addresses of memory operands.

use vstd::prelude::*;

use crate::error::DecodeError;
use crate::fields::Mode;
use crate::register::Register;

verus! {

/// The displacement that follows a ModR/M byte.
#[derive(Debug, Clone, Copy, PartialEq, Eq, Structural)]
pub enum Displacement {
    /// No displacement.
    Empty,
    /// A 16-bit absolute address (mode `00` with R/M `110`).
    NoneDirect(u16),
    /// A signed 8-bit displacement.
    Byte(i8),
    /// A signed 16-bit displacement.
    Word(i16),
}

/// The unsigned word whose little-endian bytes are `lo` and `hi`.
pub open spec fn le_u16(lo: u8, hi: u8) -> u16 {
    (lo + 256 * hi) as u16
}

/// The displacement read for `mode` and `rm` from `bytes`, with the number of
/// bytes it takes.
pub open spec fn displacement_of(mode: Mode, rm: u8, bytes: Seq<u8>) -> Result<(Displacement, usize), DecodeError> {
    match mode {
        Mode::Memory => if rm != 6 {
            Ok((Displacement::Empty, 0usize))
        } else if bytes.len() < 2 {
            Err(DecodeError::Incomplete)
        } else {
            Ok((Displacement::NoneDirect(le_u16(bytes[0], bytes[1])), 2usize))
        },
        Mode::Memory8 => if bytes.len() < 1 {
            Err(DecodeError::Incomplete)
        } else {
            Ok((Displacement::Byte(bytes[0] as i8), 1usize))
        },
        Mode::Memory16 => if bytes.len() < 2 {
            Err(DecodeError::Incomplete)
        } else {
            Ok((Displacement::Word(crate::value::word_of(bytes[0], bytes[1])), 2usize))
        },
        Mode::Register => Err(DecodeError::Displacement),
    }
}

/// The direct-address form is read only in memory mode without displacement
/// and with R/M `110`.
pub proof fn lemma_direct_only_for_rm_110(mode: Mode, rm: u8, bytes: Seq<u8>)
    requires
        displacement_of(mode, rm, bytes) is Ok,
        displacement_of(mode, rm, bytes)->Ok_0.0 is NoneDirect,
    ensures
        mode == Mode::Memory,
        rm == 6,
{
}

/// Reads a little-endian unsigned word from two bytes.
pub(crate) fn read_u16(lo: u8, hi: u8) -> (r: u16)
    ensures
        r == le_u16(lo, hi),
{
    (lo as u32 + 256 * hi as u32) as u16
}

/// Reads a little-endian signed word from two bytes.
pub(crate) fn read_i16(lo: u8, hi: u8) -> (r: i16)
    ensures
        r == crate::value::word_of(lo, hi),
{
    (lo as u32 + 256 * hi as u32) as i16
}

impl Displacement {
    /// Reads the displacement selected by `mode` and the R/M field from the
    /// start of `bytes`, returning it with the number of bytes read.
    pub fn new(mode: &Mode, rm: u8, bytes: &[u8]) -> (r: Result<(Displacement, usize), DecodeError>)
        ensures
            r == displacement_of(*mode, rm, bytes@),
    {
        match mode {
            Mode::Memory => {
                if rm != 0b110 {
                    Ok((Displacement::Empty, 0))
                } else if bytes.len() < 2 {
                    Err(DecodeError::Incomplete)
                } else {
                    Ok((Displacement::NoneDirect(read_u16(bytes[0], bytes[1])), 2))
                }
            },
            Mode::Memory8 => {
                if bytes.len() < 1 {
                    Err(DecodeError::Incomplete)
                } else {
                    Ok((Displacement::Byte(bytes[0] as i8), 1))
                }
            },
            Mode::Memory16 => {
                if bytes.len() < 2 {
                    Err(DecodeError::Incomplete)
                } else {
                    Ok((Displacement::Word(read_i16(bytes[0], bytes[1])), 2))
                }
            },
            Mode::Register => Err(DecodeError::Displacement),
        }
    }

    /// The displacement as a signed offset; none for a direct address.
    pub open spec fn spec_value(self) -> Option<i16> {
        match self {
            Displacement::Empty => Some(0i16),
            Displacement::NoneDirect(_) => None,
            Displacement::Byte(v) => Some(v as i16),
            Displacement::Word(v) => Some(v),
        }
    }

    /// Returns the displacement as a signed 16-bit offset, or `None` for the
    /// direct-address form, which is an address and not an offset.
    pub fn value(&self) -> (r: Option<i16>)
        ensures
            r == self.spec_value(),
    {
        match self {
            Displacement::Empty => Some(0i16),
            Displacement::NoneDirect(_) => None,
            Displacement::Byte(v) => Some(*v as i16),
            Displacement::Word(v) => Some(*v),
        }
    }
}

/// How the address of a memory operand is computed.
#[derive(Debug, Clone, Copy, PartialEq, Eq, Structural)]
pub enum EffectiveAddr {
    Direct(u16),
    Reg(Register),
    RegDisp { base: Register, disp: Displacement },
    RegPair { base: Register, index: Register },
    RegPairDisp { base: Register, index: Register, disp: Displacement },
}

/// Whether a displacement is a true (8- or 16-bit) displacement.
pub open spec fn has_offset(disp: Displacement) -> bool {
    disp is Byte || disp is Word
}

/// The address on a single base register with an optional displacement.
pub open spec fn single_addr(base: Register, disp: Displacement) -> EffectiveAddr {
    if has_offset(disp) {
        EffectiveAddr::RegDisp { base, disp }
    } else {
        EffectiveAddr::Reg(base)
    }
}

/// The address on a base and an index register with an optional displacement.
pub open spec fn pair_addr(base: Register, index: Register, disp: Displacement) -> EffectiveAddr {
    if has_offset(disp) {
        EffectiveAddr::RegPairDisp { base, index, disp }
    } else {
        EffectiveAddr::RegPair { base, index }
    }
}

/// The effective address that an R/M field and a displacement describe.
pub open spec fn effective_addr_of(rm: u8, disp: Displacement) -> EffectiveAddr {
    if rm == 0 {
        pair_addr(Register::BX, Register::SI, disp)
    } else if rm == 1 {
        pair_addr(Register::BX, Register::DI, disp)
    } else if rm == 2 {
        pair_addr(Register::BP, Register::SI, disp)
    } else if rm == 3 {
        pair_addr(Register::BP, Register::DI, disp)
    } else if rm == 4 {
        single_addr(Register::SI, disp)
    } else if rm == 5 {
        single_addr(Register::DI, disp)
    } else if rm == 6 {
        match disp {
            Displacement::NoneDirect(addr) => EffectiveAddr::Direct(addr),
            _ => single_addr(Register::BP, disp),
        }
    } else {
        single_addr(Register::BX, disp)
    }
}

/// Whether an R/M field and a displacement describe an address: R/M `110`
/// needs a displacement or a direct address.
pub open spec fn addr_allowed(rm: u8, disp: Displacement) -> bool {
    rm < 8 && !(rm == 6 && disp is Empty)
}

impl EffectiveAddr {
    /// Creates a direct effective address.
    fn direct(addr: u16) -> (r: EffectiveAddr)
        ensures
            r == EffectiveAddr::Direct(addr),
    {
        EffectiveAddr::Direct(addr)
    }

    /// Creates an address on one base register and an optional displacement.
    fn register(base: Register, disp: Displacement) -> (r: EffectiveAddr)
        ensures
            r == single_addr(base, disp),
    {
        match disp {
            Displacement::Byte(_) | Displacement::Word(_) => EffectiveAddr::RegDisp { base, disp },
            _ => EffectiveAddr::Reg(base),
        }
    }

    /// Creates an address on a base and an index register and an optional
    /// displacement.
    fn register_pair(base: Register, index: Register, disp: Displacement) -> (r: EffectiveAddr)
        ensures
            r == pair_addr(base, index, disp),
    {
        match disp {
            Displacement::Byte(_) | Displacement::Word(_) => EffectiveAddr::RegPairDisp {
                base,
                index,
                disp,
            },
            _ => EffectiveAddr::RegPair { base, index },
        }
    }

    /// Creates the effective address that the R/M field and the displacement
    /// describe.
    pub fn new(rm: u8, disp: Displacement) -> (r: EffectiveAddr)
        requires
            addr_allowed(rm, disp),
        ensures
            r == effective_addr_of(rm, disp),
    {
        match rm {
            0 => Self::register_pair(Register::BX, Register::SI, disp),
            1 => Self::register_pair(Register::BX, Register::DI, disp),
            2 => Self::register_pair(Register::BP, Register::SI, disp),
            3 => Self::register_pair(Register::BP, Register::DI, disp),
            4 => Self::register(Register::SI, disp),
            5 => Self::register(Register::DI, disp),
            6 => match disp {
                Displacement::NoneDirect(addr) => Self::direct(addr),
                _ => Self::register(Register::BP, disp),
            },
            _ => Self::register(Register::BX, disp),
        }
    }
}

} // verus!
