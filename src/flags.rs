//! The flags record.

use vstd::prelude::*;

use crate::value::Value;

verus! {

/// The nine flags; trap, interrupt-enable and direction are only stored.
#[derive(Debug, Clone, Copy, PartialEq, Eq, Structural)]
pub struct Flags {
    pub zero: bool,
    pub sign: bool,
    pub parity: bool,
    pub carry: bool,
    pub aux_carry: bool,
    pub overflow: bool,
    pub trap: bool,
    pub interrupt_enable: bool,
    pub direction: bool,
}

/// All flags cleared.
pub open spec fn cleared_flags() -> Flags {
    Flags {
        zero: false,
        sign: false,
        parity: false,
        carry: false,
        aux_carry: false,
        overflow: false,
        trap: false,
        interrupt_enable: false,
        direction: false,
    }
}

/// The flags after zero, sign and parity are set from `val`: parity is set
/// when the value is even.
pub open spec fn flags_from_value(f: Flags, val: Value) -> Flags {
    Flags { zero: val.spec_int() == 0, sign: val.spec_int() < 0, parity: val.spec_int() % 2 == 0, ..f }
}

impl Default for Flags {
    fn default() -> (r: Flags)
        ensures
            r == cleared_flags(),
    {
        Flags {
            zero: false,
            sign: false,
            parity: false,
            carry: false,
            aux_carry: false,
            overflow: false,
            trap: false,
            interrupt_enable: false,
            direction: false,
        }
    }
}

impl Flags {
    /// Sets the zero and sign flags.
    pub fn set_zero_sign(&mut self, zero: bool, sign: bool)
        ensures
            *final(self) == (Flags { zero, sign, ..*old(self) }),
    {
        self.zero = zero;
        self.sign = sign;
    }

    /// Sets the zero, sign and parity flags.
    pub fn set_zero_sign_parity(&mut self, zero: bool, sign: bool, parity: bool)
        ensures
            *final(self) == (Flags { zero, sign, parity, ..*old(self) }),
    {
        self.set_zero_sign(zero, sign);
        self.parity = parity;
    }

    /// Sets the overflow, carry and auxiliary carry flags.
    pub fn set_overflow_aux_carry(&mut self, overflow: bool, carry: bool, aux_carry: bool)
        ensures
            *final(self) == (Flags { overflow, carry, aux_carry, ..*old(self) }),
    {
        self.overflow = overflow;
        self.carry = carry;
        self.aux_carry = aux_carry;
    }

    /// Sets the status flags for a zero result: zero and parity set, sign
    /// cleared.
    pub fn set_zero(&mut self)
        ensures
            *final(self) == (Flags { zero: true, parity: true, sign: false, ..*old(self) }),
    {
        self.zero = true;
        self.parity = true;
        self.sign = false;
    }

    /// Sets the status flags for a positive result: zero and sign cleared.
    pub fn set_positive(&mut self)
        ensures
            *final(self) == (Flags { zero: false, sign: false, ..*old(self) }),
    {
        self.zero = false;
        self.sign = false;
    }

    /// Sets the status flags for a negative result: zero cleared, sign set.
    pub fn set_negative(&mut self)
        ensures
            *final(self) == (Flags { zero: false, sign: true, ..*old(self) }),
    {
        self.zero = false;
        self.sign = true;
    }

    /// Sets the parity flag for an even result.
    pub fn set_even(&mut self)
        ensures
            *final(self) == (Flags { parity: true, ..*old(self) }),
    {
        self.parity = true;
    }

    /// Clears the parity flag for an odd result.
    pub fn set_odd(&mut self)
        ensures
            *final(self) == (Flags { parity: false, ..*old(self) }),
    {
        self.parity = false;
    }

    /// Sets the zero, sign and parity flags from a stored value.
    pub fn set_from_value(&mut self, val: &Value)
        ensures
            *final(self) == flags_from_value(*old(self), *val),
    {
        if val.is_zero() {
            self.set_zero();
        } else if val.is_positive() {
            self.set_positive();
        } else {
            self.set_negative();
        }
        if val.is_even() {
            self.set_even();
        } else {
            self.set_odd();
        }
    }
}

} // verus!
