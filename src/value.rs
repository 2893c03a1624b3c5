//! Signed 8- and 16-bit values and the arithmetic that produces status flags.

use vstd::prelude::*;

verus! {

/// A signed operand value of byte or word width.
#[derive(Debug, Clone, Copy, PartialEq, Eq, Structural)]
pub enum Value {
    Byte(i8),
    Word(i16),
}

/// The signed word whose little-endian bytes are `lo` and `hi`.
pub open spec fn word_of(lo: u8, hi: u8) -> i16 {
    (lo + 256 * hi) as i16
}

/// The ordering of two integers.
pub open spec fn ordering_of(a: int, b: int) -> core::cmp::Ordering {
    if a < b {
        core::cmp::Ordering::Less
    } else if a == b {
        core::cmp::Ordering::Equal
    } else {
        core::cmp::Ordering::Greater
    }
}

/// Whether `x` lies outside the range of `i16`.
pub open spec fn out_of_i16(x: int) -> bool {
    !(i16::MIN <= x && x <= i16::MAX)
}

impl Value {
    /// The value as a mathematical integer; a byte is sign-extended.
    pub open spec fn spec_int(self) -> int {
        match self {
            Value::Byte(v) => v as int,
            Value::Word(v) => v as int,
        }
    }

    pub open spec fn is_word(self) -> bool {
        self is Word
    }

    /// The value's bits read as an unsigned 16-bit number (a byte is
    /// sign-extended first).
    pub open spec fn spec_u16(self) -> u16 {
        self.spec_int() as u16
    }

    /// Creates a 16-bit value from two little-endian bytes.
    pub fn word(bytes: [u8; 2]) -> (r: Value)
        ensures
            r == Value::Word(word_of(bytes[0], bytes[1])),
    {
        let lo = bytes[0] as u16;
        let hi = bytes[1] as u16;
        Value::Word((lo + 256 * hi) as i16)
    }

    /// Creates an 8-bit value from a byte.
    pub fn byte(byte: u8) -> (r: Value)
        ensures
            r == Value::Byte(byte as i8),
    {
        Value::Byte(byte as i8)
    }

    /// Returns whether the value is zero.
    pub fn is_zero(&self) -> (r: bool)
        ensures
            r == (self.spec_int() == 0),
    {
        match self {
            Value::Byte(v) => *v == 0,
            Value::Word(v) => *v == 0,
        }
    }

    /// Returns whether the value is negative.
    pub fn is_negative(&self) -> (r: bool)
        ensures
            r == (self.spec_int() < 0),
    {
        match self {
            Value::Byte(v) => *v < 0,
            Value::Word(v) => *v < 0,
        }
    }

    /// Returns whether the value is positive (strictly greater than zero).
    pub fn is_positive(&self) -> (r: bool)
        ensures
            r == (self.spec_int() > 0),
    {
        match self {
            Value::Byte(v) => *v > 0,
            Value::Word(v) => *v > 0,
        }
    }

    /// Returns whether the value is even.
    pub fn is_even(&self) -> (r: bool)
        ensures
            r == (self.spec_int() % 2 == 0),
    {
        let v: i16 = match self {
            Value::Byte(v) => *v as i16,
            Value::Word(v) => *v,
        };
        let u: i32 = v as i32 + 32768;
        assert((u as int) % 2 == (v as int) % 2);
        u % 2 == 0
    }

    /// Returns the value's bits as an unsigned 16-bit integer; a byte is
    /// sign-extended.
    pub fn as_u16(&self) -> (r: u16)
        ensures
            r == self.spec_u16(),
    {
        match self {
            Value::Byte(v) => *v as u16,
            Value::Word(v) => *v as u16,
        }
    }

    /// Adds two words, returning the wrapped sum with the overflow, carry and
    /// auxiliary carry flags.
    ///
    /// The overflow flag is set when the true sum lies outside the signed
    /// 16-bit range, the carry flag when the sum of the unsigned readings
    /// exceeds `0xFFFF`, and the auxiliary carry when the low nibbles carry.
    pub fn flagged_add(&self, other: &Value) -> (r: (Value, bool, bool, bool))
        requires
            self.is_word(),
            other.is_word(),
        ensures
            r.0 == Value::Word((self.spec_int() + other.spec_int()) as i16),
            r.1 == out_of_i16(self.spec_int() + other.spec_int()),
            r.2 == (self.spec_u16() + other.spec_u16() > u16::MAX),
            r.3 == (self.spec_u16() % 16 + other.spec_u16() % 16 > 15),
    {
        Self::flagged_add_with(self, other, false)
    }

    /// Subtracts `other` from `self`, returning the wrapped difference with
    /// the overflow, carry (borrow) and auxiliary carry (nibble borrow) flags.
    pub fn flagged_sub(&self, other: &Value) -> (r: (Value, bool, bool, bool))
        requires
            self.is_word(),
            other.is_word(),
        ensures
            r.0 == Value::Word((self.spec_int() - other.spec_int()) as i16),
            r.1 == out_of_i16(self.spec_int() - other.spec_int()),
            r.2 == (self.spec_u16() < other.spec_u16()),
            r.3 == (self.spec_u16() % 16 < other.spec_u16() % 16),
    {
        Self::flagged_sub_with(self, other, false)
    }

    /// Adds two words and an incoming carry, returning the wrapped sum with
    /// the overflow, carry and auxiliary carry flags.
    pub fn flagged_carrying_add(&self, other: &Value, carry: bool) -> (r: (Value, bool, bool, bool))
        requires
            self.is_word(),
            other.is_word(),
        ensures
            r.0 == Value::Word((self.spec_int() + other.spec_int() + carry as int) as i16),
            r.1 == out_of_i16(self.spec_int() + other.spec_int() + carry as int),
            r.2 == (self.spec_u16() + other.spec_u16() + carry as int > u16::MAX),
            r.3 == (self.spec_u16() % 16 + other.spec_u16() % 16 + carry as int > 15),
    {
        Self::flagged_add_with(self, other, carry)
    }

    /// Subtracts `other` and an incoming borrow from `self`, returning the
    /// wrapped difference with the overflow, carry and auxiliary carry flags.
    pub fn flagged_carrying_sub(&self, other: &Value, carry: bool) -> (r: (Value, bool, bool, bool))
        requires
            self.is_word(),
            other.is_word(),
        ensures
            r.0 == Value::Word((self.spec_int() - other.spec_int() - carry as int) as i16),
            r.1 == out_of_i16(self.spec_int() - other.spec_int() - carry as int),
            r.2 == (self.spec_u16() < other.spec_u16() + carry as int),
            r.3 == (self.spec_u16() % 16 < other.spec_u16() % 16 + carry as int),
    {
        Self::flagged_sub_with(self, other, carry)
    }

    fn flagged_add_with(a: &Value, b: &Value, carry: bool) -> (r: (Value, bool, bool, bool))
        requires
            a.is_word(),
            b.is_word(),
        ensures
            r.0 == Value::Word((a.spec_int() + b.spec_int() + carry as int) as i16),
            r.1 == out_of_i16(a.spec_int() + b.spec_int() + carry as int),
            r.2 == (a.spec_u16() + b.spec_u16() + carry as int > u16::MAX),
            r.3 == (a.spec_u16() % 16 + b.spec_u16() % 16 + carry as int > 15),
    {
        let c: i32 = if carry { 1 } else { 0 };
        let ua = a.as_u16();
        let ub = b.as_u16();
        let (x, y) = match (a, b) {
            (Value::Word(x), Value::Word(y)) => (*x, *y),
            _ => (0i16, 0i16),
        };
        let sum: i32 = x as i32 + y as i32 + c;
        let overflow = sum < -32768 || sum > 32767;
        let usum: u32 = ua as u32 + ub as u32 + c as u32;
        let nibbles: u32 = (ua % 16) as u32 + (ub % 16) as u32 + c as u32;
        (Value::Word(sum as i16), overflow, usum > 0xFFFF, nibbles > 15)
    }

    fn flagged_sub_with(a: &Value, b: &Value, carry: bool) -> (r: (Value, bool, bool, bool))
        requires
            a.is_word(),
            b.is_word(),
        ensures
            r.0 == Value::Word((a.spec_int() - b.spec_int() - carry as int) as i16),
            r.1 == out_of_i16(a.spec_int() - b.spec_int() - carry as int),
            r.2 == (a.spec_u16() < b.spec_u16() + carry as int),
            r.3 == (a.spec_u16() % 16 < b.spec_u16() % 16 + carry as int),
    {
        let c: i32 = if carry { 1 } else { 0 };
        let ua = a.as_u16();
        let ub = b.as_u16();
        let (x, y) = match (a, b) {
            (Value::Word(x), Value::Word(y)) => (*x, *y),
            _ => (0i16, 0i16),
        };
        let diff: i32 = x as i32 - y as i32 - c;
        let overflow = diff < -32768 || diff > 32767;
        let borrow = (ua as u32) < ub as u32 + c as u32;
        let nibble_borrow = ((ua % 16) as u32) < (ub % 16) as u32 + c as u32;
        (Value::Word(diff as i16), overflow, borrow, nibble_borrow)
    }

    /// Compares two values as signed integers; a byte is sign-extended.
    pub fn cmp(&self, other: &Self) -> (r: core::cmp::Ordering)
        ensures
            r == ordering_of(self.spec_int(), other.spec_int()),
    {
        let a: i16 = match self {
            Value::Byte(v) => *v as i16,
            Value::Word(v) => *v,
        };
        let b: i16 = match other {
            Value::Byte(v) => *v as i16,
            Value::Word(v) => *v,
        };
        if a < b {
            core::cmp::Ordering::Less
        } else if a == b {
            core::cmp::Ordering::Equal
        } else {
            core::cmp::Ordering::Greater
        }
    }
}

} // verus!
