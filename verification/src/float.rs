//! Binary floating-point numbers held as their bit patterns.
//!
//! A number is carried as the bits of its IEEE 754 encoding. Equality and order
//! are those of the numbers, not of the bits: a NaN equals nothing and is
//! unordered, and the two zeros are equal.
use vstd::prelude::*;

verus! {

/// How two numbers stand to each other.
#[derive(Clone, Copy, Debug, PartialEq, Eq, Structural)]
pub enum Order {
    Less,
    Equal,
    Greater,
}

/// A double-precision number, by its bits.
#[derive(Clone, Copy, Debug)]
pub struct Float64 {
    pub bits: u64,
}

/// A single-precision number, by its bits.
#[derive(Clone, Copy, Debug)]
pub struct Float32 {
    pub bits: u32,
}

/// The sign bit of a double-precision number.
pub const SIGN_64: u64 = 0x8000_0000_0000_0000;

/// The bits of a double-precision number but for its sign.
pub const MAGNITUDE_64: u64 = 0x7fff_ffff_ffff_ffff;

/// The magnitude of the double-precision infinities.
pub const INFINITY_64: u64 = 0x7ff0_0000_0000_0000;

/// The sign bit of a single-precision number.
pub const SIGN_32: u32 = 0x8000_0000;

/// The bits of a single-precision number but for its sign.
pub const MAGNITUDE_32: u32 = 0x7fff_ffff;

/// The magnitude of the single-precision infinities.
pub const INFINITY_32: u32 = 0x7f80_0000;

/// The order of two numbers given by sign and magnitude, neither a NaN.
pub open spec fn order_of(negative_a: bool, magnitude_a: int, negative_b: bool, magnitude_b: int) -> Order {
    let a = if negative_a { -magnitude_a } else { magnitude_a };
    let b = if negative_b { -magnitude_b } else { magnitude_b };
    if a < b {
        Order::Less
    } else if a == b {
        Order::Equal
    } else {
        Order::Greater
    }
}

impl Float64 {
    /// The number with these bits.
    pub fn from_bits(bits: u64) -> (x: Float64)
        ensures
            x.bits == bits,
    {
        Float64 { bits }
    }

    /// The bits of the number.
    pub fn to_bits(&self) -> (bits: u64)
        ensures
            bits == self.bits,
    {
        self.bits
    }

    /// The encoding without its sign.
    pub open spec fn magnitude(&self) -> u64 {
        self.bits & MAGNITUDE_64
    }

    /// Whether the sign bit is set.
    pub open spec fn negative(&self) -> bool {
        self.bits & SIGN_64 != 0
    }

    /// Not a number: the magnitude lies above that of infinity.
    pub open spec fn nan(&self) -> bool {
        self.magnitude() > INFINITY_64
    }

    /// Whether this is not a number.
    pub fn is_nan(&self) -> (r: bool)
        ensures
            r == self.nan(),
    {
        (self.bits & MAGNITUDE_64) > INFINITY_64
    }

    /// The order of the two numbers; none where one is a NaN.
    pub open spec fn ordered(&self, other: &Float64) -> Option<Order> {
        if self.nan() || other.nan() {
            None
        } else {
            Some(order_of(self.negative(), self.magnitude() as int, other.negative(), other.magnitude() as int))
        }
    }

    /// Equality of the numbers.
    pub open spec fn same(&self, other: &Float64) -> bool {
        self.ordered(other) == Some(Order::Equal)
    }

    /// The order of the two numbers; none where one is a NaN.
    pub fn compare(&self, other: &Float64) -> (r: Option<Order>)
        ensures
            r == self.ordered(other),
    {
        if self.is_nan() || other.is_nan() {
            return None;
        }
        let ma: u64 = self.bits & MAGNITUDE_64;
        let mb: u64 = other.bits & MAGNITUDE_64;
        let na: bool = (self.bits & SIGN_64) != 0;
        let nb: bool = (other.bits & SIGN_64) != 0;
        let o = if na {
            if nb {
                if ma > mb { Order::Less } else if ma == mb { Order::Equal } else { Order::Greater }
            } else if ma == 0 && mb == 0 {
                Order::Equal
            } else {
                Order::Less
            }
        } else if nb {
            if ma == 0 && mb == 0 { Order::Equal } else { Order::Greater }
        } else if ma < mb {
            Order::Less
        } else if ma == mb {
            Order::Equal
        } else {
            Order::Greater
        };
        Some(o)
    }

    /// Whether the two numbers are equal.
    pub fn native_eq(&self, other: &Float64) -> (r: bool)
        ensures
            r == self.same(other),
    {
        match self.compare(other) {
            Some(Order::Equal) => true,
            _ => false,
        }
    }
}

impl Float32 {
    /// The number with these bits.
    pub fn from_bits(bits: u32) -> (x: Float32)
        ensures
            x.bits == bits,
    {
        Float32 { bits }
    }

    /// The bits of the number.
    pub fn to_bits(&self) -> (bits: u32)
        ensures
            bits == self.bits,
    {
        self.bits
    }

    /// The encoding without its sign.
    pub open spec fn magnitude(&self) -> u32 {
        self.bits & MAGNITUDE_32
    }

    /// Whether the sign bit is set.
    pub open spec fn negative(&self) -> bool {
        self.bits & SIGN_32 != 0
    }

    /// Not a number: the magnitude lies above that of infinity.
    pub open spec fn nan(&self) -> bool {
        self.magnitude() > INFINITY_32
    }

    /// Whether this is not a number.
    pub fn is_nan(&self) -> (r: bool)
        ensures
            r == self.nan(),
    {
        (self.bits & MAGNITUDE_32) > INFINITY_32
    }

    /// The order of the two numbers; none where one is a NaN.
    pub open spec fn ordered(&self, other: &Float32) -> Option<Order> {
        if self.nan() || other.nan() {
            None
        } else {
            Some(order_of(self.negative(), self.magnitude() as int, other.negative(), other.magnitude() as int))
        }
    }

    /// Equality of the numbers.
    pub open spec fn same(&self, other: &Float32) -> bool {
        self.ordered(other) == Some(Order::Equal)
    }

    /// The order of the two numbers; none where one is a NaN.
    pub fn compare(&self, other: &Float32) -> (r: Option<Order>)
        ensures
            r == self.ordered(other),
    {
        if self.is_nan() || other.is_nan() {
            return None;
        }
        let ma: u32 = self.bits & MAGNITUDE_32;
        let mb: u32 = other.bits & MAGNITUDE_32;
        let na: bool = (self.bits & SIGN_32) != 0;
        let nb: bool = (other.bits & SIGN_32) != 0;
        let o = if na {
            if nb {
                if ma > mb { Order::Less } else if ma == mb { Order::Equal } else { Order::Greater }
            } else if ma == 0 && mb == 0 {
                Order::Equal
            } else {
                Order::Less
            }
        } else if nb {
            if ma == 0 && mb == 0 { Order::Equal } else { Order::Greater }
        } else if ma < mb {
            Order::Less
        } else if ma == mb {
            Order::Equal
        } else {
            Order::Greater
        };
        Some(o)
    }

    /// Whether the two numbers are equal.
    pub fn native_eq(&self, other: &Float32) -> (r: bool)
        ensures
            r == self.same(other),
    {
        match self.compare(other) {
            Some(Order::Equal) => true,
            _ => false,
        }
    }
}

} // verus!
