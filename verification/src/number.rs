//! Double-precision numbers, held by their bit pattern.

use vstd::prelude::*;
use vstd::std_specs::cmp::PartialEqSpec;

verus! {

/// The bits of an IEEE 754 double that hold its sign.
const SIGN_WEIGHT: u64 = 0x8000_0000_0000_0000;

/// The magnitude bits of positive infinity; every larger magnitude is a NaN.
const INFINITE_MAGNITUDE: u64 = 0x7ff0_0000_0000_0000;

/// An IEEE 754 double (a volume or a rating), held by its bit pattern.
///
/// The bits are those of the platform's double-precision type, so a value passes through
/// unchanged; `==` is the IEEE comparison, under which a NaN differs from everything, itself
/// included, and the two zeros are equal.
#[derive(Debug, Clone, Copy)]
pub struct Real64 {
    /// The bit pattern: sign, eleven exponent bits, fifty-two fraction bits.
    pub bits: u64,
}

impl Real64 {
    /// The bit pattern without the sign bit, as a number.
    pub open spec fn magnitude(self) -> int {
        self.bits as int % 0x8000_0000_0000_0000
    }

    /// Whether the pattern is a NaN: all exponent bits set and a fraction that is not zero.
    pub open spec fn is_nan_spec(self) -> bool {
        self.magnitude() > 0x7ff0_0000_0000_0000
    }

    /// The IEEE comparison for equality.
    pub open spec fn same_value(self, other: Real64) -> bool {
        &&& !self.is_nan_spec()
        &&& !other.is_nan_spec()
        &&& self.bits == other.bits || (self.magnitude() == 0 && other.magnitude() == 0)
    }

    /// Wraps a bit pattern.
    pub fn from_bits(bits: u64) -> (r: Real64)
        ensures
            r.bits == bits,
    {
        Real64 { bits }
    }

    /// Whether the number is a NaN.
    pub fn is_nan(&self) -> (r: bool)
        ensures
            r == self.is_nan_spec(),
    {
        self.bits % SIGN_WEIGHT > INFINITE_MAGNITUDE
    }

    fn is_zero(&self) -> (r: bool)
        ensures
            r == (self.magnitude() == 0),
    {
        self.bits % SIGN_WEIGHT == 0
    }
}

impl PartialEq for Real64 {
    fn eq(&self, other: &Real64) -> (r: bool) {
        !self.is_nan() && !other.is_nan() && (self.bits == other.bits || (self.is_zero()
            && other.is_zero()))
    }
}

impl vstd::std_specs::cmp::PartialEqSpecImpl for Real64 {
    open spec fn obeys_eq_spec() -> bool {
        true
    }

    open spec fn eq_spec(&self, other: &Real64) -> bool {
        self.same_value(*other)
    }
}

/// Equality of numbers is symmetric.
pub proof fn equality_is_symmetric(a: Real64, b: Real64)
    ensures
        a.same_value(b) == b.same_value(a),
{
}

/// A number equals itself exactly when it is not a NaN.
pub proof fn equality_is_reflexive_off_nan(a: Real64)
    ensures
        a.same_value(a) == !a.is_nan_spec(),
{
}

/// Two numbers are equal exactly when neither is a NaN and their bits are the same, or both are a
/// zero of either sign.
pub proof fn equality_in_bits(a: Real64, b: Real64)
    ensures
        a.same_value(b) <==> a.bits as int % 0x8000_0000_0000_0000 <= 0x7ff0_0000_0000_0000
            && b.bits as int % 0x8000_0000_0000_0000 <= 0x7ff0_0000_0000_0000 && (a.bits == b.bits
            || (a.bits as int % 0x8000_0000_0000_0000 == 0 && b.bits as int % 0x8000_0000_0000_0000
            == 0)),
        a.is_nan_spec() <==> a.bits as int % 0x8000_0000_0000_0000 > 0x7ff0_0000_0000_0000,
{
}

/// Equality of numbers is transitive.
pub proof fn equality_is_transitive(a: Real64, b: Real64, c: Real64)
    requires
        a.same_value(b),
        b.same_value(c),
    ensures
        a.same_value(c),
{
}

/// `==` holds exactly when neither number is a NaN and their bits are the same, or both are a zero
/// of either sign.
pub proof fn operator_compares_by_value(a: Real64, b: Real64)
    ensures
        a.eq_spec(&b) <==> a.bits % 0x8000_0000_0000_0000 <= 0x7ff0_0000_0000_0000 && b.bits
            % 0x8000_0000_0000_0000 <= 0x7ff0_0000_0000_0000 && (a.bits == b.bits || (a.bits
            % 0x8000_0000_0000_0000 == 0 && b.bits % 0x8000_0000_0000_0000 == 0)),
{
}

} // verus!
