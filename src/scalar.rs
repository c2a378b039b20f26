//! The numbers a linear unit computes with.
use vstd::prelude::*;

verus! {

/// A number type a linear unit can be built over.
///
/// Each operation is tied to a spec function, so contracts of the unit can
/// state its results in terms of the very operations that produced them,
/// whatever rounding or wrapping the type performs.
pub trait Scalar: Sized + Copy {
    /// The additive neutral element used to start a sum.
    spec fn zero_spec() -> Self;

    spec fn add_spec(self, other: Self) -> Self;

    spec fn sub_spec(self, other: Self) -> Self;

    spec fn mul_spec(self, other: Self) -> Self;

    /// The error scaled by the learning rate.
    spec fn correction_spec(self) -> Self;

    spec fn is_zero_spec(self) -> bool;

    fn zero() -> (r: Self)
        ensures
            r == Self::zero_spec(),
    ;

    fn add(&self, other: &Self) -> (r: Self)
        ensures
            r == self.add_spec(*other),
    ;

    fn sub(&self, other: &Self) -> (r: Self)
        ensures
            r == self.sub_spec(*other),
    ;

    fn mul(&self, other: &Self) -> (r: Self)
        ensures
            r == self.mul_spec(*other),
    ;

    fn correction(&self) -> (r: Self)
        ensures
            r == self.correction_spec(),
    ;

    fn is_zero(&self) -> (r: bool)
        ensures
            r == self.is_zero_spec(),
    ;

    /// A fresh starting value for a parameter; nothing is promised of it.
    fn draw() -> Self;
}

/// The divisor that turns an integer error into its correction.
pub const INTEGER_RATE_DIVISOR: i64 = 100;

/// Integers with two's-complement wrapping; the learning rate is one
/// hundredth, applied by division that rounds toward zero.
impl Scalar for i64 {
    open spec fn zero_spec() -> i64 {
        0
    }

    open spec fn add_spec(self, other: i64) -> i64 {
        self.wrapping_add(other)
    }

    open spec fn sub_spec(self, other: i64) -> i64 {
        self.wrapping_sub(other)
    }

    open spec fn mul_spec(self, other: i64) -> i64 {
        self.wrapping_mul(other)
    }

    open spec fn correction_spec(self) -> i64 {
        if self >= 0 {
            (self / 100) as i64
        } else {
            (-((-self) / 100)) as i64
        }
    }

    open spec fn is_zero_spec(self) -> bool {
        self == 0
    }

    fn zero() -> (r: i64) {
        0
    }

    fn add(&self, other: &i64) -> (r: i64) {
        self.wrapping_add(*other)
    }

    fn sub(&self, other: &i64) -> (r: i64) {
        self.wrapping_sub(*other)
    }

    fn mul(&self, other: &i64) -> (r: i64) {
        self.wrapping_mul(*other)
    }

    fn correction(&self) -> (r: i64) {
        if *self >= 0 {
            *self / INTEGER_RATE_DIVISOR
        } else {
            let m: i128 = -(*self as i128);
            -((m / (INTEGER_RATE_DIVISOR as i128)) as i64)
        }
    }

    fn is_zero(&self) -> (r: bool) {
        *self == 0
    }

    fn draw() -> i64 {
        random_i64()
    }
}

/// Relies on `rand::random::<i64>`: a uniformly drawn integer; nothing is
/// promised of its value.
#[verifier::external_body]
fn random_i64() -> i64 {
    rand::random::<i64>()
}

} // verus!
