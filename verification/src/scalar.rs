//! The numeric type of a network and the relations by which contracts speak of
//! its arithmetic.

use vstd::prelude::*;

verus! {

/// A number as a JSON text writes it: a sign, an integer mantissa and a power
/// of ten, for the value `mantissa * 10^exponent` with that sign. With `nan`
/// set the numeral stands for no number, and the other three fields carry no
/// meaning.
#[derive(Clone, Copy, Debug, PartialEq, Eq, Structural)]
pub struct Numeral {
    pub nan: bool,
    pub positive: bool,
    pub mantissa: u64,
    pub exponent: i16,
}

/// The numeric type of inputs, weights, biases and outputs.
///
/// The engine never looks inside a scalar. Each arithmetic step of an
/// evaluation is one call of a method of this trait, and the contracts of the
/// engine say which calls were made, on which operands and in which order.
/// An implementation decides what the numbers are: the methods promise
/// nothing here, so nothing is assumed of them. For a network of
/// single-precision floating-point numbers, implement the trait for a type
/// that wraps one, each method by the machine's operation of that name.
pub trait Scalar: Copy {
    /// The value of a sum that has no terms, from which every sum starts.
    fn zero() -> Self;

    /// The number one.
    fn one() -> Self;

    /// `self + other`.
    fn plus(self, other: Self) -> Self;

    /// `self * other`.
    fn times(self, other: Self) -> Self;

    /// `self / other`.
    fn over(self, other: Self) -> Self;

    /// `|self|`.
    fn magnitude(self) -> Self;

    /// The scalar that a numeral of a topology description stands for,
    /// narrowed to what the type can hold.
    fn from_numeral(numeral: Numeral) -> Self;
}

/// `r` is a value that `S::zero()` can return.
pub open spec fn is_zero<S: Scalar>(r: S) -> bool {
    call_ensures(S::zero, (), r)
}

/// `r` is a value that `S::one()` can return.
pub open spec fn is_one<S: Scalar>(r: S) -> bool {
    call_ensures(S::one, (), r)
}

/// `r` is a value that `a.plus(b)` can return.
pub open spec fn is_sum<S: Scalar>(a: S, b: S, r: S) -> bool {
    call_ensures(S::plus, (a, b), r)
}

/// `r` is a value that `a.times(b)` can return.
pub open spec fn is_product<S: Scalar>(a: S, b: S, r: S) -> bool {
    call_ensures(S::times, (a, b), r)
}

/// `r` is a value that `a.over(b)` can return.
pub open spec fn is_quotient<S: Scalar>(a: S, b: S, r: S) -> bool {
    call_ensures(S::over, (a, b), r)
}

/// `r` is a value that `a.magnitude()` can return.
pub open spec fn is_magnitude<S: Scalar>(a: S, r: S) -> bool {
    call_ensures(S::magnitude, (a,), r)
}

/// `r` is a value that `S::from_numeral(numeral)` can return.
pub open spec fn is_reading<S: Scalar>(numeral: Numeral, r: S) -> bool {
    call_ensures(S::from_numeral, (numeral,), r)
}

} // verus!
