//! The activation policy of a network.

use vstd::prelude::*;
use crate::scalar::{Scalar, is_magnitude, is_one, is_quotient, is_sum};

verus! {

/// The transform that turns a neuron's weighted sum into its output: the
/// built-in `x / (1 + |x|)`, or a function that the caller supplies.
pub enum SigmoidFunction<F> {
    XOver1PlusAbsOfX,
    Custom(F),
}

/// `d` is a value of `1 + |x|`, the one taken first and the magnitude second.
pub open spec fn is_denominator<S: Scalar>(x: S, d: S) -> bool {
    exists|one: S, m: S| #[trigger] is_one(one) && #[trigger] is_magnitude(x, m) && is_sum(one, m, d)
}

/// `y` is a value of `x / (1 + |x|)`.
pub open spec fn is_builtin_activation<S: Scalar>(x: S, y: S) -> bool {
    exists|d: S| #[trigger] is_denominator(x, d) && is_quotient(x, d, y)
}

impl<F> SigmoidFunction<F> {
    /// The policy can be applied to `x`: a custom function takes that
    /// argument. The built-in transform takes every scalar.
    pub open spec fn takes<S>(self, x: S) -> bool where F: Fn(S) -> S {
        match self {
            SigmoidFunction::XOver1PlusAbsOfX => true,
            SigmoidFunction::Custom(f) => call_requires(f, (x,)),
        }
    }

    /// The policy can be applied to every scalar.
    pub open spec fn total<S>(self) -> bool where F: Fn(S) -> S {
        forall|x: S| #[trigger] self.takes(x)
    }

    /// `y` is a value that the policy can give for `x`. For a custom function
    /// it is a value that one call of the function on `x` can return, with
    /// nothing done to it afterwards.
    pub open spec fn activates<S: Scalar>(self, x: S, y: S) -> bool where F: Fn(S) -> S {
        match self {
            SigmoidFunction::XOver1PlusAbsOfX => is_builtin_activation(x, y),
            SigmoidFunction::Custom(f) => call_ensures(f, (x,), y),
        }
    }

    /// Applies the policy to `x`.
    pub fn calculate<S: Scalar>(&self, x: S) -> (y: S) where F: Fn(S) -> S
        requires
            self.takes(x),
        ensures
            self.activates(x, y),
    {
        match self {
            SigmoidFunction::XOver1PlusAbsOfX => {
                let one = S::one();
                let m = x.magnitude();
                let d = one.plus(m);
                assert(is_denominator(x, d)) by {
                    assert(is_one(one) && is_magnitude(x, m) && is_sum(one, m, d));
                }
                x.over(d)
            },
            SigmoidFunction::Custom(f) => f(x),
        }
    }
}

} // verus!
