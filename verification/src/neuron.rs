//! A neuron: a weight for each input, and a bias.

use vstd::prelude::*;
use crate::activation::SigmoidFunction;
use crate::scalar::{Scalar, is_product, is_sum, is_zero};

verus! {

/// One neuron of a layer.
pub struct Neuron<S> {
    weights: Vec<S>,
    bias: S,
}

/// What a neuron holds, as a mathematical value.
pub struct NeuronModel<S> {
    pub weights: Seq<S>,
    pub bias: S,
}

impl<S> View for Neuron<S> {
    type V = NeuronModel<S>;

    closed spec fn view(&self) -> NeuronModel<S> {
        NeuronModel { weights: self.weights@, bias: self.bias }
    }
}

/// `next` is a value of `acc + a * b`.
pub open spec fn is_step<S: Scalar>(acc: S, a: S, b: S, next: S) -> bool {
    exists|term: S| #[trigger] is_product(a, b, term) && is_sum(acc, term, next)
}

/// `acc` is a value of the sum of the products `input[k] * weights[k]` for
/// `k` below `n`, added one after another from the left, starting at zero.
pub open spec fn is_weighted_sum<S: Scalar>(input: Seq<S>, weights: Seq<S>, n: nat, acc: S) -> bool
    decreases n,
{
    if n == 0 {
        is_zero(acc)
    } else {
        exists|prev: S|
            is_weighted_sum(input, weights, (n - 1) as nat, prev) && #[trigger] is_step(
                prev,
                input[n - 1],
                weights[n - 1],
                acc,
            )
    }
}

/// A weighted sum of `n` products, one more step taken, is a weighted sum of
/// `n + 1` products.
pub proof fn lemma_weighted_sum_extends<S: Scalar>(
    input: Seq<S>,
    weights: Seq<S>,
    n: nat,
    acc: S,
    next: S,
)
    requires
        is_weighted_sum(input, weights, n, acc),
        is_step(acc, input[n as int], weights[n as int], next),
    ensures
        is_weighted_sum(input, weights, n + 1, next),
{
    let m = n + 1;
    assert(is_weighted_sum(input, weights, (m - 1) as nat, acc));
    assert(is_step(acc, input[m - 1], weights[m - 1], next));
    assert(m != 0);
    assert(is_weighted_sum(input, weights, m, next) == (exists|prev: S| #[trigger]
            is_weighted_sum(input, weights, (m - 1) as nat, prev) && is_step(
                prev,
                input[m - 1],
                weights[m - 1],
                next,
            )));
    assert(exists|prev: S| #[trigger]
            is_weighted_sum(input, weights, (m - 1) as nat, prev) && is_step(
                prev,
                input[m - 1],
                weights[m - 1],
                next,
            ));
}

/// `raw` is a value of the neuron's weighted sum of `input` with the bias
/// added last: what the neuron hands to the activation policy.
pub open spec fn is_raw_output<S: Scalar>(neuron: NeuronModel<S>, input: Seq<S>, raw: S) -> bool {
    exists|sum: S|
        is_weighted_sum(input, neuron.weights, neuron.weights.len(), sum) && #[trigger] is_sum(
            sum,
            neuron.bias,
            raw,
        )
}

/// `out` is a value that the neuron can give for `input` under `sigmoid_fn`:
/// the policy applied once to the raw output.
pub open spec fn neuron_yields<S: Scalar, F: Fn(S) -> S>(
    neuron: NeuronModel<S>,
    sigmoid_fn: SigmoidFunction<F>,
    input: Seq<S>,
    out: S,
) -> bool {
    exists|raw: S| #[trigger] is_raw_output(neuron, input, raw) && sigmoid_fn.activates(raw, out)
}

impl<S: Scalar> Neuron<S> {
    /// A neuron with the given weights and bias.
    pub fn new(weights: Vec<S>, bias: S) -> (neuron: Self)
        ensures
            neuron@.weights == weights@,
            neuron@.bias == bias,
    {
        Self { weights, bias }
    }

    /// The number of inputs that the neuron takes.
    pub fn fan_in(&self) -> (n: usize)
        ensures
            n == self@.weights.len(),
    {
        self.weights.len()
    }

    /// The neuron's output for `input`: the weighted sum, plus the bias,
    /// through the activation policy.
    pub fn calc<F: Fn(S) -> S>(&self, input: &[S], sigmoid_fn: &SigmoidFunction<F>) -> (out: S)
        requires
            input@.len() == self@.weights.len(),
            sigmoid_fn.total::<S>(),
        ensures
            neuron_yields(self@, *sigmoid_fn, input@, out),
    {
        let mut acc = S::zero();
        let mut k: usize = 0;
        while k < self.weights.len()
            invariant
                k <= self.weights.len(),
                input@.len() == self.weights@.len(),
                is_weighted_sum(input@, self.weights@, k as nat, acc),
            decreases self.weights.len() - k,
        {
            let term = input[k].times(self.weights[k]);
            let next = acc.plus(term);
            proof {
                assert(is_product(input@[k as int], self.weights@[k as int], term));
                lemma_weighted_sum_extends(input@, self.weights@, k as nat, acc, next);
            }
            acc = next;
            k += 1;
        }
        let raw = acc.plus(self.bias);
        assert(is_raw_output(self@, input@, raw)) by {
            assert(is_weighted_sum(input@, self@.weights, self@.weights.len(), acc));
            assert(is_sum(acc, self@.bias, raw));
        }
        assert(sigmoid_fn.takes(raw));
        sigmoid_fn.calculate(raw)
    }
}

} // verus!
