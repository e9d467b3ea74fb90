//! A layer: neurons that all read the same input.

use vstd::prelude::*;
use vstd::std_specs::convert::FromSpecImpl;
use crate::activation::SigmoidFunction;
use crate::neuron::{Neuron, NeuronModel, neuron_yields};
use crate::scalar::Scalar;

verus! {

/// An ordered sequence of neurons. The output of the neuron at position `i`
/// is the layer's output at position `i`.
pub struct Layer<S> {
    neurons: Vec<Neuron<S>>,
}

impl<S> View for Layer<S> {
    type V = Seq<NeuronModel<S>>;

    closed spec fn view(&self) -> Seq<NeuronModel<S>> {
        neuron_models(self.neurons@)
    }
}

/// The models of a sequence of neurons, in the same order.
pub open spec fn neuron_models<S>(neurons: Seq<Neuron<S>>) -> Seq<NeuronModel<S>> {
    Seq::new(neurons.len(), |i: int| neurons[i]@)
}

/// The neurons that a sequence of `(weights, bias)` pairs describes, in the
/// same order.
pub open spec fn pair_models<S>(pairs: Seq<(Vec<S>, S)>) -> Seq<NeuronModel<S>> {
    Seq::new(pairs.len(), |i: int| NeuronModel { weights: pairs[i].0@, bias: pairs[i].1 })
}

/// Every neuron of the layer takes `n` inputs.
pub open spec fn layer_accepts<S>(layer: Seq<NeuronModel<S>>, n: nat) -> bool {
    forall|i: int| 0 <= i < layer.len() ==> (#[trigger] layer[i]).weights.len() == n
}

/// `out` is an output vector that the layer can give for `input`: one value
/// for each neuron, at the neuron's position.
pub open spec fn layer_yields<S: Scalar, F: Fn(S) -> S>(
    layer: Seq<NeuronModel<S>>,
    sigmoid_fn: SigmoidFunction<F>,
    input: Seq<S>,
    out: Seq<S>,
) -> bool {
    &&& out.len() == layer.len()
    &&& forall|i: int|
        0 <= i < layer.len() ==> neuron_yields(layer[i], sigmoid_fn, input, #[trigger] out[i])
}

impl<S: Scalar> Layer<S> {
    /// A layer of the given neurons.
    pub fn new(neurons: Vec<Neuron<S>>) -> (layer: Self)
        ensures
            layer@ == neuron_models(neurons@),
    {
        Self { neurons }
    }

    /// The number of neurons, which is the length of the layer's output.
    pub fn width(&self) -> (n: usize)
        ensures
            n == self@.len(),
    {
        self.neurons.len()
    }

    /// Whether every neuron of the layer takes `n` inputs.
    pub fn accepts(&self, n: usize) -> (ok: bool)
        ensures
            ok == layer_accepts(self@, n as nat),
    {
        let mut i: usize = 0;
        while i < self.neurons.len()
            invariant
                i <= self.neurons.len(),
                forall|j: int| 0 <= j < i ==> (#[trigger] self@[j]).weights.len() == n,
            decreases self.neurons.len() - i,
        {
            if self.neurons[i].fan_in() != n {
                assert(self@[i as int].weights.len() != n);
                return false;
            }
            i += 1;
        }
        true
    }

    /// The layer's output for `input`: each neuron's output, in the order of
    /// the neurons.
    pub fn calc<F: Fn(S) -> S>(&self, input: &[S], sigmoid_fn: &SigmoidFunction<F>) -> (out: Vec<S>)
        requires
            layer_accepts(self@, input@.len()),
            sigmoid_fn.total::<S>(),
        ensures
            layer_yields(self@, *sigmoid_fn, input@, out@),
    {
        let mut out: Vec<S> = Vec::new();
        let mut i: usize = 0;
        while i < self.neurons.len()
            invariant
                i <= self.neurons.len(),
                out@.len() == i,
                layer_accepts(self@, input@.len()),
                sigmoid_fn.total::<S>(),
                forall|j: int|
                    0 <= j < i ==> neuron_yields(self@[j], *sigmoid_fn, input@, #[trigger] out@[j]),
            decreases self.neurons.len() - i,
        {
            assert(self@[i as int].weights.len() == input@.len());
            let value = self.neurons[i].calc(input, sigmoid_fn);
            out.push(value);
            i += 1;
        }
        out
    }
}

impl<S: Scalar> From<Vec<Neuron<S>>> for Layer<S> {
    /// The layer of the given neurons.
    fn from(neurons: Vec<Neuron<S>>) -> (layer: Self)
        ensures
            layer@ == neuron_models(neurons@),
    {
        Layer::new(neurons)
    }
}

/// What the conversion gives is stated by the contract of `from`, over the
/// layer's view, and not by `from_spec`.
impl<S: Scalar> FromSpecImpl<Vec<Neuron<S>>> for Layer<S> {
    open spec fn obeys_from_spec() -> bool {
        false
    }

    open spec fn from_spec(neurons: Vec<Neuron<S>>) -> Self {
        arbitrary()
    }
}

impl<S: Scalar> From<Vec<(Vec<S>, S)>> for Layer<S> {
    /// The layer whose neurons have the given weights and biases.
    fn from(pairs: Vec<(Vec<S>, S)>) -> (layer: Self)
        ensures
            layer@ == pair_models(pairs@),
    {
        let mut neurons: Vec<Neuron<S>> = Vec::new();
        for pair in it: pairs
            invariant
                neurons@.len() == it.index(),
                forall|j: int|
                    0 <= j < it.index() ==> (#[trigger] neurons@[j])@ == (NeuronModel {
                        weights: it.seq()[j].0@,
                        bias: it.seq()[j].1,
                    }),
        {
            neurons.push(Neuron::new(pair.0, pair.1));
        }
        Layer::new(neurons)
    }
}

/// What the conversion gives is stated by the contract of `from`, over the
/// layer's view, and not by `from_spec`.
impl<S: Scalar> FromSpecImpl<Vec<(Vec<S>, S)>> for Layer<S> {
    open spec fn obeys_from_spec() -> bool {
        false
    }

    open spec fn from_spec(pairs: Vec<(Vec<S>, S)>) -> Self {
        arbitrary()
    }
}

} // verus!
