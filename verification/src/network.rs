//! A network: layers evaluated one after another.

use vstd::prelude::*;
use vstd::slice::slice_to_vec;
use crate::activation::SigmoidFunction;
use crate::builder::NetworkBuilder;
use crate::layer::{Layer, layer_accepts, layer_yields};
use crate::neuron::NeuronModel;
use crate::scalar::Scalar;

verus! {

/// An immutable network: layers in the order of evaluation, and the
/// activation policy that every neuron uses.
pub struct Network<S, F> {
    layers: Vec<Layer<S>>,
    sigmoid_fn: SigmoidFunction<F>,
}

/// What a network holds, as a mathematical value.
pub struct NetworkModel<S, F> {
    pub layers: Seq<Seq<NeuronModel<S>>>,
    pub sigmoid_fn: SigmoidFunction<F>,
}

impl<S, F> View for Network<S, F> {
    type V = NetworkModel<S, F>;

    closed spec fn view(&self) -> NetworkModel<S, F> {
        NetworkModel { layers: layer_models(self.layers@), sigmoid_fn: self.sigmoid_fn }
    }
}

/// The models of a sequence of layers, in the same order.
pub open spec fn layer_models<S>(layers: Seq<Layer<S>>) -> Seq<Seq<NeuronModel<S>>> {
    Seq::new(layers.len(), |i: int| layers[i]@)
}

/// The layers from position `k` on fit one another and an input of length
/// `n`: every neuron of layer `k` takes `n` inputs, and every neuron of a
/// later layer takes as many inputs as the layer before it has neurons.
pub open spec fn accepts_from<S>(layers: Seq<Seq<NeuronModel<S>>>, k: int, n: nat) -> bool
    decreases layers.len() - k,
{
    if 0 <= k < layers.len() {
        layer_accepts(layers[k], n) && accepts_from(layers, k + 1, layers[k].len())
    } else {
        true
    }
}

/// The layers can be evaluated on an input of length `n`.
pub open spec fn network_accepts<S>(layers: Seq<Seq<NeuronModel<S>>>, n: nat) -> bool {
    accepts_from(layers, 0, n)
}

/// `out` is a vector that the first `k` layers can give for `input`, each
/// layer reading what the layer before it gave. With no layer it is `input`.
pub open spec fn yields_upto<S: Scalar, F: Fn(S) -> S>(
    layers: Seq<Seq<NeuronModel<S>>>,
    sigmoid_fn: SigmoidFunction<F>,
    k: nat,
    input: Seq<S>,
    out: Seq<S>,
) -> bool
    decreases k,
{
    if k == 0 {
        out == input
    } else {
        exists|mid: Seq<S>|
            yields_upto(layers, sigmoid_fn, (k - 1) as nat, input, mid) && #[trigger] layer_yields(
                layers[k - 1],
                sigmoid_fn,
                mid,
                out,
            )
    }
}

/// `out` is an output vector that the network can give for `input`.
pub open spec fn network_yields<S: Scalar, F: Fn(S) -> S>(
    network: NetworkModel<S, F>,
    input: Seq<S>,
    out: Seq<S>,
) -> bool {
    yields_upto(network.layers, network.sigmoid_fn, network.layers.len(), input, out)
}

/// What `k` layers gave, handed through layer `k`, is what `k + 1` layers
/// give.
pub proof fn lemma_yields_extends<S: Scalar, F: Fn(S) -> S>(
    layers: Seq<Seq<NeuronModel<S>>>,
    sigmoid_fn: SigmoidFunction<F>,
    k: nat,
    input: Seq<S>,
    mid: Seq<S>,
    out: Seq<S>,
)
    requires
        k < layers.len(),
        yields_upto(layers, sigmoid_fn, k, input, mid),
        layer_yields(layers[k as int], sigmoid_fn, mid, out),
    ensures
        yields_upto(layers, sigmoid_fn, k + 1, input, out),
{
    let m = k + 1;
    assert(yields_upto(layers, sigmoid_fn, (m - 1) as nat, input, mid));
    assert(layer_yields(layers[m - 1], sigmoid_fn, mid, out));
}

impl<S: Scalar, F: Fn(S) -> S> Network<S, F> {
    /// A builder with no layers and the built-in activation policy.
    pub fn builder() -> (builder: NetworkBuilder<S, F>)
        ensures
            builder@.layers == Seq::<Seq<NeuronModel<S>>>::empty(),
            builder@.sigmoid_fn == SigmoidFunction::<F>::XOver1PlusAbsOfX,
    {
        NetworkBuilder::empty()
    }

    /// The network of the given layers and activation policy.
    pub fn new(layers: Vec<Layer<S>>, sigmoid_fn: SigmoidFunction<F>) -> (network: Self)
        ensures
            network@.layers == layer_models(layers@),
            network@.sigmoid_fn == sigmoid_fn,
    {
        Self { layers, sigmoid_fn }
    }

    /// Whether the network can be evaluated on an input of `inputs` scalars.
    pub fn accepts(&self, inputs: usize) -> (ok: bool)
        ensures
            ok == network_accepts(self@.layers, inputs as nat),
    {
        let mut n = inputs;
        let mut k: usize = 0;
        while k < self.layers.len()
            invariant
                k <= self.layers.len(),
                network_accepts(self@.layers, inputs as nat) == accepts_from(
                    self@.layers,
                    k as int,
                    n as nat,
                ),
            decreases self.layers.len() - k,
        {
            if !self.layers[k].accepts(n) {
                return false;
            }
            n = self.layers[k].width();
            k += 1;
        }
        true
    }

    /// The network's output for `input`: the input handed through every
    /// layer in order. A network without layers returns the input.
    pub fn calc(&self, input: &[S]) -> (out: Vec<S>)
        requires
            network_accepts(self@.layers, input@.len()),
            self@.sigmoid_fn.total::<S>(),
        ensures
            network_yields(self@, input@, out@),
            self@.layers.len() == 0 ==> out@ == input@,
    {
        let mut llo = slice_to_vec(input);
        let mut k: usize = 0;
        while k < self.layers.len()
            invariant
                k <= self.layers.len(),
                self@.sigmoid_fn.total::<S>(),
                accepts_from(self@.layers, k as int, llo@.len()),
                yields_upto(self@.layers, self@.sigmoid_fn, k as nat, input@, llo@),
            decreases self.layers.len() - k,
        {
            let next = self.layers[k].calc(llo.as_slice(), &self.sigmoid_fn);
            proof {
                lemma_yields_extends(
                    self@.layers,
                    self@.sigmoid_fn,
                    k as nat,
                    input@,
                    llo@,
                    next@,
                );
            }
            llo = next;
            k += 1;
        }
        llo
    }
}

} // verus!
