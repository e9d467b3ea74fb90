//! The builder of a network.

use vstd::prelude::*;
use vstd::string::*;
use crate::activation::SigmoidFunction;
use crate::document::{digit_runs_fit, json_text, json_tree, parse_text};
use crate::layer::Layer;
use crate::network::{Network, NetworkModel, layer_models};
use crate::neuron::NeuronModel;
use crate::scalar::Scalar;
use crate::topology::{is_topology, read_topology, topology_reads};

verus! {

/// Collects layers and an activation policy, and is consumed by `build`.
pub struct NetworkBuilder<S, F> {
    layers: Vec<Layer<S>>,
    sigmoid_fn: SigmoidFunction<F>,
}

impl<S, F> View for NetworkBuilder<S, F> {
    type V = NetworkModel<S, F>;

    closed spec fn view(&self) -> NetworkModel<S, F> {
        NetworkModel { layers: layer_models(self.layers@), sigmoid_fn: self.sigmoid_fn }
    }
}

impl<S: Scalar, F: Fn(S) -> S> NetworkBuilder<S, F> {
    /// A builder with no layers and the built-in activation policy.
    pub(crate) fn empty() -> (builder: Self)
        ensures
            builder@.layers == Seq::<Seq<NeuronModel<S>>>::empty(),
            builder@.sigmoid_fn == SigmoidFunction::<F>::XOver1PlusAbsOfX,
    {
        Self { layers: Vec::new(), sigmoid_fn: SigmoidFunction::XOver1PlusAbsOfX }
    }

    /// Appends one layer: a `Layer`, or a value that converts into one.
    pub fn layer<L: Into<Layer<S>>>(self, layer: L) -> (builder: Self)
        ensures
            builder@.sigmoid_fn == self@.sigmoid_fn,
            builder@.layers.len() == self@.layers.len() + 1,
            builder@.layers.drop_last() == self@.layers,
            exists|added: Layer<S>| #[trigger]
                call_ensures(L::into, (layer,), added) && builder@.layers.last() == added@,
    {
        let mut builder = self;
        let added: Layer<S> = layer.into();
        builder.layers.push(added);
        builder
    }

    /// Appends the given layers, in their order.
    pub fn layers(self, layers: Vec<Layer<S>>) -> (builder: Self)
        ensures
            builder@.sigmoid_fn == self@.sigmoid_fn,
            builder@.layers == self@.layers + layer_models(layers@),
    {
        let mut builder = self;
        let mut layers = layers;
        builder.layers.append(&mut layers);
        builder
    }

    /// Replaces the activation policy.
    pub fn with_sigmoid_fn(self, sigmoid_fn: SigmoidFunction<F>) -> (builder: Self)
        ensures
            builder@.sigmoid_fn == sigmoid_fn,
            builder@.layers == self@.layers,
    {
        let mut builder = self;
        builder.sigmoid_fn = sigmoid_fn;
        builder
    }

    /// Reads `source` as a JSON text and then as a topology description, as
    /// `parse_json` does. A text that is no JSON document is refused like a
    /// document that is no topology description.
    ///
    /// The JSON reader cannot take a text with a run of more than
    /// `MAX_DIGIT_RUN` decimal digits; `digit_runs_fit_in` tells whether a
    /// text has one.
    pub fn parse_json_source(self, source: &str) -> (parsed: Result<Self, ()>)
        requires
            digit_runs_fit(source.spec_bytes()),
        ensures
            parsed is Ok <==> (json_text(source@) matches Some(tree) && is_topology(tree)),
            parsed matches Ok(builder) ==> builder@.sigmoid_fn == self@.sigmoid_fn,
            parsed matches Ok(builder) ==> topology_reads(
                json_text(source@)->Some_0,
                builder@.layers,
            ),
    {
        match parse_text(source) {
            Ok(json) => self.parse_json(json),
            Err(_) => Err(()),
        }
    }

    /// Replaces the layers by those that the document describes. The layers
    /// collected before are dropped; the activation policy stays. A document
    /// that is no topology description is refused, and nothing of it is kept.
    pub fn parse_json(self, json: json::JsonValue) -> (parsed: Result<Self, ()>)
        ensures
            parsed is Ok <==> is_topology(json_tree(json)),
            parsed matches Ok(builder) ==> builder@.sigmoid_fn == self@.sigmoid_fn,
            parsed matches Ok(builder) ==> topology_reads(json_tree(json), builder@.layers),
    {
        match read_topology(&json) {
            Ok(layers) => {
                let mut builder = self;
                builder.layers = layers;
                Ok(builder)
            },
            Err(_) => Err(()),
        }
    }

    /// The network of the layers and the policy collected so far.
    pub fn build(self) -> (network: Network<S, F>)
        ensures
            network@ == self@,
    {
        Network::new(self.layers, self.sigmoid_fn)
    }
}

} // verus!
