//! Topology descriptions: an array of layers, each an array of neurons, each
//! an object with a `"weights"` array of numbers and a `"bias"` number.

use vstd::prelude::*;
use crate::document::{Tree, field, field_of, is_array, json_tree, members, members_of, number};
use crate::layer::Layer;
use crate::network::layer_models;
use crate::neuron::{Neuron, NeuronModel};
use crate::scalar::{Scalar, is_reading};

verus! {

/// The document describes a neuron: its `"weights"` are an array of numbers
/// and its `"bias"` is a number.
pub open spec fn is_neuron(tree: Tree) -> bool {
    let weights = field_of(tree, "weights"@);
    &&& weights is Array
    &&& forall|i: int|
        0 <= i < members_of(weights).len() ==> #[trigger] members_of(weights)[i] is Number
    &&& field_of(tree, "bias"@) is Number
}

/// The document describes a layer: an array of neuron descriptions.
pub open spec fn is_layer(tree: Tree) -> bool {
    &&& tree is Array
    &&& forall|i: int| 0 <= i < members_of(tree).len() ==> is_neuron(#[trigger] members_of(tree)[i])
}

/// The document describes a topology: an array of layer descriptions.
pub open spec fn is_topology(tree: Tree) -> bool {
    &&& tree is Array
    &&& forall|i: int| 0 <= i < members_of(tree).len() ==> is_layer(#[trigger] members_of(tree)[i])
}

/// `neuron` is a neuron that the description can be read as: one weight for
/// each member of `"weights"`, in their order, and the bias, each a reading
/// of its numeral.
pub open spec fn neuron_reads<S: Scalar>(tree: Tree, neuron: NeuronModel<S>) -> bool {
    let weights = members_of(field_of(tree, "weights"@));
    &&& neuron.weights.len() == weights.len()
    &&& forall|i: int|
        0 <= i < weights.len() ==> is_reading(weights[i]->Number_0, #[trigger] neuron.weights[i])
    &&& is_reading(field_of(tree, "bias"@)->Number_0, neuron.bias)
}

/// `layer` is a layer that the description can be read as: one neuron for
/// each member, in their order.
pub open spec fn layer_reads<S: Scalar>(tree: Tree, layer: Seq<NeuronModel<S>>) -> bool {
    &&& layer.len() == members_of(tree).len()
    &&& forall|i: int|
        0 <= i < layer.len() ==> neuron_reads(members_of(tree)[i], #[trigger] layer[i])
}

/// `layers` are layers that the description can be read as: one layer for
/// each member, in their order.
pub open spec fn topology_reads<S: Scalar>(tree: Tree, layers: Seq<Seq<NeuronModel<S>>>) -> bool {
    &&& layers.len() == members_of(tree).len()
    &&& forall|i: int|
        0 <= i < layers.len() ==> layer_reads(members_of(tree)[i], #[trigger] layers[i])
}

/// Reads one neuron description.
pub(crate) fn read_neuron<S: Scalar>(json: &json::JsonValue) -> (read: Result<Neuron<S>, ()>)
    ensures
        read is Ok <==> is_neuron(json_tree(*json)),
        read matches Ok(neuron) ==> neuron_reads(json_tree(*json), neuron@),
{
    let json_weights = field(json, "weights");
    if !is_array(json_weights) {
        return Err(());
    }
    let items = members(json_weights);
    let ghost described = members_of(json_tree(*json_weights));
    let mut weights: Vec<S> = Vec::new();
    let mut i: usize = 0;
    while i < items.len()
        invariant
            i <= items.len(),
            described == members_of(field_of(json_tree(*json), "weights"@)),
            items@.len() == described.len(),
            forall|j: int| 0 <= j < items@.len() ==> json_tree(*#[trigger] items@[j]) == described[j],
            weights@.len() == i,
            forall|j: int| 0 <= j < i ==> #[trigger] described[j] is Number,
            forall|j: int|
                0 <= j < i ==> is_reading(described[j]->Number_0, #[trigger] weights@[j]),
        decreases items.len() - i,
    {
        match number(items[i]) {
            Some(numeral) => {
                weights.push(S::from_numeral(numeral));
            },
            None => {
                assert(!(described[i as int] is Number));
                return Err(());
            },
        }
        i += 1;
    }
    let bias = match number(field(json, "bias")) {
        Some(numeral) => S::from_numeral(numeral),
        None => {
            return Err(());
        },
    };
    Ok(Neuron::new(weights, bias))
}

/// Reads one layer description.
pub(crate) fn read_layer<S: Scalar>(json: &json::JsonValue) -> (read: Result<Layer<S>, ()>)
    ensures
        read is Ok <==> is_layer(json_tree(*json)),
        read matches Ok(layer) ==> layer_reads(json_tree(*json), layer@),
{
    if !is_array(json) {
        return Err(());
    }
    let items = members(json);
    let ghost described = members_of(json_tree(*json));
    let mut neurons: Vec<Neuron<S>> = Vec::new();
    let mut i: usize = 0;
    while i < items.len()
        invariant
            i <= items.len(),
            described == members_of(json_tree(*json)),
            items@.len() == described.len(),
            forall|j: int| 0 <= j < items@.len() ==> json_tree(*#[trigger] items@[j]) == described[j],
            neurons@.len() == i,
            forall|j: int| 0 <= j < i ==> is_neuron(#[trigger] described[j]),
            forall|j: int| 0 <= j < i ==> neuron_reads(described[j], (#[trigger] neurons@[j])@),
        decreases items.len() - i,
    {
        match read_neuron(items[i]) {
            Ok(neuron) => {
                neurons.push(neuron);
            },
            Err(_) => {
                assert(!is_neuron(described[i as int]));
                return Err(());
            },
        }
        i += 1;
    }
    Ok(Layer::new(neurons))
}

/// Reads a topology description.
pub(crate) fn read_topology<S: Scalar>(json: &json::JsonValue) -> (read: Result<Vec<Layer<S>>, ()>)
    ensures
        read is Ok <==> is_topology(json_tree(*json)),
        read matches Ok(layers) ==> topology_reads(json_tree(*json), layer_models(layers@)),
{
    if !is_array(json) {
        return Err(());
    }
    let items = members(json);
    let ghost described = members_of(json_tree(*json));
    let mut layers: Vec<Layer<S>> = Vec::new();
    let mut i: usize = 0;
    while i < items.len()
        invariant
            i <= items.len(),
            described == members_of(json_tree(*json)),
            items@.len() == described.len(),
            forall|j: int| 0 <= j < items@.len() ==> json_tree(*#[trigger] items@[j]) == described[j],
            layers@.len() == i,
            forall|j: int| 0 <= j < i ==> is_layer(#[trigger] described[j]),
            forall|j: int| 0 <= j < i ==> layer_reads(described[j], (#[trigger] layers@[j])@),
        decreases items.len() - i,
    {
        match read_layer(items[i]) {
            Ok(layer) => {
                layers.push(layer);
            },
            Err(_) => {
                assert(!is_layer(described[i as int]));
                return Err(());
            },
        }
        i += 1;
    }
    Ok(layers)
}

} // verus!
