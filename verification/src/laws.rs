//! What holds of every network and of every topology description.

use vstd::prelude::*;
use crate::activation::{SigmoidFunction, is_denominator};
use crate::document::{Tree, field_of, members_of};
use crate::layer::{layer_accepts, layer_yields};
use crate::network::{
    NetworkModel, accepts_from, lemma_yields_extends, network_accepts, network_yields, yields_upto,
};
use crate::neuron::{NeuronModel, is_raw_output, is_step, is_weighted_sum, neuron_yields};
use crate::scalar::{
    Numeral, Scalar, is_magnitude, is_one, is_product, is_quotient, is_reading, is_sum, is_zero,
};
use crate::topology::{is_layer, is_neuron, is_topology, layer_reads, neuron_reads, topology_reads};

verus! {

/// The description of neuron `n` of layer `l` in a topology description.
pub open spec fn neuron_at(tree: Tree, l: int, n: int) -> Tree {
    members_of(members_of(tree)[l])[n]
}

/// A network without layers gives back its input, and nothing else.
pub proof fn law_no_layers_is_identity<S: Scalar, F: Fn(S) -> S>(
    network: NetworkModel<S, F>,
    input: Seq<S>,
    out: Seq<S>,
)
    requires
        network.layers.len() == 0,
    ensures
        network_yields(network, input, out) <==> out == input,
{
}

/// A network of one layer with one neuron gives one value: the activation
/// policy applied to the neuron's weighted sum of the input plus its bias.
pub proof fn law_single_neuron<S: Scalar, F: Fn(S) -> S>(
    network: NetworkModel<S, F>,
    input: Seq<S>,
    out: Seq<S>,
)
    requires
        network.layers.len() == 1,
        network.layers[0].len() == 1,
    ensures
        network_yields(network, input, out) <==> out.len() == 1 && neuron_yields(
            network.layers[0][0],
            network.sigmoid_fn,
            input,
            out[0],
        ),
        neuron_yields(network.layers[0][0], network.sigmoid_fn, input, out[0]) <==> exists|raw: S|
            #[trigger] is_raw_output(network.layers[0][0], input, raw)
                && network.sigmoid_fn.activates(raw, out[0]),
{
    let layers = network.layers;
    let sigmoid_fn = network.sigmoid_fn;
    let neuron = layers[0][0];
    if network_yields(network, input, out) {
        assert(yields_upto(layers, sigmoid_fn, 1, input, out));
        let mid = choose|mid: Seq<S>|
            yields_upto(layers, sigmoid_fn, 0, input, mid) && #[trigger] layer_yields(
                layers[0],
                sigmoid_fn,
                mid,
                out,
            );
        assert(mid == input);
        assert(neuron_yields(layers[0][0], sigmoid_fn, input, out[0]));
    }
    if out.len() == 1 && neuron_yields(neuron, sigmoid_fn, input, out[0]) {
        assert(yields_upto(layers, sigmoid_fn, 0, input, input));
        assert(layer_yields(layers[0], sigmoid_fn, input, out));
        lemma_yields_extends(layers, sigmoid_fn, 0, input, input, out);
    }
}

/// Under a custom activation policy a neuron's output is what one call of
/// the custom function on the raw output returns: nothing is done to it.
pub proof fn law_custom_result_is_output<S: Scalar, F: Fn(S) -> S>(
    neuron: NeuronModel<S>,
    f: F,
    input: Seq<S>,
    out: S,
)
    ensures
        neuron_yields(neuron, SigmoidFunction::Custom(f), input, out) <==> exists|raw: S| #[trigger]
            is_raw_output(neuron, input, raw) && call_ensures(f, (raw,), out),
{
    let sigmoid_fn = SigmoidFunction::Custom(f);
    assert forall|raw: S| sigmoid_fn.activates(raw, out) == call_ensures(f, (raw,), out) by {}
}

/// The output of a network with layers has one value for each neuron of the
/// last layer.
pub proof fn law_output_length<S: Scalar, F: Fn(S) -> S>(
    network: NetworkModel<S, F>,
    input: Seq<S>,
    out: Seq<S>,
)
    requires
        network.layers.len() > 0,
        network_yields(network, input, out),
    ensures
        out.len() == network.layers.last().len(),
{
}

/// The number of inputs that layer `i` is handed when the network is handed
/// `n`: `n` itself for the first layer, and for a later layer the number of
/// neurons of the layer before it.
pub open spec fn inputs_of_layer<S>(layers: Seq<Seq<NeuronModel<S>>>, n: nat, i: int) -> nat {
    if i == 0 {
        n
    } else {
        layers[i - 1].len()
    }
}

/// Every neuron has a weight for each input that it is handed.
pub open spec fn shapes_fit<S>(layers: Seq<Seq<NeuronModel<S>>>, n: nat) -> bool {
    forall|i: int, j: int|
        0 <= i < layers.len() && 0 <= j < layers[i].len() ==> (#[trigger] layers[i][j]).weights.len()
            == inputs_of_layer(layers, n, i)
}

/// A network can be evaluated on an input of length `n` exactly where every
/// neuron of the first layer has `n` weights and every neuron of a later
/// layer has a weight for each neuron of the layer before it.
pub proof fn law_accepts_is_fitting_shapes<S>(layers: Seq<Seq<NeuronModel<S>>>, n: nat)
    ensures
        network_accepts(layers, n) <==> shapes_fit(layers, n),
{
    lemma_accepts_from(layers, n, 0);
}

proof fn lemma_accepts_from<S>(layers: Seq<Seq<NeuronModel<S>>>, n: nat, k: int)
    requires
        0 <= k <= layers.len(),
    ensures
        accepts_from(layers, k, inputs_of_layer(layers, n, k)) <==> forall|i: int, j: int|
            k <= i < layers.len() && 0 <= j < layers[i].len() ==> (#[trigger] layers[i][j]).weights.len()
                == inputs_of_layer(layers, n, i),
    decreases layers.len() - k,
{
    if k < layers.len() {
        lemma_accepts_from(layers, n, k + 1);
        let m = inputs_of_layer(layers, n, k);
        assert(inputs_of_layer(layers, n, k + 1) == layers[k].len());
        if accepts_from(layers, k, m) {
            assert forall|i: int, j: int|
                k <= i < layers.len() && 0 <= j < layers[i].len() implies (
            #[trigger] layers[i][j]).weights.len() == inputs_of_layer(layers, n, i) by {
                if i == k {
                    assert(layer_accepts(layers[k], m));
                }
            }
        }
    }
}

/// A document that is no array is no topology description.
pub proof fn law_root_must_be_array(tree: Tree)
    requires
        !(tree is Array),
    ensures
        !is_topology(tree),
{
}

/// A topology description has no member that is no array.
pub proof fn law_layer_must_be_array(tree: Tree, l: int)
    requires
        0 <= l < members_of(tree).len(),
        !(members_of(tree)[l] is Array),
    ensures
        !is_topology(tree),
{
    assert(!is_layer(members_of(tree)[l]));
}

/// A topology description has no neuron whose `"weights"` are missing or no
/// array.
pub proof fn law_neuron_needs_weights(tree: Tree, l: int, n: int)
    requires
        0 <= l < members_of(tree).len(),
        0 <= n < members_of(members_of(tree)[l]).len(),
        !(field_of(neuron_at(tree, l, n), "weights"@) is Array),
    ensures
        !is_topology(tree),
{
    assert(!is_neuron(members_of(members_of(tree)[l])[n]));
    assert(!is_layer(members_of(tree)[l]));
}

/// A topology description has no neuron with a weight that is no number.
pub proof fn law_weights_must_be_numbers(tree: Tree, l: int, n: int, w: int)
    requires
        0 <= l < members_of(tree).len(),
        0 <= n < members_of(members_of(tree)[l]).len(),
        0 <= w < members_of(field_of(neuron_at(tree, l, n), "weights"@)).len(),
        !(members_of(field_of(neuron_at(tree, l, n), "weights"@))[w] is Number),
    ensures
        !is_topology(tree),
{
    assert(!is_neuron(members_of(members_of(tree)[l])[n]));
    assert(!is_layer(members_of(tree)[l]));
}

/// A topology description has no neuron whose `"bias"` is missing or no
/// number.
pub proof fn law_neuron_needs_bias(tree: Tree, l: int, n: int)
    requires
        0 <= l < members_of(tree).len(),
        0 <= n < members_of(members_of(tree)[l]).len(),
        !(field_of(neuron_at(tree, l, n), "bias"@) is Number),
    ensures
        !is_topology(tree),
{
    assert(!is_neuron(members_of(members_of(tree)[l])[n]));
    assert(!is_layer(members_of(tree)[l]));
}

/// An object without a key holds `Null` under it, which is neither an array
/// nor a number: a neuron description needs both of its keys.
pub proof fn law_missing_key_is_null(fields: Map<Seq<char>, Tree>, key: Seq<char>)
    requires
        !fields.dom().contains(key),
    ensures
        field_of(Tree::Object(fields), key) == Tree::Null,
        !(field_of(Tree::Object(fields), key) is Array),
        !(field_of(Tree::Object(fields), key) is Number),
{
}

/// The layers read from a description have the description's shape and no
/// other: a layer for each member, a neuron for each member of that, a
/// weight for each member of its `"weights"`. Nothing else decides them.
pub proof fn law_reading_fixes_shape<S: Scalar>(tree: Tree, layers: Seq<Seq<NeuronModel<S>>>)
    requires
        topology_reads(tree, layers),
    ensures
        layers.len() == members_of(tree).len(),
        forall|l: int|
            0 <= l < layers.len() ==> (#[trigger] layers[l]).len() == members_of(
                members_of(tree)[l],
            ).len(),
        forall|l: int, n: int|
            0 <= l < layers.len() && 0 <= n < layers[l].len() ==> (#[trigger] layers[l][n]).weights.len()
                == members_of(field_of(neuron_at(tree, l, n), "weights"@)).len(),
{
    assert forall|l: int| 0 <= l < layers.len() implies (#[trigger] layers[l]).len() == members_of(
        members_of(tree)[l],
    ).len() by {
        assert(layer_reads(members_of(tree)[l], layers[l]));
    }
    assert forall|l: int, n: int| 0 <= l < layers.len() && 0 <= n < layers[l].len() implies (
    #[trigger] layers[l][n]).weights.len() == members_of(
        field_of(neuron_at(tree, l, n), "weights"@),
    ).len() by {
        assert(layer_reads(members_of(tree)[l], layers[l]));
        assert(neuron_reads(members_of(members_of(tree)[l])[n], layers[l][n]));
    }
}

/// Each arithmetic method of `S` returns one value for given arguments.
pub open spec fn arithmetic_is_functional<S: Scalar>() -> bool {
    &&& forall|r1: S, r2: S| #[trigger] is_zero(r1) && #[trigger] is_zero(r2) ==> r1 == r2
    &&& forall|r1: S, r2: S| #[trigger] is_one(r1) && #[trigger] is_one(r2) ==> r1 == r2
    &&& forall|a: S, b: S, r1: S, r2: S| #[trigger]
        is_sum(a, b, r1) && #[trigger] is_sum(a, b, r2) ==> r1 == r2
    &&& forall|a: S, b: S, r1: S, r2: S| #[trigger]
        is_product(a, b, r1) && #[trigger] is_product(a, b, r2) ==> r1 == r2
    &&& forall|a: S, b: S, r1: S, r2: S| #[trigger]
        is_quotient(a, b, r1) && #[trigger] is_quotient(a, b, r2) ==> r1 == r2
    &&& forall|a: S, r1: S, r2: S| #[trigger]
        is_magnitude(a, r1) && #[trigger] is_magnitude(a, r2) ==> r1 == r2
}

/// `S::from_numeral` returns one value for a given numeral.
pub open spec fn reading_is_functional<S: Scalar>() -> bool {
    forall|numeral: Numeral, r1: S, r2: S| #[trigger]
        is_reading(numeral, r1) && #[trigger] is_reading(numeral, r2) ==> r1 == r2
}

/// The activation policy gives one value for a given argument.
pub open spec fn activation_is_functional<S: Scalar, F: Fn(S) -> S>(
    sigmoid_fn: SigmoidFunction<F>,
) -> bool {
    forall|x: S, y1: S, y2: S| #[trigger]
        sigmoid_fn.activates(x, y1) && #[trigger] sigmoid_fn.activates(x, y2) ==> y1 == y2
}

/// Where the arithmetic returns one value for given arguments, so does the
/// built-in activation policy.
pub proof fn law_builtin_activation_is_a_function<S: Scalar, F: Fn(S) -> S>()
    requires
        arithmetic_is_functional::<S>(),
    ensures
        activation_is_functional::<S, F>(SigmoidFunction::XOver1PlusAbsOfX),
{
    let sigmoid_fn = SigmoidFunction::<F>::XOver1PlusAbsOfX;
    assert forall|x: S, y1: S, y2: S| #[trigger]
        sigmoid_fn.activates(x, y1) && #[trigger] sigmoid_fn.activates(x, y2) implies y1
        == y2 by {
        let d1 = choose|d: S| #[trigger] is_denominator(x, d) && is_quotient(x, d, y1);
        let d2 = choose|d: S| #[trigger] is_denominator(x, d) && is_quotient(x, d, y2);
        let (o1, m1) = choose|one: S, m: S| #[trigger]
            is_one(one) && #[trigger] is_magnitude(x, m) && is_sum(one, m, d1);
        let (o2, m2) = choose|one: S, m: S| #[trigger]
            is_one(one) && #[trigger] is_magnitude(x, m) && is_sum(one, m, d2);
        assert(o1 == o2);
        assert(m1 == m2);
        assert(d1 == d2);
    }
}

/// Where the arithmetic returns one value for given arguments, a weighted sum
/// has one value.
pub proof fn law_weighted_sum_is_a_function<S: Scalar>(
    input: Seq<S>,
    weights: Seq<S>,
    n: nat,
    acc1: S,
    acc2: S,
)
    requires
        arithmetic_is_functional::<S>(),
        is_weighted_sum(input, weights, n, acc1),
        is_weighted_sum(input, weights, n, acc2),
    ensures
        acc1 == acc2,
    decreases n,
{
    if n > 0 {
        let a = input[n - 1];
        let b = weights[n - 1];
        let prev1 = choose|prev: S|
            is_weighted_sum(input, weights, (n - 1) as nat, prev) && #[trigger] is_step(
                prev,
                a,
                b,
                acc1,
            );
        let prev2 = choose|prev: S|
            is_weighted_sum(input, weights, (n - 1) as nat, prev) && #[trigger] is_step(
                prev,
                a,
                b,
                acc2,
            );
        law_weighted_sum_is_a_function(input, weights, (n - 1) as nat, prev1, prev2);
        let t1 = choose|term: S| #[trigger] is_product(a, b, term) && is_sum(prev1, term, acc1);
        let t2 = choose|term: S| #[trigger] is_product(a, b, term) && is_sum(prev2, term, acc2);
        assert(t1 == t2);
    }
}

/// Where the arithmetic and the activation policy return one value for given
/// arguments, a neuron has one output for an input.
pub proof fn law_neuron_is_a_function<S: Scalar, F: Fn(S) -> S>(
    neuron: NeuronModel<S>,
    sigmoid_fn: SigmoidFunction<F>,
    input: Seq<S>,
    out1: S,
    out2: S,
)
    requires
        arithmetic_is_functional::<S>(),
        activation_is_functional::<S, F>(sigmoid_fn),
        neuron_yields(neuron, sigmoid_fn, input, out1),
        neuron_yields(neuron, sigmoid_fn, input, out2),
    ensures
        out1 == out2,
{
    let n = neuron.weights.len();
    let r1 = choose|raw: S| #[trigger]
        is_raw_output(neuron, input, raw) && sigmoid_fn.activates(raw, out1);
    let r2 = choose|raw: S| #[trigger]
        is_raw_output(neuron, input, raw) && sigmoid_fn.activates(raw, out2);
    let s1 = choose|sum: S|
        is_weighted_sum(input, neuron.weights, n, sum) && #[trigger] is_sum(sum, neuron.bias, r1);
    let s2 = choose|sum: S|
        is_weighted_sum(input, neuron.weights, n, sum) && #[trigger] is_sum(sum, neuron.bias, r2);
    law_weighted_sum_is_a_function(input, neuron.weights, n, s1, s2);
    assert(r1 == r2);
}

/// Where the arithmetic and the activation policy return one value for given
/// arguments, a network has one output for an input: evaluation is a
/// function of the network and the input.
pub proof fn law_evaluation_is_a_function<S: Scalar, F: Fn(S) -> S>(
    network: NetworkModel<S, F>,
    input: Seq<S>,
    out1: Seq<S>,
    out2: Seq<S>,
)
    requires
        arithmetic_is_functional::<S>(),
        activation_is_functional::<S, F>(network.sigmoid_fn),
        network_yields(network, input, out1),
        network_yields(network, input, out2),
    ensures
        out1 == out2,
{
    lemma_layers_are_a_function(
        network.layers,
        network.sigmoid_fn,
        network.layers.len(),
        input,
        out1,
        out2,
    );
}

proof fn lemma_layers_are_a_function<S: Scalar, F: Fn(S) -> S>(
    layers: Seq<Seq<NeuronModel<S>>>,
    sigmoid_fn: SigmoidFunction<F>,
    k: nat,
    input: Seq<S>,
    out1: Seq<S>,
    out2: Seq<S>,
)
    requires
        arithmetic_is_functional::<S>(),
        activation_is_functional::<S, F>(sigmoid_fn),
        yields_upto(layers, sigmoid_fn, k, input, out1),
        yields_upto(layers, sigmoid_fn, k, input, out2),
    ensures
        out1 == out2,
    decreases k,
{
    if k > 0 {
        let layer = layers[k - 1];
        let m1 = choose|mid: Seq<S>|
            yields_upto(layers, sigmoid_fn, (k - 1) as nat, input, mid) && #[trigger] layer_yields(
                layer,
                sigmoid_fn,
                mid,
                out1,
            );
        let m2 = choose|mid: Seq<S>|
            yields_upto(layers, sigmoid_fn, (k - 1) as nat, input, mid) && #[trigger] layer_yields(
                layer,
                sigmoid_fn,
                mid,
                out2,
            );
        lemma_layers_are_a_function(layers, sigmoid_fn, (k - 1) as nat, input, m1, m2);
        assert forall|i: int| 0 <= i < out1.len() implies out1[i] == out2[i] by {
            law_neuron_is_a_function(layer[i], sigmoid_fn, m1, out1[i], out2[i]);
        }
        assert(out1 =~= out2);
    }
}

/// Where `S::from_numeral` returns one value for a given numeral, a topology
/// description can be read as one sequence of layers only.
pub proof fn law_reading_is_a_function<S: Scalar>(
    tree: Tree,
    layers1: Seq<Seq<NeuronModel<S>>>,
    layers2: Seq<Seq<NeuronModel<S>>>,
)
    requires
        reading_is_functional::<S>(),
        topology_reads(tree, layers1),
        topology_reads(tree, layers2),
    ensures
        layers1 == layers2,
{
    assert forall|l: int| 0 <= l < layers1.len() implies layers1[l] == layers2[l] by {
        let described = members_of(tree)[l];
        assert(layer_reads(described, layers1[l]));
        assert(layer_reads(described, layers2[l]));
        assert forall|n: int| 0 <= n < layers1[l].len() implies layers1[l][n] == layers2[l][n] by {
            let a = layers1[l][n];
            let b = layers2[l][n];
            assert(neuron_reads(members_of(described)[n], a));
            assert(neuron_reads(members_of(described)[n], b));
            assert forall|w: int| 0 <= w < a.weights.len() implies a.weights[w] == b.weights[w] by {
                let numeral = members_of(field_of(members_of(described)[n], "weights"@))[w]->Number_0;
                assert(is_reading(numeral, a.weights[w]));
                assert(is_reading(numeral, b.weights[w]));
            }
            assert(a.weights =~= b.weights);
        }
        assert(layers1[l] =~= layers2[l]);
    }
    assert(layers1 =~= layers2);
}

} // verus!
