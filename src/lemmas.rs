use vstd::prelude::*;
use crate::layer::{layer_outputs, layer_reset, layer_step_outputs};
use crate::neuron::NeuronView;
use crate::network::{
    NetworkView, after_step, network_outputs, network_reset, sequence_outputs, sequence_state,
    stateless_input, step_input, step_output,
};

verus! {

/// Two network models of the same shape whose neurons have the same weights and
/// biases; their states may differ.
pub open spec fn same_params(a: NetworkView, b: NetworkView) -> bool {
    &&& a.len() == b.len()
    &&& forall|i: int|
        0 <= i < a.len() ==> (#[trigger] a[i]).len() == b[i].len() && forall|j: int|
            0 <= j < a[i].len() ==> (#[trigger] a[i][j]).weights == b[i][j].weights
                && a[i][j].bias == b[i][j].bias
}

/// Every neuron of the network model has state zero.
pub open spec fn zero_states(a: NetworkView) -> bool {
    forall|i: int, j: int| 0 <= i < a.len() && 0 <= j < a[i].len() ==> (#[trigger] a[i][j]).state == 0
}

/// A layer gives one output per neuron, whatever the width of its inputs, in the
/// stateless pass and in a stateful step alike.
pub proof fn lemma_layer_output_len(l: Seq<NeuronView>, x: Seq<i64>)
    ensures
        layer_outputs(l, x).len() == l.len(),
        layer_step_outputs(l, x).len() == l.len(),
{
}

/// The output of a network with at least one layer is as long as its last layer,
/// in the stateless pass and in a stateful step alike.
pub proof fn lemma_network_output_len(ls: NetworkView, x: Seq<i64>)
    requires
        ls.len() > 0,
    ensures
        network_outputs(ls, x).len() == ls.last().len(),
        step_output(ls, x).len() == ls.last().len(),
{
}

/// A stateful step keeps the shape, the weights and the biases of the network.
pub proof fn lemma_step_keeps_params(ls: NetworkView, x: Seq<i64>)
    ensures
        same_params(after_step(ls, x), ls),
{
}

/// Any run of stateful steps keeps the shape, the weights and the biases.
pub proof fn lemma_sequence_keeps_params(ls: NetworkView, xs: Seq<Seq<i64>>)
    ensures
        same_params(sequence_state(ls, xs), ls),
    decreases xs.len(),
{
    if xs.len() > 0 {
        lemma_sequence_keeps_params(ls, xs.drop_last());
        lemma_step_keeps_params(sequence_state(ls, xs.drop_last()), xs.last());
    }
}

/// In a stateful run, each output of the last layer at step `t` is that neuron's
/// stateless output on what the layer receives, plus what the same neuron gave
/// at step `t - 1`: the state carries additively from one step to the next.
pub proof fn lemma_recurrence(ls: NetworkView, xs: Seq<Seq<i64>>, t: int)
    requires
        ls.len() > 0,
        0 < t < xs.len(),
    ensures
        ({
            let cur = sequence_state(ls, xs.take(t));
            let outs = sequence_outputs(ls, xs);
            &&& outs[t].len() == ls.last().len()
            &&& forall|j: int|
                0 <= j < ls.last().len() ==> #[trigger] outs[t][j] == cur.last()[j].output(
                    step_input(cur, xs[t], (ls.len() - 1) as nat),
                ).wrapping_add(outs[t - 1][j])
        }),
{
    let prev = sequence_state(ls, xs.take(t - 1));
    let cur = sequence_state(ls, xs.take(t));
    assert(xs.take(t).drop_last() =~= xs.take(t - 1));
    assert(cur == after_step(prev, xs[t - 1]));
    lemma_sequence_keeps_params(ls, xs.take(t - 1));
    lemma_step_keeps_params(prev, xs[t - 1]);
}

/// After `reset_states`, a network replays any sequence exactly as a freshly
/// built network with the same weights and biases does; resetting twice is
/// resetting once.
pub proof fn lemma_reset_replays(a: NetworkView, fresh: NetworkView, xs: Seq<Seq<i64>>)
    requires
        same_params(a, fresh),
        zero_states(fresh),
    ensures
        network_reset(a) == fresh,
        network_reset(network_reset(a)) == network_reset(a),
        sequence_outputs(network_reset(a), xs) == sequence_outputs(fresh, xs),
        sequence_state(network_reset(a), xs) == sequence_state(fresh, xs),
{
    assert forall|i: int| 0 <= i < a.len() implies #[trigger] layer_reset(a[i]) == fresh[i] by {
        assert(layer_reset(a[i]) =~= fresh[i]);
    }
    assert(network_reset(a) =~= fresh);
    assert forall|i: int| 0 <= i < a.len() implies #[trigger] layer_reset(fresh[i]) == fresh[i] by {
        assert(layer_reset(fresh[i]) =~= fresh[i]);
    }
    assert(network_reset(fresh) =~= fresh);
}

proof fn lemma_stateless_input_ignores_state(a: NetworkView, b: NetworkView, x: Seq<i64>, i: nat)
    requires
        same_params(a, b),
        i <= a.len(),
    ensures
        stateless_input(a, x, i) == stateless_input(b, x, i),
    decreases i,
{
    if i > 0 {
        lemma_stateless_input_ignores_state(a, b, x, (i - 1) as nat);
        let y = stateless_input(a, x, (i - 1) as nat);
        assert(layer_outputs(a[i - 1], y) =~= layer_outputs(b[i - 1], y));
    }
}

/// The passes are functions of the network's weights, biases and states: equal
/// networks give equal outputs and equal states. The stateless pass does not
/// even depend on the states.
pub proof fn lemma_deterministic(
    a: NetworkView,
    b: NetworkView,
    x: Seq<i64>,
    xs: Seq<Seq<i64>>,
)
    requires
        same_params(a, b),
    ensures
        network_outputs(a, x) == network_outputs(b, x),
        a == b ==> sequence_outputs(a, xs) == sequence_outputs(b, xs),
        a == b ==> sequence_state(a, xs) == sequence_state(b, xs),
{
    lemma_stateless_input_ignores_state(a, b, x, a.len());
}

} // verus!
