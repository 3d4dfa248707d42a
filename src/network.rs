use vstd::prelude::*;
use crate::layer::{Layer, layer_after_step, layer_outputs, layer_reset, layer_step_outputs};
use crate::neuron::NeuronView;

verus! {

/// Model of a network: its layers in order, each a sequence of neuron models.
pub type NetworkView = Seq<Seq<NeuronView>>;

/// What the `i`-th layer receives in a stateless pass: the inputs, folded through
/// the layers before it.
pub open spec fn stateless_input(ls: NetworkView, x: Seq<i64>, i: nat) -> Seq<i64>
    decreases i,
{
    if i == 0 {
        x
    } else {
        layer_outputs(ls[i - 1], stateless_input(ls, x, (i - 1) as nat))
    }
}

/// Stateless output of the network: the inputs folded through every layer.
pub open spec fn network_outputs(ls: NetworkView, x: Seq<i64>) -> Seq<i64> {
    stateless_input(ls, x, ls.len())
}

/// What the `i`-th layer receives in one stateful step: the step outputs of the
/// layer before it, for the same inputs.
pub open spec fn step_input(ls: NetworkView, x: Seq<i64>, i: nat) -> Seq<i64>
    decreases i,
{
    if i == 0 {
        x
    } else {
        layer_step_outputs(ls[i - 1], step_input(ls, x, (i - 1) as nat))
    }
}

/// Output of one stateful step: what the last layer gives.
pub open spec fn step_output(ls: NetworkView, x: Seq<i64>) -> Seq<i64> {
    step_input(ls, x, ls.len())
}

/// The network after one stateful step: every layer has taken its own step.
pub open spec fn after_step(ls: NetworkView, x: Seq<i64>) -> NetworkView {
    Seq::new(ls.len(), |i: int| layer_after_step(ls[i], step_input(ls, x, i as nat)))
}

/// The network after stateful steps over each element of `xs`, in order.
pub open spec fn sequence_state(ls: NetworkView, xs: Seq<Seq<i64>>) -> NetworkView
    decreases xs.len(),
{
    if xs.len() == 0 {
        ls
    } else {
        after_step(sequence_state(ls, xs.drop_last()), xs.last())
    }
}

/// Outputs of stateful steps over `xs`: the `t`-th comes from the state that the
/// elements before it left.
pub open spec fn sequence_outputs(ls: NetworkView, xs: Seq<Seq<i64>>) -> Seq<Seq<i64>> {
    Seq::new(xs.len(), |t: int| step_output(sequence_state(ls, xs.take(t)), xs[t]))
}

/// The network with every state set to zero.
pub open spec fn network_reset(ls: NetworkView) -> NetworkView {
    Seq::new(ls.len(), |i: int| layer_reset(ls[i]))
}

fn copy_of(s: &[i64]) -> (r: Vec<i64>)
    ensures
        r@ == s@,
{
    let mut r: Vec<i64> = Vec::new();
    let mut k: usize = 0;
    while k < s.len()
        invariant
            k <= s@.len(),
            r@ == s@.take(k as int),
        decreases s@.len() - k,
    {
        r.push(s[k]);
        assert(s@.take(k + 1) =~= s@.take(k as int).push(s@[k as int]));
        k = k + 1;
    }
    assert(s@.take(s@.len() as int) =~= s@);
    r
}

/// An ordered stack of layers; each layer's outputs feed the next one.
pub struct NeuralNetwork {
    layers: Vec<Layer>,
}

impl View for NeuralNetwork {
    type V = NetworkView;

    closed spec fn view(&self) -> NetworkView {
        self.layers@.map_values(|l: Layer| l@)
    }
}

impl NeuralNetwork {
    /// Random layers from a list of widths: layer `i` has `layer_sizes[i + 1]`
    /// neurons over `layer_sizes[i]` inputs each. All states are zero.
    pub fn new(layer_sizes: &[usize]) -> (r: NeuralNetwork)
        requires
            layer_sizes@.len() >= 1,
        ensures
            r@.len() == layer_sizes@.len() - 1,
            forall|i: int|
                0 <= i < r@.len() ==> (#[trigger] r@[i]).len() == layer_sizes@[i + 1] && forall|
                    j: int,
                |
                    0 <= j < r@[i].len() ==> (#[trigger] r@[i][j]).weights.len()
                        == layer_sizes@[i] && r@[i][j].state == 0,
    {
        let mut layers: Vec<Layer> = Vec::new();
        let mut i: usize = 0;
        while i < layer_sizes.len() - 1
            invariant
                layer_sizes@.len() >= 1,
                i <= layer_sizes@.len() - 1,
                layers@.len() == i,
                forall|k: int|
                    0 <= k < i ==> (#[trigger] layers@[k])@.len() == layer_sizes@[k + 1]
                        && forall|j: int|
                        0 <= j < layers@[k]@.len() ==> (#[trigger] layers@[k]@[j]).weights.len()
                            == layer_sizes@[k] && layers@[k]@[j].state == 0,
            decreases layer_sizes@.len() - 1 - i,
        {
            layers.push(Layer::new(layer_sizes[i + 1], layer_sizes[i]));
            i = i + 1;
        }
        NeuralNetwork { layers }
    }

    /// A network of the given layers, taken as they are.
    pub fn new_with_layers(layers: Vec<Layer>) -> (r: NeuralNetwork)
        ensures
            r@ == layers@.map_values(|l: Layer| l@),
    {
        NeuralNetwork { layers }
    }

    /// The stateless pass: the inputs folded through every layer; no state is
    /// read or written.
    pub fn forward(&self, inputs: &[i64]) -> (r: Vec<i64>)
        ensures
            r@ == network_outputs(self@, inputs@),
    {
        let mut acc: Vec<i64> = copy_of(inputs);
        let mut i: usize = 0;
        while i < self.layers.len()
            invariant
                i <= self.layers@.len(),
                acc@ == stateless_input(self@, inputs@, i as nat),
            decreases self.layers@.len() - i,
        {
            acc = self.layers[i].forward(acc.as_slice());
            i = i + 1;
        }
        acc
    }

    /// One stateful step of every layer on one input vector, in layer order.
    fn step(&mut self, input: &Vec<i64>) -> (r: Vec<i64>)
        ensures
            r@ == step_output(old(self)@, input@),
            final(self)@ == after_step(old(self)@, input@),
    {
        let ghost l0 = self@;
        let mut layer_input: Vec<i64> = input.clone();
        let mut i: usize = 0;
        while i < self.layers.len()
            invariant
                self.layers@.len() == l0.len(),
                i <= l0.len(),
                layer_input@ == step_input(l0, input@, i as nat),
                forall|k: int| 0 <= k < i ==> (#[trigger] self.layers@[k])@ == after_step(l0, input@)[k],
                forall|k: int| i <= k < l0.len() ==> (#[trigger] self.layers@[k])@ == l0[k],
            decreases l0.len() - i,
        {
            let mut layer = self.layers.remove(i);
            layer_input = layer.forward_with_state(layer_input.as_slice());
            self.layers.insert(i, layer);
            i = i + 1;
        }
        assert(self@ =~= after_step(l0, input@));
        layer_input
    }

    /// The stateful pass over a sequence: each element is threaded through every
    /// layer in turn, and the states it leaves carry into the next element and
    /// past the end of the call.
    pub fn forward_sequence(&mut self, sequence: &[Vec<i64>]) -> (r: Vec<Vec<i64>>)
        ensures
            r@.map_values(|v: Vec<i64>| v@) == sequence_outputs(
                old(self)@,
                sequence@.map_values(|v: Vec<i64>| v@),
            ),
            final(self)@ == sequence_state(old(self)@, sequence@.map_values(|v: Vec<i64>| v@)),
    {
        let ghost l0 = self@;
        let ghost xs = sequence@.map_values(|v: Vec<i64>| v@);
        let mut outputs: Vec<Vec<i64>> = Vec::new();
        let mut t: usize = 0;
        while t < sequence.len()
            invariant
                xs == sequence@.map_values(|v: Vec<i64>| v@),
                t <= sequence@.len(),
                self@ == sequence_state(l0, xs.take(t as int)),
                outputs@.len() == t,
                forall|k: int|
                    0 <= k < t ==> (#[trigger] outputs@[k])@ == step_output(
                        sequence_state(l0, xs.take(k)),
                        xs[k],
                    ),
            decreases sequence@.len() - t,
        {
            assert(xs.take(t + 1).drop_last() =~= xs.take(t as int));
            let out = self.step(&sequence[t]);
            outputs.push(out);
            t = t + 1;
        }
        assert(xs.take(sequence@.len() as int) =~= xs);
        assert(outputs@.map_values(|v: Vec<i64>| v@) =~= sequence_outputs(l0, xs));
        outputs
    }

    /// Sets the state of every neuron of every layer to zero.
    pub fn reset_states(&mut self)
        ensures
            final(self)@ == network_reset(old(self)@),
    {
        let ghost l0 = self@;
        let mut i: usize = 0;
        while i < self.layers.len()
            invariant
                self.layers@.len() == l0.len(),
                i <= l0.len(),
                forall|k: int| 0 <= k < i ==> (#[trigger] self.layers@[k])@ == layer_reset(l0[k]),
                forall|k: int| i <= k < l0.len() ==> (#[trigger] self.layers@[k])@ == l0[k],
            decreases l0.len() - i,
        {
            let mut layer = self.layers.remove(i);
            layer.reset_states();
            self.layers.insert(i, layer);
            i = i + 1;
        }
        assert(self@ =~= network_reset(l0));
    }

    /// The layers, in order.
    pub fn layers(&self) -> (r: &Vec<Layer>)
        ensures
            r@.map_values(|l: Layer| l@) == self@,
    {
        &self.layers
    }
}

} // verus!
