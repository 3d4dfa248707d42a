use vstd::prelude::*;
use crate::neuron::{Neuron, NeuronView};

verus! {

/// Stateless outputs of a layer model: one per neuron, in neuron order.
pub open spec fn layer_outputs(l: Seq<NeuronView>, x: Seq<i64>) -> Seq<i64> {
    Seq::new(l.len(), |j: int| l[j].output(x))
}

/// Outputs of a stateful step: each neuron's stateless output plus its own state.
pub open spec fn layer_step_outputs(l: Seq<NeuronView>, x: Seq<i64>) -> Seq<i64> {
    Seq::new(l.len(), |j: int| l[j].stateful_output(x))
}

/// The layer after a stateful step: each neuron keeps its step output as its state.
pub open spec fn layer_after_step(l: Seq<NeuronView>, x: Seq<i64>) -> Seq<NeuronView> {
    Seq::new(l.len(), |j: int| l[j].with_state(l[j].stateful_output(x)))
}

/// The layer with every state set to zero.
pub open spec fn layer_reset(l: Seq<NeuronView>) -> Seq<NeuronView> {
    Seq::new(l.len(), |j: int| l[j].with_state(0))
}

/// An ordered collection of neurons fed the same inputs.
pub struct Layer {
    pub neurons: Vec<Neuron>,
}

impl View for Layer {
    type V = Seq<NeuronView>;

    open spec fn view(&self) -> Seq<NeuronView> {
        self.neurons@.map_values(|n: Neuron| n@)
    }
}

impl Layer {
    /// `num_neurons` random neurons over `num_inputs` inputs each, all states zero.
    pub fn new(num_neurons: usize, num_inputs: usize) -> (r: Layer)
        ensures
            r@.len() == num_neurons,
            forall|j: int|
                0 <= j < num_neurons ==> (#[trigger] r@[j]).weights.len() == num_inputs
                    && r@[j].state == 0,
    {
        let mut neurons: Vec<Neuron> = Vec::new();
        let mut k: usize = 0;
        while k < num_neurons
            invariant
                k <= num_neurons,
                neurons@.len() == k,
                forall|j: int|
                    0 <= j < k ==> (#[trigger] neurons@[j])@.weights.len() == num_inputs
                        && neurons@[j]@.state == 0,
            decreases num_neurons - k,
        {
            neurons.push(Neuron::new(num_inputs));
            k = k + 1;
        }
        Layer { neurons }
    }

    pub fn new_with_neurons(neurons: Vec<Neuron>) -> (r: Layer)
        ensures
            r.neurons@ == neurons@,
    {
        Layer { neurons }
    }

    /// Each neuron's stateless output on the same inputs; no state is read or written.
    pub fn forward(&self, inputs: &[i64]) -> (r: Vec<i64>)
        ensures
            r@ == layer_outputs(self@, inputs@),
    {
        let mut out: Vec<i64> = Vec::new();
        let mut j: usize = 0;
        while j < self.neurons.len()
            invariant
                j <= self.neurons@.len(),
                out@ =~= layer_outputs(self@, inputs@).take(j as int),
            decreases self.neurons@.len() - j,
        {
            out.push(self.neurons[j].forward(inputs));
            j = j + 1;
        }
        assert(out@ =~= layer_outputs(self@, inputs@));
        out
    }

    /// One stateful step: each neuron outputs its stateless output plus its
    /// previous state, then keeps that output as its new state.
    pub fn forward_with_state(&mut self, inputs: &[i64]) -> (r: Vec<i64>)
        ensures
            r@ == layer_step_outputs(old(self)@, inputs@),
            final(self)@ == layer_after_step(old(self)@, inputs@),
    {
        let ghost l0 = self@;
        let mut out: Vec<i64> = Vec::new();
        let mut j: usize = 0;
        while j < self.neurons.len()
            invariant
                self.neurons@.len() == l0.len(),
                j <= l0.len(),
                out@ =~= layer_step_outputs(l0, inputs@).take(j as int),
                forall|i: int|
                    0 <= i < j ==> (#[trigger] self.neurons@[i])@ == l0[i].with_state(
                        l0[i].stateful_output(inputs@),
                    ),
                forall|i: int| j <= i < l0.len() ==> (#[trigger] self.neurons@[i])@ == l0[i],
            decreases l0.len() - j,
        {
            let output = self.neurons[j].forward(inputs).wrapping_add(self.neurons[j].state());
            let mut n = self.neurons.remove(j);
            n.update_state(output);
            self.neurons.insert(j, n);
            out.push(output);
            j = j + 1;
        }
        assert(out@ =~= layer_step_outputs(l0, inputs@));
        assert(self@ =~= layer_after_step(l0, inputs@));
        out
    }

    /// Sets the state of every neuron to zero.
    pub fn reset_states(&mut self)
        ensures
            final(self)@ == layer_reset(old(self)@),
    {
        let ghost l0 = self@;
        let mut j: usize = 0;
        while j < self.neurons.len()
            invariant
                self.neurons@.len() == l0.len(),
                j <= l0.len(),
                forall|i: int| 0 <= i < j ==> (#[trigger] self.neurons@[i])@ == l0[i].with_state(0),
                forall|i: int| j <= i < l0.len() ==> (#[trigger] self.neurons@[i])@ == l0[i],
            decreases l0.len() - j,
        {
            let mut n = self.neurons.remove(j);
            n.reset_state();
            self.neurons.insert(j, n);
            j = j + 1;
        }
        assert(self@ =~= layer_reset(l0));
    }

    /// The number of neurons, which is also the length of every output.
    pub fn len(&self) -> (r: usize)
        ensures
            r == self@.len(),
    {
        self.neurons.len()
    }
}

} // verus!
