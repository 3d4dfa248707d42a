use vstd::prelude::*;
use rand::Rng;

verus! {

/// Weights and biases of a neuron built by `Neuron::new` are drawn from
/// `[-WEIGHT_RANGE, WEIGHT_RANGE)`.
pub const WEIGHT_RANGE: i64 = 1000;

/// Plain model of a neuron: its weights, its bias and its carried state.
pub ghost struct NeuronView {
    pub weights: Seq<i64>,
    pub bias: i64,
    pub state: i64,
}

/// Sum of `w[i] * x[i]` over the first `n` positions, in `i64` wrapping arithmetic,
/// added left to right.
pub open spec fn weighted_prefix(w: Seq<i64>, x: Seq<i64>, n: nat) -> i64
    decreases n,
{
    if n == 0 {
        0
    } else {
        weighted_prefix(w, x, (n - 1) as nat).wrapping_add(w[n - 1].wrapping_mul(x[n - 1]))
    }
}

pub open spec fn min_len(a: nat, b: nat) -> nat {
    if a <= b {
        a
    } else {
        b
    }
}

impl NeuronView {
    /// The stateless output: weights times inputs over the overlapping prefix, plus bias.
    pub open spec fn output(self, x: Seq<i64>) -> i64 {
        weighted_prefix(self.weights, x, min_len(self.weights.len(), x.len())).wrapping_add(
            self.bias,
        )
    }

    /// The output of a stateful step: the stateless output plus the state carried in.
    pub open spec fn stateful_output(self, x: Seq<i64>) -> i64 {
        self.output(x).wrapping_add(self.state)
    }

    pub open spec fn with_state(self, s: i64) -> NeuronView {
        NeuronView { state: s, ..self }
    }
}

/// Relies on rand's `thread_rng().gen_range(lo..hi)`: a value in `[lo, hi)`;
/// it panics on an empty range, hence `lo < hi`.
#[verifier::external_body]
fn random_in(lo: i64, hi: i64) -> (r: i64)
    requires
        lo < hi,
    ensures
        lo <= r < hi,
{
    rand::thread_rng().gen_range(lo..hi)
}

/// A scalar unit: a weight vector, a bias and a state carried between stateful steps.
pub struct Neuron {
    weights: Vec<i64>,
    bias: i64,
    state: i64,
}

impl View for Neuron {
    type V = NeuronView;

    closed spec fn view(&self) -> NeuronView {
        NeuronView { weights: self.weights@, bias: self.bias, state: self.state }
    }
}

impl Neuron {
    /// A neuron over `inputs` inputs, with random weights and bias and a zero state.
    pub fn new(inputs: usize) -> (r: Neuron)
        ensures
            r@.weights.len() == inputs,
            r@.state == 0,
            forall|i: int|
                0 <= i < inputs ==> -WEIGHT_RANGE <= #[trigger] r@.weights[i] < WEIGHT_RANGE,
            -WEIGHT_RANGE <= r@.bias < WEIGHT_RANGE,
    {
        let mut weights: Vec<i64> = Vec::new();
        let mut k: usize = 0;
        while k < inputs
            invariant
                k <= inputs,
                weights@.len() == k,
                forall|i: int|
                    0 <= i < k ==> -WEIGHT_RANGE <= #[trigger] weights@[i] < WEIGHT_RANGE,
            decreases inputs - k,
        {
            weights.push(random_in(-WEIGHT_RANGE, WEIGHT_RANGE));
            k = k + 1;
        }
        let bias = random_in(-WEIGHT_RANGE, WEIGHT_RANGE);
        Neuron { weights, bias, state: 0 }
    }

    /// A neuron with the given weights and bias and a zero state.
    pub fn new_with_weights(weights: Vec<i64>, bias: i64) -> (r: Neuron)
        ensures
            r@ == (NeuronView { weights: weights@, bias, state: 0 }),
    {
        Neuron { weights, bias, state: 0 }
    }

    /// Weighted sum of the inputs plus bias; where the lengths differ, only the
    /// overlapping prefix counts. The state is neither read nor written.
    pub fn forward(&self, inputs: &[i64]) -> (r: i64)
        ensures
            r == self@.output(inputs@),
    {
        let n: usize = if self.weights.len() <= inputs.len() {
            self.weights.len()
        } else {
            inputs.len()
        };
        let mut sum: i64 = 0;
        let mut k: usize = 0;
        while k < n
            invariant
                n == min_len(self.weights@.len(), inputs@.len()),
                k <= n,
                sum == weighted_prefix(self.weights@, inputs@, k as nat),
            decreases n - k,
        {
            sum = sum.wrapping_add(self.weights[k].wrapping_mul(inputs[k]));
            k = k + 1;
        }
        sum.wrapping_add(self.bias)
    }

    pub fn update_state(&mut self, new_state: i64)
        ensures
            final(self)@ == old(self)@.with_state(new_state),
    {
        self.state = new_state;
    }

    pub fn reset_state(&mut self)
        ensures
            final(self)@ == old(self)@.with_state(0),
    {
        self.state = 0;
    }

    pub fn state(&self) -> (r: i64)
        ensures
            r == self@.state,
    {
        self.state
    }

    pub fn bias(&self) -> (r: i64)
        ensures
            r == self@.bias,
    {
        self.bias
    }

    pub fn weights(&self) -> (r: &Vec<i64>)
        ensures
            r@ == self@.weights,
    {
        &self.weights
    }
}

} // verus!
