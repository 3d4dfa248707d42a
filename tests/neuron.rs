use rnn_stream::neuron::{Neuron, WEIGHT_RANGE};

#[test]
fn test_neuron_initialization() {
    let neuron = Neuron::new(3);
    assert_eq!(neuron.weights().len(), 3);
}

#[test]
fn test_forward_pass() {
    let neuron = Neuron::new_with_weights(vec![5, -5, 5], 0);
    let inputs = vec![1, 2, 3];
    let output = neuron.forward(&inputs);
    let expected_output = 5 * 1 + (-5) * 2 + 5 * 3;
    assert_eq!(output, expected_output);
    assert_eq!(output, 10);
}

#[test]
fn forward_adds_bias() {
    let neuron = Neuron::new_with_weights(vec![2, 3], 7);
    assert_eq!(neuron.forward(&[4, 5]), 2 * 4 + 3 * 5 + 7);
}

#[test]
fn shorter_inputs_use_overlapping_prefix() {
    let neuron = Neuron::new_with_weights(vec![1, 2, 3], 1);
    assert_eq!(neuron.forward(&[10, 20]), 10 + 40 + 1);
}

#[test]
fn longer_inputs_use_overlapping_prefix() {
    let neuron = Neuron::new_with_weights(vec![1, 2], 0);
    assert_eq!(neuron.forward(&[10, 20, 1000]), 50);
}

#[test]
fn empty_inputs_give_bias() {
    let neuron = Neuron::new_with_weights(vec![1, 2], -3);
    assert_eq!(neuron.forward(&[]), -3);
}

#[test]
fn arithmetic_wraps() {
    let neuron = Neuron::new_with_weights(vec![i64::MAX], 1);
    assert_eq!(neuron.forward(&[2]), i64::MAX.wrapping_mul(2).wrapping_add(1));
}

#[test]
fn state_updates_and_resets() {
    let mut neuron = Neuron::new_with_weights(vec![1], 0);
    assert_eq!(neuron.state(), 0);
    neuron.update_state(42);
    assert_eq!(neuron.state(), 42);
    assert_eq!(neuron.forward(&[3]), 3);
    neuron.reset_state();
    assert_eq!(neuron.state(), 0);
}

#[test]
fn random_neuron_is_in_range() {
    let neuron = Neuron::new(64);
    assert_eq!(neuron.state(), 0);
    for w in neuron.weights() {
        assert!(-WEIGHT_RANGE <= *w && *w < WEIGHT_RANGE);
    }
    assert!(-WEIGHT_RANGE <= neuron.bias() && neuron.bias() < WEIGHT_RANGE);
}
