use rnn_stream::kafka::message::KafkaMessage;
use rnn_stream::layer::Layer;
use rnn_stream::network::NeuralNetwork;
use rnn_stream::neuron::Neuron;

fn fixed_network() -> NeuralNetwork {
    let neuron1 = Neuron::new_with_weights(vec![5, 1, -2], 0);
    let neuron2 = Neuron::new_with_weights(vec![3, -1, 4], 1);
    let layer1 = Layer::new_with_neurons(vec![neuron1, neuron2]);
    NeuralNetwork::new_with_layers(vec![layer1])
}

#[test]
fn test_network_initialization() {
    let network = NeuralNetwork::new(&[3, 5, 2]);
    assert_eq!(network.layers().len(), 2);
    assert_eq!(network.layers()[0].neurons.len(), 5);
    assert_eq!(network.layers()[1].neurons.len(), 2);
    assert_eq!(network.layers()[0].neurons[0].weights().len(), 3);
    assert_eq!(network.layers()[1].neurons[1].weights().len(), 5);
}

#[test]
fn test_network_forward_pass() {
    let network = NeuralNetwork::new(&[3, 5, 2]);
    let inputs = vec![5, -1, 3];
    let outputs = network.forward(&inputs);
    assert_eq!(outputs.len(), 2);
}

#[test]
fn test_fixed_weight_forward_sequence() {
    let mut fixed_network = fixed_network();
    let input_sequence = vec![vec![1, 1, 1], vec![1, 1, 1]];
    let expected_output = vec![vec![4, 7], vec![8, 14]];
    assert_eq!(fixed_network.forward_sequence(&input_sequence), expected_output);
}

#[test]
fn state_bleeds_into_next_sequence_until_reset() {
    let mut network = fixed_network();
    let seq = vec![vec![1, 1, 1]];
    assert_eq!(network.forward_sequence(&seq), vec![vec![4, 7]]);
    assert_eq!(network.forward_sequence(&seq), vec![vec![8, 14]]);
    network.reset_states();
    assert_eq!(network.forward_sequence(&seq), vec![vec![4, 7]]);
}

#[test]
fn reset_replays_like_fresh_network() {
    let seq = vec![vec![1, 2, 3], vec![-4, 0, 2], vec![7, 7, 7]];
    let mut used = fixed_network();
    used.forward_sequence(&seq);
    used.forward_sequence(&[vec![9, 9, 9]]);
    used.reset_states();
    let mut fresh = fixed_network();
    assert_eq!(used.forward_sequence(&seq), fresh.forward_sequence(&seq));
}

#[test]
fn repeated_runs_are_identical() {
    let seq = vec![vec![2, -3, 5], vec![1, 0, 1]];
    let mut a = fixed_network();
    let mut b = fixed_network();
    assert_eq!(a.forward_sequence(&seq), b.forward_sequence(&seq));
    assert_eq!(a.forward(&[1, 2, 3]), b.forward(&[1, 2, 3]));
    assert_eq!(a.forward(&[1, 2, 3]), a.forward(&[1, 2, 3]));
}

#[test]
fn stateless_pass_ignores_state() {
    let mut network = fixed_network();
    let before = network.forward(&[1, 1, 1]);
    assert_eq!(before, vec![4, 7]);
    network.forward_sequence(&[vec![1, 1, 1], vec![3, 2, 1]]);
    assert_eq!(network.forward(&[1, 1, 1]), before);
}

#[test]
fn two_layer_stateful_run() {
    let first = Layer::new_with_neurons(vec![
        Neuron::new_with_weights(vec![1, 0], 0),
        Neuron::new_with_weights(vec![0, 1], 0),
    ]);
    let second = Layer::new_with_neurons(vec![Neuron::new_with_weights(vec![1, 1], 0)]);
    let mut network = NeuralNetwork::new_with_layers(vec![first, second]);
    // step 1: first layer [1, 2], second layer 3
    // step 2: first layer [1 + 1, 2 + 2] = [2, 4], second layer 6 + 3 = 9
    assert_eq!(network.forward_sequence(&[vec![1, 2], vec![1, 2]]), vec![vec![3], vec![9]]);
    assert_eq!(network.forward(&[1, 2]), vec![3]);
}

#[test]
fn network_of_one_width_passes_inputs_through() {
    let network = NeuralNetwork::new(&[4]);
    assert_eq!(network.layers().len(), 0);
    assert_eq!(network.forward(&[1, 2, 3, 4]), vec![1, 2, 3, 4]);
}

#[test]
fn empty_sequence_gives_no_outputs() {
    let mut network = fixed_network();
    let empty: Vec<Vec<i64>> = Vec::new();
    assert_eq!(network.forward_sequence(&empty), empty);
}

#[test]
fn message_features_and_processing() {
    let message = KafkaMessage::new(2, 30, 40);
    assert_eq!(message.features(), vec![2, 30, 40]);
    let network = fixed_network();
    // [5*2 + 30 - 80, 3*2 - 30 + 160 + 1]
    assert_eq!(network.process_message(&message), vec![-40, 137]);
}
