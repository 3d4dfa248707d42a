// A layered forward-propagation engine whose neurons may carry a scalar state
// from one input to the next, with the model of a stream message it consumes.
pub mod neuron;
pub mod layer;
pub mod network;
pub mod kafka;
pub mod lemmas;
