use vstd::prelude::*;
use crate::network::{NeuralNetwork, network_outputs};

verus! {

/// A cursor position on screen.
#[derive(Debug, Clone, Copy, PartialEq, Eq, Structural)]
pub struct CursorPosition {
    pub x: u32,
    pub y: u32,
}

/// One decoded message of the inbound stream.
#[derive(Debug, Clone, Copy, PartialEq, Eq, Structural)]
pub struct KafkaMessage {
    pub num_windows: u32,
    pub cursor_position: CursorPosition,
}

impl KafkaMessage {
    /// The feature vector that a message stands for: the window count, then the
    /// cursor's `x` and `y`.
    pub open spec fn feature_seq(self) -> Seq<i64> {
        seq![self.num_windows as i64, self.cursor_position.x as i64, self.cursor_position.y as i64]
    }

    pub fn new(num_windows: u32, x: u32, y: u32) -> (r: KafkaMessage)
        ensures
            r == (KafkaMessage { num_windows, cursor_position: CursorPosition { x, y } }),
    {
        KafkaMessage { num_windows, cursor_position: CursorPosition { x, y } }
    }

    pub fn features(&self) -> (r: Vec<i64>)
        ensures
            r@ == self.feature_seq(),
    {
        let r: Vec<i64> = vec![
            self.num_windows as i64,
            self.cursor_position.x as i64,
            self.cursor_position.y as i64,
        ];
        assert(r@ =~= self.feature_seq());
        r
    }
}

impl NeuralNetwork {
    /// What the stream does with one message: a stateless pass over its features.
    pub fn process_message(&self, message: &KafkaMessage) -> (r: Vec<i64>)
        ensures
            r@ == network_outputs(self@, message.feature_seq()),
    {
        let input = message.features();
        self.forward(input.as_slice())
    }
}

} // verus!
