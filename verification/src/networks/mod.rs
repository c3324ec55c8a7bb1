//! The network abstraction, the primitive networks and the combinators.

use vstd::prelude::*;

mod combinators;
mod neuron;
mod perceptron;
mod static_feed_forward;
pub use combinators::{
    alongside_mismatch, lemma_alongside_feeds_each_its_part,
    lemma_and_then_feeds_left_then_right, lemma_replicate_feeds_both_the_input,
    replicate_mismatch, AlongsideNetwork, AndThenNetwork, ReplicateInputNetwork, ShapeError,
};
pub use neuron::{dot, neuron_output, weigh, weighted_sum};
pub use perceptron::{flattened, flattened_len, unflattened, Perceptron, PerceptronView};
pub use static_feed_forward::{
    default_layer, default_neuron, layer_output, layer_shape, layers_output, network_output,
    FeedForwardLayer, FeedForwardNeuron, FeedForwardView, NeuronView, StaticFeedForwardNetwork,
};

verus! {

/// A network with `I` inputs and `O` outputs.
///
/// The pair of lengths is all that the combinators know of a network.
/// Feeding is a function of the network and the input: `feed_spec` says what
/// comes out, and a call leaves the network as it was.
pub trait NeuralNetwork<const I: usize, const O: usize>: Sized {
    /// The numbers the network takes and gives.
    type Scalar;

    /// The lengths that the network's type declares fit its parts. Every
    /// network that this library's constructors return is well formed.
    spec fn wf(&self) -> bool;

    /// The outputs for `input`, in order.
    spec fn feed_spec(&self, input: Seq<Self::Scalar>) -> Seq<Self::Scalar>;

    /// On `I` inputs a network gives `O` outputs.
    proof fn lemma_feed_len(&self, input: Seq<Self::Scalar>)
        requires
            self.wf(),
            input.len() == I,
        ensures
            self.feed_spec(input).len() == O,
    ;

    /// Evaluates the network on `arr`.
    fn feed(&mut self, arr: &[Self::Scalar; I]) -> (out: [Self::Scalar; O])
        requires
            old(self).wf(),
        ensures
            out@ == old(self).feed_spec(arr@),
            *final(self) == *old(self),
    ;
}

/// The operators that build a network from two.
///
/// Every network has them. A sequence is well shaped by its types alone; for
/// the other two the caller declares the lengths of the result, and a
/// declared length that is not the sum of the parts' lengths is refused when
/// the network is built.
pub trait NeuralNetworkExt<const I: usize, const O: usize>: NeuralNetwork<I, O> {
    /// `self`, then `right` on what `self` gives.
    fn and_then<const O2: usize, R: NeuralNetwork<O, O2, Scalar = Self::Scalar>>(
        self,
        right: R,
    ) -> (n: AndThenNetwork<I, O, O2, Self, R>)
        ensures
            n.left() == self,
            n.right() == right,
    {
        AndThenNetwork::new(self, right)
    }

    /// `self` on the first `I` of `IS` inputs and `right` on the other `I2`;
    /// the `OS` outputs are those of `self` followed by those of `right`.
    fn alongside<
        const I2: usize,
        const O2: usize,
        const IS: usize,
        const OS: usize,
        R: NeuralNetwork<I2, O2, Scalar = Self::Scalar>,
    >(self, right: R) -> (r: Result<AlongsideNetwork<I, I2, O, O2, IS, OS, Self, R>, ShapeError>)
        ensures
            match r {
                Ok(n) => alongside_mismatch(I, I2, O, O2, IS, OS) is None && n.n1() == self
                    && n.n2() == right,
                Err(e) => alongside_mismatch(I, I2, O, O2, IS, OS) == Some(e),
            },
    {
        AlongsideNetwork::new(self, right)
    }

    /// `self` and `right` on the same `I` inputs; the `OS` outputs are those
    /// of `self` followed by those of `right`.
    fn replicate_with<
        const O2: usize,
        const OS: usize,
        R: NeuralNetwork<I, O2, Scalar = Self::Scalar>,
    >(self, right: R) -> (r: Result<ReplicateInputNetwork<I, O, O2, OS, Self, R>, ShapeError>)
        ensures
            match r {
                Ok(n) => replicate_mismatch(O, O2, OS) is None && n.n1() == self && n.n2()
                    == right,
                Err(e) => replicate_mismatch(O, O2, OS) == Some(e),
            },
    {
        ReplicateInputNetwork::new(self, right)
    }
}

impl<const I: usize, const O: usize, N: NeuralNetwork<I, O>> NeuralNetworkExt<I, O> for N {

}

} // verus!
