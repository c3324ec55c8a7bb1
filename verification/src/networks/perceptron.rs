use super::neuron::{neuron_output, weigh};
use super::NeuralNetwork;
use crate::utils::{ActivationFn, Array, LengthMismatch, Scalar};
use vstd::prelude::*;

verus! {

/// A single neuron: `I` weights, a bias and an activation function.
#[derive(Debug, Clone, Copy, PartialEq, PartialOrd)]
pub struct Perceptron<T, const I: usize, F> {
    weights: Array<T, I>,
    bias: T,
    activation_function: F,
}

/// What a perceptron is made of: its weights in input order, its bias and
/// its activation function.
pub struct PerceptronView<T, F> {
    pub weights: Seq<T>,
    pub bias: T,
    pub activation_function: F,
}

impl<T, const I: usize, F> View for Perceptron<T, I, F> {
    type V = PerceptronView<T, F>;

    closed spec fn view(&self) -> PerceptronView<T, F> {
        PerceptronView {
            weights: self.weights@,
            bias: self.bias,
            activation_function: self.activation_function,
        }
    }
}

/// A perceptron's parameters as one sequence: the weights in order, then
/// the bias.
pub open spec fn flattened<T, F>(p: PerceptronView<T, F>) -> Seq<T> {
    p.weights.push(p.bias)
}

/// The perceptron whose parameters `buffer` holds: all elements but the
/// last are the weights, and the last is the bias.
pub open spec fn unflattened<T, F>(buffer: Seq<T>, activation_function: F) -> PerceptronView<T, F> {
    PerceptronView { weights: buffer.drop_last(), bias: buffer.last(), activation_function }
}

/// The length that [`Perceptron::unflatten`] reports as expected for `i`
/// weights: `i + 1`, or the largest `usize` where that does not fit.
pub open spec fn flattened_len(i: usize) -> usize {
    if i < usize::MAX {
        (i + 1) as usize
    } else {
        usize::MAX
    }
}

impl<T, const I: usize, F> Perceptron<T, I, F> {
    /// The perceptron with the given weights, bias and activation function.
    pub fn new(weights: [T; I], bias: T, activation_function: F) -> (p: Self)
        ensures
            p@ == (PerceptronView { weights: weights@, bias, activation_function }),
    {
        Perceptron { weights: Array::new(weights), bias, activation_function }
    }

    /// The weights, in input order.
    pub fn weights(&self) -> (w: &Array<T, I>)
        ensures
            w@ == self@.weights,
    {
        &self.weights
    }

    /// The bias, which is added after the last product.
    pub fn bias(&self) -> (b: &T)
        ensures
            *b == self@.bias,
    {
        &self.bias
    }

    /// The function applied to the weighted sum.
    pub fn activation_function(&self) -> (f: &F)
        ensures
            *f == self@.activation_function,
    {
        &self.activation_function
    }

    /// A perceptron has `I` weights.
    pub proof fn lemma_weights_len(self)
        ensures
            self@.weights.len() == I,
    {
        self.weights.lemma_len();
    }

    /// Two perceptrons made of the same parts are the same perceptron.
    pub proof fn lemma_view_injective(self, other: Self)
        requires
            self@ == other@,
        ensures
            self == other,
    {
        self.weights.lemma_view_injective(other.weights);
    }

    /// Unflattening what a perceptron flattens to, with the perceptron's own
    /// activation function, gives the perceptron back: the buffer has the
    /// length that unflattening asks for, it holds the perceptron's parts,
    /// and no other perceptron has those parts.
    pub proof fn lemma_unflatten_flatten(self)
        ensures
            flattened(self@).len() == I + 1,
            unflattened(flattened(self@), self@.activation_function) == self@,
            forall|rebuilt: Self|
                rebuilt@ == unflattened(flattened(self@), self@.activation_function) ==> rebuilt
                    == self,
    {
        self.weights.lemma_len();
        assert(flattened(self@).drop_last() =~= self@.weights);
        assert forall|rebuilt: Self|
            rebuilt@ == unflattened(
                flattened(self@),
                self@.activation_function,
            ) implies rebuilt == self by {
            rebuilt.lemma_view_injective(self);
        }
    }
}

impl<T: Copy, const I: usize, F> Perceptron<T, I, F> {
    /// The parameters in one buffer: the weights in index order, then the
    /// bias.
    pub fn flatten(&self) -> (buffer: Vec<T>)
        requires
            I < usize::MAX,
        ensures
            buffer@ == flattened(self@),
    {
        let mut buffer = self.weights.encode();
        buffer.push(self.bias);
        buffer
    }

    /// The perceptron whose parameters `buffer` holds, with the activation
    /// function given.
    ///
    /// Succeeds exactly on buffers of `I + 1` elements; another length is
    /// refused with both lengths.
    pub fn unflatten(buffer: &Vec<T>, activation_function: F) -> (r: Result<Self, LengthMismatch>)
        ensures
            match r {
                Ok(p) => buffer@.len() == I + 1 && p@ == unflattened(
                    buffer@,
                    activation_function,
                ),
                Err(e) => buffer@.len() != I + 1 && e == (LengthMismatch {
                    expected: flattened_len(I),
                    found: buffer@.len() as usize,
                }),
            },
    {
        if I == usize::MAX {
            return Err(LengthMismatch { expected: usize::MAX, found: buffer.len() });
        }
        if buffer.len() != I + 1 {
            return Err(LengthMismatch { expected: I + 1, found: buffer.len() });
        }
        let bias = buffer[I];
        let mut weights = Array::filled(bias);
        let mut idx: usize = 0;
        while idx < I
            invariant
                idx <= I,
                buffer@.len() == I + 1,
                weights@.len() == I,
                forall|i: int| 0 <= i < idx ==> weights@[i] == buffer@[i],
            decreases I - idx,
        {
            weights.set(idx, buffer[idx]);
            idx += 1;
        }
        assert(weights@ =~= buffer@.drop_last());
        Ok(Perceptron { weights, bias, activation_function })
    }
}

impl<T: Scalar, const I: usize, F: ActivationFn<T>> NeuralNetwork<I, 1> for Perceptron<T, I, F> {
    type Scalar = T;

    open spec fn wf(&self) -> bool {
        true
    }

    open spec fn feed_spec(&self, input: Seq<T>) -> Seq<T> {
        seq![neuron_output(input, self@.weights, self@.bias, self@.activation_function)]
    }

    proof fn lemma_feed_len(&self, input: Seq<T>) {
    }

    fn feed(&mut self, arr: &[T; I]) -> (out: [T; 1]) {
        let sum = weigh(arr, &self.weights, self.bias);
        let out = [self.activation_function.activate(sum)];
        assert(out@ =~= self.feed_spec(arr@));
        out
    }
}

} // verus!
