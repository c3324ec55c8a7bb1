use super::neuron::{neuron_output, weigh};
use super::NeuralNetwork;
use crate::utils::{ActivationFn, Array, Scalar};
use vstd::prelude::*;

verus! {

/// A neuron of a layer: `PL` weights, one for each output of the previous
/// layer, and a bias. Its activation function is the network's.
#[derive(Debug, Clone, Copy, PartialEq, PartialOrd)]
pub struct FeedForwardNeuron<T, const PL: usize> {
    weights: Array<T, PL>,
    bias: T,
}

/// `S` neurons that all read the `PL` outputs of the previous layer.
#[derive(Debug, Clone, Copy, PartialEq, PartialOrd)]
pub struct FeedForwardLayer<T, const S: usize, const PL: usize> {
    neurons: Array<FeedForwardNeuron<T, PL>, S>,
}

/// A stack of layers: a first hidden layer of `HN` neurons on `I` inputs,
/// `IHLC` further hidden layers of `HN` neurons each, and an output layer of
/// `O` neurons. One activation function serves every neuron.
#[derive(Debug, Clone, Copy, PartialEq, PartialOrd)]
pub struct StaticFeedForwardNetwork<
    T,
    const I: usize,
    const HN: usize,
    const IHLC: usize,
    const O: usize,
    F,
> {
    first_hidden_layer: FeedForwardLayer<T, HN, I>,
    intermediate_hidden_layers: Array<FeedForwardLayer<T, HN, HN>, IHLC>,
    output_layer: FeedForwardLayer<T, O, HN>,
    activation_function: F,
}

/// What a neuron is made of: its weights in input order and its bias.
pub struct NeuronView<T> {
    pub weights: Seq<T>,
    pub bias: T,
}

/// What a network is made of: each layer as the sequence of its neurons, and
/// the activation function that all of them share.
pub struct FeedForwardView<T, F> {
    pub first_hidden_layer: Seq<NeuronView<T>>,
    pub intermediate_hidden_layers: Seq<Seq<NeuronView<T>>>,
    pub output_layer: Seq<NeuronView<T>>,
    pub activation_function: F,
}

/// What a layer gives on `input`: each neuron's output on that same input,
/// in the order of the neurons.
pub open spec fn layer_output<T: Scalar, F: ActivationFn<T>>(
    layer: Seq<NeuronView<T>>,
    input: Seq<T>,
    activation_fn: F,
) -> Seq<T> {
    Seq::new(
        layer.len(),
        |i: int| neuron_output(input, layer[i].weights, layer[i].bias, activation_fn),
    )
}

/// What the first `n` of `layers` make of `input`, each layer reading the
/// outputs of the one before it.
pub open spec fn layers_output<T: Scalar, F: ActivationFn<T>>(
    layers: Seq<Seq<NeuronView<T>>>,
    input: Seq<T>,
    activation_fn: F,
    n: nat,
) -> Seq<T>
    decreases n,
{
    if n == 0 {
        input
    } else {
        layer_output(
            layers[n - 1],
            layers_output(layers, input, activation_fn, (n - 1) as nat),
            activation_fn,
        )
    }
}

/// What a network gives on `input`: the first hidden layer reads the input,
/// every intermediate layer reads the layer before it, and the output layer
/// reads the last hidden one.
pub open spec fn network_output<T: Scalar, F: ActivationFn<T>>(
    network: FeedForwardView<T, F>,
    input: Seq<T>,
) -> Seq<T> {
    layer_output(
        network.output_layer,
        layers_output(
            network.intermediate_hidden_layers,
            layer_output(network.first_hidden_layer, input, network.activation_function),
            network.activation_function,
            network.intermediate_hidden_layers.len(),
        ),
        network.activation_function,
    )
}

/// A layer of `s` neurons with `pl` weights each.
pub open spec fn layer_shape<T>(layer: Seq<NeuronView<T>>, s: usize, pl: usize) -> bool {
    &&& layer.len() == s
    &&& forall|i: int| 0 <= i < s ==> (#[trigger] layer[i]).weights.len() == pl
}

/// A neuron with `pl` weights whose weights and bias are default values.
pub open spec fn default_neuron<T: Default>(neuron: NeuronView<T>, pl: usize) -> bool {
    &&& neuron.weights.len() == pl
    &&& forall|i: int| 0 <= i < pl ==> call_ensures(T::default, (), #[trigger] neuron.weights[i])
    &&& call_ensures(T::default, (), neuron.bias)
}

/// A layer of `s` default neurons with `pl` weights each.
pub open spec fn default_layer<T: Default>(layer: Seq<NeuronView<T>>, s: usize, pl: usize) -> bool {
    &&& layer.len() == s
    &&& forall|i: int| 0 <= i < s ==> default_neuron(#[trigger] layer[i], pl)
}

impl<T, const PL: usize> View for FeedForwardNeuron<T, PL> {
    type V = NeuronView<T>;

    closed spec fn view(&self) -> NeuronView<T> {
        NeuronView { weights: self.weights@, bias: self.bias }
    }
}

impl<T, const S: usize, const PL: usize> View for FeedForwardLayer<T, S, PL> {
    type V = Seq<NeuronView<T>>;

    closed spec fn view(&self) -> Seq<NeuronView<T>> {
        Seq::new(S as nat, |i: int| self.neurons@[i]@)
    }
}

impl<T, const I: usize, const HN: usize, const IHLC: usize, const O: usize, F> View for StaticFeedForwardNetwork<
    T,
    I,
    HN,
    IHLC,
    O,
    F,
> {
    type V = FeedForwardView<T, F>;

    closed spec fn view(&self) -> FeedForwardView<T, F> {
        FeedForwardView {
            first_hidden_layer: self.first_hidden_layer@,
            intermediate_hidden_layers: Seq::new(
                IHLC as nat,
                |i: int| self.intermediate_hidden_layers@[i]@,
            ),
            output_layer: self.output_layer@,
            activation_function: self.activation_function,
        }
    }
}

impl<T, const PL: usize> FeedForwardNeuron<T, PL> {
    /// The neuron with the given weights and bias.
    pub fn new(weights: [T; PL], bias: T) -> (n: Self)
        ensures
            n@ == (NeuronView { weights: weights@, bias }),
    {
        FeedForwardNeuron { weights: Array::new(weights), bias }
    }

    /// The weights, in input order.
    pub fn weights(&self) -> (w: &Array<T, PL>)
        ensures
            w@ == self@.weights,
    {
        &self.weights
    }

    /// The bias, which is added after the last product.
    pub fn bias(&self) -> (b: &T)
        ensures
            *b == self@.bias,
    {
        &self.bias
    }

    /// A neuron has `PL` weights.
    pub proof fn lemma_weights_len(self)
        ensures
            self@.weights.len() == PL,
    {
        self.weights.lemma_len();
    }
}

impl<T: Copy + Default, const PL: usize> Default for FeedForwardNeuron<T, PL> {
    /// The neuron whose weights and bias are default values of `T`.
    fn default() -> (n: Self)
        ensures
            default_neuron(n@, PL),
    {
        let n = FeedForwardNeuron { weights: Array::default(), bias: T::default() };
        proof {
            n.weights.lemma_len();
        }
        n
    }
}

impl<T: Copy + Default, const S: usize, const PL: usize> Default for FeedForwardLayer<T, S, PL> {
    /// The layer whose neurons are all the same default neuron.
    fn default() -> (l: Self)
        ensures
            default_layer(l@, S, PL),
    {
        let l = FeedForwardLayer { neurons: Array::default() };
        proof {
            l.neurons.lemma_len();
        }
        l
    }
}

impl<
    T: Copy + Default,
    const I: usize,
    const HN: usize,
    const IHLC: usize,
    const O: usize,
    F: Default,
> Default for StaticFeedForwardNetwork<T, I, HN, IHLC, O, F> {
    /// The network whose layers are all default layers, with the default
    /// activation function.
    fn default() -> (n: Self)
        ensures
            default_layer(n@.first_hidden_layer, HN, I),
            n@.intermediate_hidden_layers.len() == IHLC,
            forall|i: int|
                0 <= i < IHLC ==> default_layer(#[trigger] n@.intermediate_hidden_layers[i], HN, HN),
            default_layer(n@.output_layer, O, HN),
            call_ensures(F::default, (), n@.activation_function),
    {
        StaticFeedForwardNetwork {
            first_hidden_layer: FeedForwardLayer::default(),
            intermediate_hidden_layers: Array::default(),
            output_layer: FeedForwardLayer::default(),
            activation_function: F::default(),
        }
    }
}

impl<T: Scalar, const PL: usize> FeedForwardNeuron<T, PL> {
    /// The neuron's output on `input`: the weighted sum, activated.
    pub fn feed<F: ActivationFn<T>>(&self, input: &[T; PL], activation_fn: F) -> (out: T)
        ensures
            out == neuron_output(input@, self@.weights, self@.bias, activation_fn),
    {
        let sum = weigh(input, &self.weights, self.bias);
        activation_fn.activate(sum)
    }
}

impl<T, const S: usize, const PL: usize> FeedForwardLayer<T, S, PL> {
    /// The layer of the given neurons, in their order.
    pub fn new(neurons: [FeedForwardNeuron<T, PL>; S]) -> (l: Self)
        ensures
            l@ == Seq::new(S as nat, |i: int| neurons@[i]@),
    {
        let l = FeedForwardLayer { neurons: Array::new(neurons) };
        assert(l@ =~= Seq::new(S as nat, |i: int| neurons@[i]@));
        l
    }

    /// The neurons, in output order.
    pub fn neurons(&self) -> (n: &Array<FeedForwardNeuron<T, PL>, S>)
        ensures
            n@.len() == S,
            forall|i: int| 0 <= i < S ==> (#[trigger] n@[i])@ == self@[i],
    {
        proof {
            self.neurons.lemma_len();
        }
        &self.neurons
    }

    /// A layer has `S` neurons with `PL` weights each.
    pub proof fn lemma_shape(self)
        ensures
            layer_shape(self@, S, PL),
    {
        self.neurons.lemma_len();
        assert forall|i: int| 0 <= i < S implies (#[trigger] self@[i]).weights.len() == PL by {
            self.neurons@[i].lemma_weights_len();
        }
    }
}

impl<T: Scalar, const S: usize, const PL: usize> FeedForwardLayer<T, S, PL> {
    /// The layer's outputs on `input`, one for each neuron, in the order of
    /// the neurons.
    pub fn feed<F: ActivationFn<T>>(&self, input: &[T; PL], activation_fn: F) -> (list: [T; S])
        ensures
            list@ == layer_output(self@, input@, activation_fn),
    {
        let mut list: [T; S] = [T::zero();S];
        let mut idx: usize = 0;
        proof {
            self.neurons.lemma_len();
        }
        while idx < S
            invariant
                idx <= S,
                self.neurons@.len() == S,
                forall|i: int|
                    0 <= i < idx ==> list@[i] == neuron_output(
                        input@,
                        self@[i].weights,
                        self@[i].bias,
                        activation_fn,
                    ),
            decreases S - idx,
        {
            list[idx] = self.neurons.get(idx).feed(input, activation_fn);
            idx += 1;
        }
        assert(list@ =~= layer_output(self@, input@, activation_fn));
        list
    }
}

impl<
    T,
    const I: usize,
    const HN: usize,
    const IHLC: usize,
    const O: usize,
    F,
> StaticFeedForwardNetwork<T, I, HN, IHLC, O, F> {
    /// The network of the given layers, whose neurons all use
    /// `activation_function`.
    pub fn new(
        first_hidden_layer: FeedForwardLayer<T, HN, I>,
        intermediate_hidden_layers: [FeedForwardLayer<T, HN, HN>; IHLC],
        output_layer: FeedForwardLayer<T, O, HN>,
        activation_function: F,
    ) -> (n: Self)
        ensures
            n@ == (FeedForwardView {
                first_hidden_layer: first_hidden_layer@,
                intermediate_hidden_layers: Seq::new(
                    IHLC as nat,
                    |i: int| intermediate_hidden_layers@[i]@,
                ),
                output_layer: output_layer@,
                activation_function,
            }),
    {
        let n = StaticFeedForwardNetwork {
            first_hidden_layer,
            intermediate_hidden_layers: Array::new(intermediate_hidden_layers),
            output_layer,
            activation_function,
        };
        assert(n@.intermediate_hidden_layers =~= Seq::new(
            IHLC as nat,
            |i: int| intermediate_hidden_layers@[i]@,
        ));
        n
    }

    /// The layer that reads the network's input.
    pub fn first_hidden_layer(&self) -> (l: &FeedForwardLayer<T, HN, I>)
        ensures
            l@ == self@.first_hidden_layer,
    {
        &self.first_hidden_layer
    }

    /// The hidden layers after the first, in the order in which they are
    /// evaluated.
    pub fn intermediate_hidden_layers(&self) -> (l: &Array<FeedForwardLayer<T, HN, HN>, IHLC>)
        ensures
            l@.len() == IHLC,
            forall|i: int| 0 <= i < IHLC ==> (#[trigger] l@[i])@ == self@.intermediate_hidden_layers[i],
    {
        proof {
            self.intermediate_hidden_layers.lemma_len();
        }
        &self.intermediate_hidden_layers
    }

    /// The layer that gives the network's output.
    pub fn output_layer(&self) -> (l: &FeedForwardLayer<T, O, HN>)
        ensures
            l@ == self@.output_layer,
    {
        &self.output_layer
    }

    /// The function that every neuron applies to its weighted sum.
    pub fn activation_function(&self) -> (f: &F)
        ensures
            *f == self@.activation_function,
    {
        &self.activation_function
    }

    /// A network has `HN` neurons with `I` weights each in its first hidden
    /// layer, `IHLC` intermediate layers of `HN` neurons with `HN` weights
    /// each, and `O` output neurons with `HN` weights each.
    pub proof fn lemma_shape(self)
        ensures
            layer_shape(self@.first_hidden_layer, HN, I),
            self@.intermediate_hidden_layers.len() == IHLC,
            forall|i: int|
                0 <= i < IHLC ==> layer_shape(#[trigger] self@.intermediate_hidden_layers[i], HN, HN),
            layer_shape(self@.output_layer, O, HN),
    {
        self.first_hidden_layer.lemma_shape();
        self.output_layer.lemma_shape();
        self.intermediate_hidden_layers.lemma_len();
        assert forall|i: int| 0 <= i < IHLC implies layer_shape(
            #[trigger] self@.intermediate_hidden_layers[i],
            HN,
            HN,
        ) by {
            self.intermediate_hidden_layers@[i].lemma_shape();
        }
    }
}

impl<
    T: Scalar,
    const I: usize,
    const HN: usize,
    const IHLC: usize,
    const O: usize,
    F: ActivationFn<T>,
> NeuralNetwork<I, O> for StaticFeedForwardNetwork<T, I, HN, IHLC, O, F> {
    type Scalar = T;

    open spec fn wf(&self) -> bool {
        true
    }

    open spec fn feed_spec(&self, input: Seq<T>) -> Seq<T> {
        network_output(self@, input)
    }

    proof fn lemma_feed_len(&self, input: Seq<T>) {
        self.lemma_shape();
    }

    fn feed(&mut self, arr: &[T; I]) -> (out: [T; O]) {
        let mut array = self.first_hidden_layer.feed(arr, self.activation_function);
        let mut idx: usize = 0;
        proof {
            self.intermediate_hidden_layers.lemma_len();
        }
        while idx < IHLC
            invariant
                idx <= IHLC,
                *self == *old(self),
                self.intermediate_hidden_layers@.len() == IHLC,
                array@ == layers_output(
                    self@.intermediate_hidden_layers,
                    layer_output(self@.first_hidden_layer, arr@, self@.activation_function),
                    self@.activation_function,
                    idx as nat,
                ),
            decreases IHLC - idx,
        {
            array = self.intermediate_hidden_layers.get(idx).feed(&array, self.activation_function);
            idx += 1;
        }
        self.output_layer.feed(&array, self.activation_function)
    }
}

} // verus!
