use neural_nets::networks::{
    FeedForwardLayer, FeedForwardNeuron, NeuralNetwork, Perceptron, StaticFeedForwardNetwork,
};
use neural_nets::utils::{ActFns, Array, BinaryStep, LengthMismatch, Scalar};

/// Single-precision floating point as the networks' scalar.
#[derive(Debug, Clone, Copy, PartialEq, PartialOrd, Default)]
struct Real(f32);

impl Scalar for Real {
    fn zero_spec() -> Real {
        Real::zero()
    }

    fn one_spec() -> Real {
        Real::one()
    }

    fn add_spec(self, rhs: Real) -> Real {
        self.add(rhs)
    }

    fn mul_spec(self, rhs: Real) -> Real {
        self.mul(rhs)
    }

    fn neg_spec(self) -> Real {
        self.neg()
    }

    fn ge_spec(self, rhs: Real) -> bool {
        self.ge(rhs)
    }

    fn max_spec(self, rhs: Real) -> Real {
        self.max(rhs)
    }

    fn zero() -> Real {
        Real(0.0)
    }

    fn one() -> Real {
        Real(1.0)
    }

    fn add(self, rhs: Real) -> Real {
        Real(self.0 + rhs.0)
    }

    fn mul(self, rhs: Real) -> Real {
        Real(self.0 * rhs.0)
    }

    fn neg(self) -> Real {
        Real(-self.0)
    }

    fn ge(self, rhs: Real) -> bool {
        self.0 >= rhs.0
    }

    fn max(self, rhs: Real) -> Real {
        Real(self.0.max(rhs.0))
    }
}

fn reals<const N: usize>(values: [f32; N]) -> [Real; N] {
    values.map(Real)
}

fn neuron_to_plain<const PL: usize>(neuron: &FeedForwardNeuron<Real, PL>) -> (Vec<f32>, f32) {
    (neuron.weights().encode().iter().map(|r| r.0).collect(), neuron.bias().0)
}

fn neuron_from_plain<const PL: usize>(plain: &(Vec<f32>, f32)) -> FeedForwardNeuron<Real, PL> {
    let weights: Vec<Real> = plain.0.iter().map(|x| Real(*x)).collect();
    FeedForwardNeuron::new(Array::<Real, PL>::decode(&weights).unwrap().into_inner(), Real(plain.1))
}

fn layer_to_plain<const S: usize, const PL: usize>(
    layer: &FeedForwardLayer<Real, S, PL>,
) -> Vec<(Vec<f32>, f32)> {
    layer.neurons().iter().map(neuron_to_plain).collect()
}

fn layer_from_plain<const S: usize, const PL: usize>(
    plain: &Vec<(Vec<f32>, f32)>,
) -> FeedForwardLayer<Real, S, PL> {
    let neurons: Vec<FeedForwardNeuron<Real, PL>> = plain.iter().map(neuron_from_plain).collect();
    FeedForwardLayer::new(neurons.try_into().unwrap())
}

#[test]
fn flatten_gives_weights_then_bias() {
    let perceptron = Perceptron::new(reals([1.0, 2.0, 3.0]), Real(-0.5), ActFns::binary_step());
    assert_eq!(perceptron.flatten(), vec![Real(1.0), Real(2.0), Real(3.0), Real(-0.5)]);
}

#[test]
fn flatten_without_weights_gives_the_bias() {
    let perceptron = Perceptron::new(reals([]), Real(4.0), ActFns::linear());
    assert_eq!(perceptron.flatten(), vec![Real(4.0)]);
}

#[test]
fn unflatten_reads_weights_then_bias() {
    let buffer = vec![Real(1.0), Real(2.0), Real(3.0), Real(-0.5)];
    let perceptron = Perceptron::<Real, 3, _>::unflatten(&buffer, ActFns::relu()).unwrap();
    assert_eq!(perceptron.weights().into_inner(), reals([1.0, 2.0, 3.0]));
    assert_eq!(*perceptron.bias(), Real(-0.5));
    assert_eq!(*perceptron.activation_function(), ActFns::relu());
    assert_eq!(perceptron, Perceptron::new(reals([1.0, 2.0, 3.0]), Real(-0.5), ActFns::relu()));
}

#[test]
fn unflatten_refuses_another_length() {
    let buffer = vec![Real(1.0), Real(2.0), Real(3.0)];
    assert_eq!(
        Perceptron::<Real, 3, _>::unflatten(&buffer, ActFns::relu()),
        Err(LengthMismatch { expected: 4, found: 3 })
    );
    assert_eq!(
        Perceptron::<Real, 1, _>::unflatten(&buffer, ActFns::relu()),
        Err(LengthMismatch { expected: 2, found: 3 })
    );
    assert_eq!(
        Perceptron::<Real, 0, _>::unflatten(&vec![], ActFns::relu()),
        Err(LengthMismatch { expected: 1, found: 0 })
    );
}

#[test]
fn unflatten_undoes_flatten() {
    let perceptron = Perceptron::new(reals([0.25, -8.0]), Real(1.5), ActFns::leaky_relu(Real(0.1)));
    let rebuilt =
        Perceptron::<Real, 2, _>::unflatten(&perceptron.flatten(), ActFns::leaky_relu(Real(0.1)));
    assert_eq!(rebuilt, Ok(perceptron));
}

#[test]
fn unflatten_undoes_flatten_on_integers() {
    let perceptron = Perceptron::new([3i64, -4, 5], 6, ActFns::linear());
    assert_eq!(perceptron.flatten(), vec![3, -4, 5, 6]);
    assert_eq!(
        Perceptron::<i64, 3, _>::unflatten(&perceptron.flatten(), ActFns::linear()),
        Ok(perceptron)
    );
}

#[test]
fn unflattened_perceptron_feeds_like_the_first() {
    let mut perceptron = Perceptron::new(reals([1.0, 1.0]), Real(-1.5), ActFns::binary_step());
    let mut rebuilt =
        Perceptron::<Real, 2, _>::unflatten(&perceptron.flatten(), ActFns::binary_step()).unwrap();
    assert_eq!(rebuilt.feed(&reals([1.0, 1.0])), perceptron.feed(&reals([1.0, 1.0])));
    assert_eq!(rebuilt.feed(&reals([1.0, 0.0])), [Real(0.0)]);
}

#[test]
pub fn save_perceptron() {
    let perceptron = Perceptron::new(reals([1.0, 1.0]), Real(-0.5), ActFns::binary_step());
    let plain: Vec<f32> = perceptron.flatten().iter().map(|r| r.0).collect();
    let string = serde_json::to_string(&plain).unwrap();
    assert_eq!(string, "[1.0,1.0,-0.5]");
    let read: Vec<f32> = serde_json::from_str(&string).unwrap();
    let buffer: Vec<Real> = read.into_iter().map(Real).collect();
    let new_perceptron = Perceptron::unflatten(&buffer, ActFns::binary_step()).unwrap();
    assert_eq!(perceptron, new_perceptron);
}

#[test]
pub fn save_xor_network() {
    let xor_network = StaticFeedForwardNetwork::new(
        FeedForwardLayer::new([
            FeedForwardNeuron::new(reals([1.0, 1.0]), Real(-0.5)),
            FeedForwardNeuron::new(reals([-1.0, -1.0]), Real(1.5)),
        ]),
        [],
        FeedForwardLayer::new([FeedForwardNeuron::new(reals([1.0, 1.0]), Real(-1.5))]),
        ActFns::binary_step(),
    );
    let plain = (
        layer_to_plain(xor_network.first_hidden_layer()),
        xor_network
            .intermediate_hidden_layers()
            .iter()
            .map(layer_to_plain)
            .collect::<Vec<Vec<(Vec<f32>, f32)>>>(),
        layer_to_plain(xor_network.output_layer()),
    );
    let string = serde_json::to_string(&plain).unwrap();
    assert_eq!(string, "[[[[1.0,1.0],-0.5],[[-1.0,-1.0],1.5]],[],[[[1.0,1.0],-1.5]]]");
    let read: (Vec<(Vec<f32>, f32)>, Vec<Vec<(Vec<f32>, f32)>>, Vec<(Vec<f32>, f32)>) =
        serde_json::from_str(&string).unwrap();
    let intermediate: Vec<FeedForwardLayer<Real, 2, 2>> =
        read.1.iter().map(layer_from_plain).collect();
    let new_xor_network: StaticFeedForwardNetwork<Real, 2, 2, 0, 1, BinaryStep> =
        StaticFeedForwardNetwork::new(
            layer_from_plain(&read.0),
            Array::<FeedForwardLayer<Real, 2, 2>, 0>::decode(&intermediate).unwrap().into_inner(),
            layer_from_plain(&read.2),
            *xor_network.activation_function(),
        );
    assert_eq!(xor_network, new_xor_network);
}
