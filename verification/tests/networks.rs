use neural_nets::networks::{
    FeedForwardLayer, FeedForwardNeuron, NeuralNetwork, NeuralNetworkExt, Perceptron, ShapeError,
    StaticFeedForwardNetwork,
};
use neural_nets::utils::{ActFns, ActivationFn, Scalar, Sigmoid};

/// Single-precision floating point as the networks' scalar.
#[derive(Debug, Clone, Copy, PartialEq, PartialOrd)]
struct Real(f32);

impl Scalar for Real {
    fn zero_spec() -> Real {
        Real::zero()
    }

    fn one_spec() -> Real {
        Real::one()
    }

    fn add_spec(self, rhs: Real) -> Real {
        self.add(rhs)
    }

    fn mul_spec(self, rhs: Real) -> Real {
        self.mul(rhs)
    }

    fn neg_spec(self) -> Real {
        self.neg()
    }

    fn ge_spec(self, rhs: Real) -> bool {
        self.ge(rhs)
    }

    fn max_spec(self, rhs: Real) -> Real {
        self.max(rhs)
    }

    fn zero() -> Real {
        Real(0.0)
    }

    fn one() -> Real {
        Real(1.0)
    }

    fn add(self, rhs: Real) -> Real {
        Real(self.0 + rhs.0)
    }

    fn mul(self, rhs: Real) -> Real {
        Real(self.0 * rhs.0)
    }

    fn neg(self) -> Real {
        Real(-self.0)
    }

    fn ge(self, rhs: Real) -> bool {
        self.0 >= rhs.0
    }

    fn max(self, rhs: Real) -> Real {
        Real(self.0.max(rhs.0))
    }
}

impl ActivationFn<Real> for Sigmoid {
    fn activate_spec(&self, x: Real) -> Real {
        self.activate(x)
    }

    fn activate(&self, x: Real) -> Real {
        Real(1.0 / (1.0 + std::f32::consts::E.powf(-x.0)))
    }
}

#[test]
pub fn perceptron_sum() {
    let mut perceptron = Perceptron::new([Real(1.0), Real(1.0)], Real(0.0), ActFns::linear());
    let output = perceptron.feed(&[Real(1.0), Real(2.0)]);
    assert_eq!(output[0], Real(3.0));
}

#[test]
pub fn perceptron_doubler() {
    let mut perceptron = Perceptron::new([Real(2.0)], Real(0.0), ActFns::linear());
    let output = perceptron.feed(&[Real(2.0)]);
    assert_eq!(output[0], Real(4.0));
}

#[test]
pub fn perceptron_biases() {
    let mut perceptron = Perceptron::new([Real(1.0), Real(1.0)], Real(6.0), ActFns::linear());
    let output = perceptron.feed(&[Real(1.0), Real(2.0)]);
    assert_eq!(output[0], Real(9.0));
}

#[test]
pub fn perceptron_and_gate() {
    let mut perceptron =
        Perceptron::new([Real(1.0), Real(1.0)], Real(-1.5), ActFns::binary_step());

    let output = perceptron.feed(&[Real(1.0), Real(0.0)]);
    assert_eq!(output[0], Real(0.0), "True & False != False");

    let output = perceptron.feed(&[Real(0.0), Real(1.0)]);
    assert_eq!(output[0], Real(0.0), "False & True != False");

    let output = perceptron.feed(&[Real(0.0), Real(0.0)]);
    assert_eq!(output[0], Real(0.0), "False & False != False");

    let output = perceptron.feed(&[Real(1.0), Real(1.0)]);
    assert_eq!(output[0], Real(1.0), "True & True != True");
}

#[test]
pub fn perceptron_or_gate() {
    let mut perceptron =
        Perceptron::new([Real(1.0), Real(1.0)], Real(-0.5), ActFns::binary_step());

    let output = perceptron.feed(&[Real(1.0), Real(0.0)]);
    assert_eq!(output[0], Real(1.0), "True | False != True");

    let output = perceptron.feed(&[Real(0.0), Real(1.0)]);
    assert_eq!(output[0], Real(1.0), "False | True != True");

    let output = perceptron.feed(&[Real(1.0), Real(1.0)]);
    assert_eq!(output[0], Real(1.0), "True | True != True");

    let output = perceptron.feed(&[Real(0.0), Real(0.0)]);
    assert_eq!(output[0], Real(0.0), "False | False != False");
}

#[test]
pub fn feed_forward_xor() {
    let mut xor_network = StaticFeedForwardNetwork::new(
        FeedForwardLayer::new([
            FeedForwardNeuron::new([Real(1.0), Real(1.0)], Real(-0.5)),
            FeedForwardNeuron::new([Real(-1.0), Real(-1.0)], Real(1.5)),
        ]),
        [],
        FeedForwardLayer::new([FeedForwardNeuron::new([Real(1.0), Real(1.0)], Real(-1.5))]),
        ActFns::binary_step(),
    );

    let output = xor_network.feed(&[Real(1.0), Real(1.0)]);
    assert_eq!(output[0], Real(0.0), "True ^ True != False");

    let output = xor_network.feed(&[Real(0.0), Real(0.0)]);
    assert_eq!(output[0], Real(0.0), "False ^ False != False");

    let output = xor_network.feed(&[Real(1.0), Real(0.0)]);
    assert_eq!(output[0], Real(1.0), "False ^ True != True");

    let output = xor_network.feed(&[Real(0.0), Real(1.0)]);
    assert_eq!(output[0], Real(1.0), "True ^ False != True");
}

#[test]
fn and_then_doubling() {
    let mut network = Perceptron::new([Real(2.0)], Real(0.0), ActFns::linear())
        .and_then(Perceptron::new([Real(2.0)], Real(0.0), ActFns::linear()));
    assert_eq!(network.feed(&[Real(2.0)]), [Real(8.0)]);
}

#[test]
fn combine_doublers() {
    let perceptron = Perceptron::new([Real(2.0)], Real(0.0), ActFns::linear());
    let mut combined = perceptron.alongside::<1, 1, 2, 2, _>(perceptron).unwrap();
    assert_eq!(combined.feed(&[Real(1.0), Real(2.0)]), [Real(2.0), Real(4.0)]);
}

#[test]
fn combine_multipliers() {
    let mut perceptron = Perceptron::new([Real(2.0)], Real(0.0), ActFns::linear())
        .replicate_with::<1, 2, _>(Perceptron::new([Real(6.0)], Real(0.0), ActFns::linear()))
        .unwrap();
    assert_eq!(perceptron.feed(&[Real(1.0)]), [Real(2.0), Real(6.0)]);
}

#[test]
fn alongside_refuses_wrong_input_length() {
    let perceptron = Perceptron::new([Real(2.0)], Real(0.0), ActFns::linear());
    let combined = perceptron.alongside::<1, 1, 3, 2, _>(perceptron);
    assert_eq!(combined.err(), Some(ShapeError::Input { declared: 3, left: 1, right: 1 }));
}

#[test]
fn sigmoid_fixed_point() {
    assert_eq!(ActFns::sigmoid().activate(Real(0.0)), Real(0.5));
}

#[test]
fn perceptron_with_an_activation_of_the_scalar_type() {
    let mut perceptron = Perceptron::new([Real(1.0), Real(-1.0)], Real(0.0), ActFns::sigmoid());
    assert_eq!(perceptron.feed(&[Real(3.0), Real(3.0)]), [Real(0.5)]);
    let expected = 1.0 / (1.0 + std::f32::consts::E.powf(-2.0));
    assert_eq!(perceptron.feed(&[Real(3.0), Real(1.0)]), [Real(expected)]);
}
