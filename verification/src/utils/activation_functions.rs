use super::scalar::Scalar;
use vstd::prelude::*;

verus! {

/// A pure transform from one scalar to one scalar.
///
/// A value of an implementing type is a tag, with its parameters where it has
/// any; `activate_spec` says what the transform returns.
pub trait ActivationFn<T>: Copy {
    /// The value of the function at `x`.
    spec fn activate_spec(&self, x: T) -> T;

    /// Evaluates the function at `x`.
    fn activate(&self, x: T) -> (y: T)
        ensures
            y == self.activate_spec(x),
    ;
}

/// `x`
#[derive(Debug, Clone, Copy, PartialEq, Eq, Structural, PartialOrd, Ord, Hash, Default)]
pub struct Linear;

impl<T: Scalar> ActivationFn<T> for Linear {
    open spec fn activate_spec(&self, x: T) -> T {
        x
    }

    fn activate(&self, x: T) -> (y: T) {
        x
    }
}

/// `1` if `x >= 0`, else `0`
#[derive(Debug, Clone, Copy, PartialEq, Eq, Structural, PartialOrd, Ord, Hash, Default)]
pub struct BinaryStep;

impl<T: Scalar> ActivationFn<T> for BinaryStep {
    open spec fn activate_spec(&self, x: T) -> T {
        if x.ge_spec(T::zero_spec()) {
            T::one_spec()
        } else {
            T::zero_spec()
        }
    }

    fn activate(&self, x: T) -> (y: T) {
        if x.ge(T::zero()) {
            T::one()
        } else {
            T::zero()
        }
    }
}

/// `1 / (1 + e^(-x))`
///
/// A tag only: [`Scalar`] has no exponential, so a scalar type that has one
/// implements [`ActivationFn`] for this tag itself.
#[derive(Debug, Clone, Copy, PartialEq, Eq, Structural, PartialOrd, Ord, Hash, Default)]
pub struct Sigmoid;

/// `tanh(x)`
///
/// A tag only: [`Scalar`] has no hyperbolic tangent, so a scalar type that
/// has one implements [`ActivationFn`] for this tag itself.
#[derive(Debug, Clone, Copy, PartialEq, Eq, Structural, PartialOrd, Ord, Hash, Default)]
pub struct Tanh;

/// `max(x, 0)`
#[derive(Debug, Clone, Copy, PartialEq, Eq, Structural, PartialOrd, Ord, Hash, Default)]
pub struct Relu;

impl<T: Scalar> ActivationFn<T> for Relu {
    open spec fn activate_spec(&self, x: T) -> T {
        x.max_spec(T::zero_spec())
    }

    fn activate(&self, x: T) -> (y: T) {
        x.max(T::zero())
    }
}

/// `max(x, -factor * x)`
#[derive(Debug, Clone, Copy, PartialEq, PartialOrd, Default)]
pub struct LeakyRelu<T> {
    pub factor: T,
}

impl<T: Scalar> ActivationFn<T> for LeakyRelu<T> {
    open spec fn activate_spec(&self, x: T) -> T {
        x.max_spec(self.factor.neg_spec().mul_spec(x))
    }

    fn activate(&self, x: T) -> (y: T) {
        x.max(self.factor.neg().mul(x))
    }
}

/// `x` if `x >= 0`, else `factor * (e^x - 1)`
///
/// [`Scalar`] has no exponential, so a scalar type that has one implements
/// [`ActivationFn`] for this tag itself: it computes `e^x` and leaves the
/// rest to [`Elu::activate_with`].
#[derive(Debug, Clone, Copy, PartialEq, PartialOrd, Default)]
pub struct Elu<T> {
    pub factor: T,
}

impl<T: Scalar> Elu<T> {
    /// The unit's value at `x`, where `exp_x` stands for `e^x`: `x` itself
    /// if `x >= 0`, else `factor * (exp_x - 1)`.
    pub open spec fn activate_with_spec(&self, x: T, exp_x: T) -> T {
        if x.ge_spec(T::zero_spec()) {
            x
        } else {
            self.factor.mul_spec(exp_x.add_spec(T::one_spec().neg_spec()))
        }
    }

    /// Evaluates the unit at `x`, given `e^x`.
    pub fn activate_with(&self, x: T, exp_x: T) -> (y: T)
        ensures
            y == self.activate_with_spec(x, exp_x),
    {
        if x.ge(T::zero()) {
            x
        } else {
            self.factor.mul(exp_x.add(T::one().neg()))
        }
    }
}

/// `x * sigmoid(x)`
///
/// A tag only, as [`Sigmoid`] is.
#[derive(Debug, Clone, Copy, PartialEq, Eq, Structural, PartialOrd, Ord, Hash, Default)]
pub struct Swish;

/// `0.5 * x * (1 + tanh(sqrt(2 / pi) * (x + 0.044715 * x^3)))`
///
/// A tag only, as [`Tanh`] is.
#[derive(Debug, Clone, Copy, PartialEq, Eq, Structural, PartialOrd, Ord, Hash, Default)]
pub struct Gelu;

/// The catalog of activation functions, by name.
pub struct ActFns;

impl ActFns {
    /// The identity.
    pub fn linear() -> (f: Linear)
        ensures
            f == Linear,
    {
        Linear
    }

    /// The step from zero to one at zero.
    pub fn binary_step() -> (f: BinaryStep)
        ensures
            f == BinaryStep,
    {
        BinaryStep
    }

    /// The logistic sigmoid.
    pub fn sigmoid() -> (f: Sigmoid)
        ensures
            f == Sigmoid,
    {
        Sigmoid
    }

    /// The hyperbolic tangent.
    pub fn tanh() -> (f: Tanh)
        ensures
            f == Tanh,
    {
        Tanh
    }

    /// The rectified linear unit.
    pub fn relu() -> (f: Relu)
        ensures
            f == Relu,
    {
        Relu
    }

    /// The leaky rectified linear unit with the given factor.
    pub fn leaky_relu<T>(factor: T) -> (f: LeakyRelu<T>)
        ensures
            f.factor == factor,
    {
        LeakyRelu { factor }
    }

    /// The exponential linear unit with the canonical factor, one.
    pub fn elu<T: Scalar>() -> (f: Elu<T>)
        ensures
            f.factor == T::one_spec(),
    {
        Elu { factor: T::one() }
    }

    /// The exponential linear unit with the given factor.
    pub fn param_elu<T>(factor: T) -> (f: Elu<T>)
        ensures
            f.factor == factor,
    {
        Elu { factor }
    }

    /// The sigmoid-weighted linear unit.
    pub fn swish() -> (f: Swish)
        ensures
            f == Swish,
    {
        Swish
    }

    /// The Gaussian error linear unit, in its tanh approximation.
    pub fn gelu() -> (f: Gelu)
        ensures
            f == Gelu,
    {
        Gelu
    }
}

} // verus!
