//! Scalars, fixed-length containers and activation functions.

mod activation_functions;
mod arrays;
mod scalar;
pub use activation_functions::{
    ActFns, ActivationFn, BinaryStep, Elu, Gelu, LeakyRelu, Linear, Relu, Sigmoid, Swish, Tanh,
};
pub use arrays::{decoded, lemma_decode_encode, Array, LengthMismatch};
pub use scalar::Scalar;
