//! Small, statically shaped feed-forward networks that are built from
//! primitive units and combined by sequencing, by running two networks
//! side by side, and by feeding one input to two networks.
//!
//! Every network has a fixed input and output length. The numbers that flow
//! through a network are values of any type that implements
//! [`utils::Scalar`]; what a network computes is stated over that trait's
//! arithmetic. The library implements the trait for `i64`; a program that
//! computes with floating-point numbers implements it for its own type.

pub mod networks;
pub mod utils;
