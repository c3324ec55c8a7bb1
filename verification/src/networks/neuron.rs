//! What one neuron computes.

use crate::utils::{ActivationFn, Array, Scalar};
use vstd::prelude::*;

verus! {

/// The sum of the first `n` products `input[k] * weights[k]`, added up from
/// the left, starting at zero.
pub open spec fn dot<T: Scalar>(input: Seq<T>, weights: Seq<T>, n: nat) -> T
    decreases n,
{
    if n == 0 {
        T::zero_spec()
    } else {
        dot(input, weights, (n - 1) as nat).add_spec(input[n - 1].mul_spec(weights[n - 1]))
    }
}

/// What a neuron passes to its activation function: the products of inputs
/// and weights summed in index order, and the bias added last.
pub open spec fn weighted_sum<T: Scalar>(input: Seq<T>, weights: Seq<T>, bias: T) -> T {
    dot(input, weights, weights.len()).add_spec(bias)
}

/// What a neuron gives on `input`: its weighted sum, activated.
pub open spec fn neuron_output<T: Scalar, F: ActivationFn<T>>(
    input: Seq<T>,
    weights: Seq<T>,
    bias: T,
    activation_fn: F,
) -> T {
    activation_fn.activate_spec(weighted_sum(input, weights, bias))
}

/// Computes [`weighted_sum`] for a neuron with `N` inputs.
pub fn weigh<T: Scalar, const N: usize>(input: &[T; N], weights: &Array<T, N>, bias: T) -> (sum: T)
    ensures
        sum == weighted_sum(input@, weights@, bias),
{
    let mut sum = T::zero();
    let mut idx: usize = 0;
    proof {
        weights.lemma_len();
    }
    while idx < N
        invariant
            idx <= N,
            weights@.len() == N,
            sum == dot(input@, weights@, idx as nat),
        decreases N - idx,
    {
        sum = sum.add(input[idx].mul(*weights.get(idx)));
        idx += 1;
    }
    sum.add(bias)
}

} // verus!
