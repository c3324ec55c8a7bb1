use vstd::prelude::*;

verus! {

/// The numbers a network computes with.
///
/// Each operation is a function of its operands alone: the `*_spec` function
/// says which value the executable operation returns. Nothing else is asked
/// of an implementation, so sums need not be associative and products need
/// not distribute; the networks fix the order of every operation they make.
pub trait Scalar: Copy {
    /// The value an empty sum has.
    spec fn zero_spec() -> Self;

    /// The value a binary step returns on the non-negative side.
    spec fn one_spec() -> Self;

    /// `self + rhs`.
    spec fn add_spec(self, rhs: Self) -> Self;

    /// `self * rhs`.
    spec fn mul_spec(self, rhs: Self) -> Self;

    /// `-self`.
    spec fn neg_spec(self) -> Self;

    /// `self >= rhs`.
    spec fn ge_spec(self, rhs: Self) -> bool;

    /// The larger of `self` and `rhs`.
    spec fn max_spec(self, rhs: Self) -> Self;

    /// Zero.
    fn zero() -> (r: Self)
        ensures
            r == Self::zero_spec(),
    ;

    /// One.
    fn one() -> (r: Self)
        ensures
            r == Self::one_spec(),
    ;

    /// The sum of `self` and `rhs`.
    fn add(self, rhs: Self) -> (r: Self)
        ensures
            r == self.add_spec(rhs),
    ;

    /// The product of `self` and `rhs`.
    fn mul(self, rhs: Self) -> (r: Self)
        ensures
            r == self.mul_spec(rhs),
    ;

    /// `self` with its sign changed.
    fn neg(self) -> (r: Self)
        ensures
            r == self.neg_spec(),
    ;

    /// Whether `self` is at least `rhs`.
    fn ge(self, rhs: Self) -> (b: bool)
        ensures
            b == self.ge_spec(rhs),
    ;

    /// The larger of `self` and `rhs`.
    fn max(self, rhs: Self) -> (r: Self)
        ensures
            r == self.max_spec(rhs),
    ;
}

/// Two's-complement integers: sums, products and negation wrap around.
impl Scalar for i64 {
    open spec fn zero_spec() -> i64 {
        0
    }

    open spec fn one_spec() -> i64 {
        1
    }

    open spec fn add_spec(self, rhs: i64) -> i64 {
        self.wrapping_add(rhs)
    }

    open spec fn mul_spec(self, rhs: i64) -> i64 {
        self.wrapping_mul(rhs)
    }

    open spec fn neg_spec(self) -> i64 {
        0i64.wrapping_sub(self)
    }

    open spec fn ge_spec(self, rhs: i64) -> bool {
        self >= rhs
    }

    open spec fn max_spec(self, rhs: i64) -> i64 {
        if self >= rhs {
            self
        } else {
            rhs
        }
    }

    fn zero() -> (r: i64) {
        0
    }

    fn one() -> (r: i64) {
        1
    }

    fn add(self, rhs: i64) -> (r: i64) {
        self.wrapping_add(rhs)
    }

    fn mul(self, rhs: i64) -> (r: i64) {
        self.wrapping_mul(rhs)
    }

    fn neg(self) -> (r: i64) {
        0i64.wrapping_sub(self)
    }

    fn ge(self, rhs: i64) -> (b: bool) {
        self >= rhs
    }

    fn max(self, rhs: i64) -> (r: i64) {
        if self >= rhs {
            self
        } else {
            rhs
        }
    }
}

} // verus!
