use super::NeuralNetwork;
use crate::utils::Scalar;
use vstd::prelude::*;

verus! {

/// Two networks in sequence: what `left` gives is what `right` takes.
#[derive(Debug, Clone, Copy, PartialEq, PartialOrd, Hash, Default)]
pub struct AndThenNetwork<
    const I: usize,
    const M: usize,
    const O: usize,
    L: NeuralNetwork<I, M>,
    R: NeuralNetwork<M, O>,
> {
    pub(crate) left: L,
    pub(crate) right: R,
}

/// Two networks side by side: the first `I1` of the `I` inputs go to `n1`,
/// the other `I2` to `n2`, and the `O` outputs are those of `n1` followed by
/// those of `n2`.
///
/// A well-formed value of this type has `I == I1 + I2` and `O == O1 + O2`.
#[derive(Debug, Clone, Copy, PartialEq)]
pub struct AlongsideNetwork<
    const I1: usize,
    const I2: usize,
    const O1: usize,
    const O2: usize,
    const I: usize,
    const O: usize,
    N1: NeuralNetwork<I1, O1>,
    N2: NeuralNetwork<I2, O2>,
> {
    pub(crate) n1: N1,
    pub(crate) n2: N2,
}

/// Two networks on one input: both take the same `I` inputs, and the `O`
/// outputs are those of `n1` followed by those of `n2`.
///
/// A well-formed value of this type has `O == O1 + O2`.
#[derive(Debug, Clone, Copy, PartialEq, PartialOrd, Hash)]
pub struct ReplicateInputNetwork<
    const I: usize,
    const O1: usize,
    const O2: usize,
    const O: usize,
    N1: NeuralNetwork<I, O1>,
    N2: NeuralNetwork<I, O2>,
> {
    pub(crate) n1: N1,
    pub(crate) n2: N2,
}

/// Which port of a combined network was declared with a length that is not
/// the sum of its parts' lengths.
#[derive(Debug, Clone, Copy, PartialEq, Eq, Structural, Hash)]
pub enum ShapeError {
    Input { declared: usize, left: usize, right: usize },
    Output { declared: usize, left: usize, right: usize },
}

/// The port that keeps two networks from standing side by side with the
/// declared lengths `i` and `o`: the input where `i` is not `i1 + i2`, else
/// the output where `o` is not `o1 + o2`, else none.
pub open spec fn alongside_mismatch(
    i1: usize,
    i2: usize,
    o1: usize,
    o2: usize,
    i: usize,
    o: usize,
) -> Option<ShapeError> {
    if i != i1 + i2 {
        Some(ShapeError::Input { declared: i, left: i1, right: i2 })
    } else if o != o1 + o2 {
        Some(ShapeError::Output { declared: o, left: o1, right: o2 })
    } else {
        None
    }
}

/// The port that keeps two networks from sharing an input with the declared
/// output length `o`: the output where `o` is not `o1 + o2`, else none.
pub open spec fn replicate_mismatch(o1: usize, o2: usize, o: usize) -> Option<ShapeError> {
    if o != o1 + o2 {
        Some(ShapeError::Output { declared: o, left: o1, right: o2 })
    } else {
        None
    }
}

/// The `M` elements of `arr` from index `start` on.
pub(crate) fn part<T: Scalar, const N: usize, const M: usize>(arr: &[T; N], start: usize) -> (out:
    [T; M])
    requires
        start + M <= N,
    ensures
        out@ == arr@.subrange(start as int, start + M),
{
    let mut out: [T; M] = [T::zero();M];
    let mut idx: usize = 0;
    while idx < M
        invariant
            idx <= M,
            start + M <= N,
            forall|i: int| 0 <= i < idx ==> out@[i] == arr@[start + i],
        decreases M - idx,
    {
        out[idx] = arr[start + idx];
        idx += 1;
    }
    assert(out@ =~= arr@.subrange(start as int, start + M));
    out
}

/// The elements of `a` followed by those of `b`.
pub(crate) fn joined<T: Scalar, const A: usize, const B: usize, const C: usize>(
    a: &[T; A],
    b: &[T; B],
) -> (out: [T; C])
    requires
        A + B == C,
    ensures
        out@ == a@ + b@,
{
    let mut out: [T; C] = [T::zero();C];
    let mut idx: usize = 0;
    while idx < A
        invariant
            idx <= A,
            A + B == C,
            forall|i: int| 0 <= i < idx ==> out@[i] == a@[i],
        decreases A - idx,
    {
        out[idx] = a[idx];
        idx += 1;
    }
    idx = 0;
    while idx < B
        invariant
            idx <= B,
            A + B == C,
            forall|i: int| 0 <= i < A ==> out@[i] == a@[i],
            forall|i: int| 0 <= i < idx ==> out@[A + i] == b@[i],
        decreases B - idx,
    {
        out[idx + A] = b[idx];
        idx += 1;
    }
    assert(out@ =~= a@ + b@);
    out
}

impl<
    const I: usize,
    const M: usize,
    const O: usize,
    L: NeuralNetwork<I, M>,
    R: NeuralNetwork<M, O>,
> AndThenNetwork<I, M, O, L, R> {
    /// The network that is fed first.
    pub closed spec fn left(&self) -> L {
        self.left
    }

    /// The network that is fed what `left` gives.
    pub closed spec fn right(&self) -> R {
        self.right
    }

    /// `left`, then `right` on what `left` gives.
    pub fn new(left: L, right: R) -> (n: Self)
        ensures
            n.left() == left,
            n.right() == right,
    {
        AndThenNetwork { left, right }
    }

    /// The two networks, `left` first.
    pub fn into_parts(self) -> (parts: (L, R))
        ensures
            parts.0 == self.left(),
            parts.1 == self.right(),
    {
        (self.left, self.right)
    }
}

impl<
    const I: usize,
    const M: usize,
    const O: usize,
    L: NeuralNetwork<I, M>,
    R: NeuralNetwork<M, O, Scalar = L::Scalar>,
> NeuralNetwork<I, O> for AndThenNetwork<I, M, O, L, R> {
    type Scalar = L::Scalar;

    open spec fn wf(&self) -> bool {
        self.left().wf() && self.right().wf()
    }

    open spec fn feed_spec(&self, input: Seq<L::Scalar>) -> Seq<L::Scalar> {
        self.right().feed_spec(self.left().feed_spec(input))
    }

    proof fn lemma_feed_len(&self, input: Seq<L::Scalar>) {
        self.left().lemma_feed_len(input);
        self.right().lemma_feed_len(self.left().feed_spec(input));
    }

    fn feed(&mut self, arr: &[L::Scalar; I]) -> (out: [L::Scalar; O]) {
        let mid = self.left.feed(arr);
        self.right.feed(&mid)
    }
}

impl<
    const I1: usize,
    const I2: usize,
    const O1: usize,
    const O2: usize,
    const I: usize,
    const O: usize,
    N1: NeuralNetwork<I1, O1>,
    N2: NeuralNetwork<I2, O2>,
> AlongsideNetwork<I1, I2, O1, O2, I, O, N1, N2> {
    /// The network that takes the first `I1` inputs.
    pub closed spec fn n1(&self) -> N1 {
        self.n1
    }

    /// The network that takes the last `I2` inputs.
    pub closed spec fn n2(&self) -> N2 {
        self.n2
    }

    /// `n1` beside `n2`, or the port whose declared length does not fit.
    pub fn new(n1: N1, n2: N2) -> (r: Result<Self, ShapeError>)
        ensures
            match r {
                Ok(n) => alongside_mismatch(I1, I2, O1, O2, I, O) is None && n.n1() == n1
                    && n.n2() == n2,
                Err(e) => alongside_mismatch(I1, I2, O1, O2, I, O) == Some(e),
            },
    {
        if I < I1 || I - I1 != I2 {
            Err(ShapeError::Input { declared: I, left: I1, right: I2 })
        } else if O < O1 || O - O1 != O2 {
            Err(ShapeError::Output { declared: O, left: O1, right: O2 })
        } else {
            Ok(AlongsideNetwork { n1, n2 })
        }
    }

    /// The two networks, `n1` first.
    pub fn into_parts(self) -> (parts: (N1, N2))
        ensures
            parts.0 == self.n1(),
            parts.1 == self.n2(),
    {
        (self.n1, self.n2)
    }
}

impl<
    const I1: usize,
    const I2: usize,
    const O1: usize,
    const O2: usize,
    const I: usize,
    const O: usize,
    N1: NeuralNetwork<I1, O1>,
    N2: NeuralNetwork<I2, O2, Scalar = N1::Scalar>,
> NeuralNetwork<I, O> for AlongsideNetwork<I1, I2, O1, O2, I, O, N1, N2> where N1::Scalar: Scalar {
    type Scalar = N1::Scalar;

    open spec fn wf(&self) -> bool {
        I == I1 + I2 && O == O1 + O2 && self.n1().wf() && self.n2().wf()
    }

    open spec fn feed_spec(&self, input: Seq<N1::Scalar>) -> Seq<N1::Scalar> {
        self.n1().feed_spec(input.subrange(0, I1 as int)) + self.n2().feed_spec(
            input.subrange(I1 as int, I1 + I2),
        )
    }

    proof fn lemma_feed_len(&self, input: Seq<N1::Scalar>) {
        self.n1().lemma_feed_len(input.subrange(0, I1 as int));
        self.n2().lemma_feed_len(input.subrange(I1 as int, I1 + I2));
    }

    fn feed(&mut self, arr: &[N1::Scalar; I]) -> (out: [N1::Scalar; O]) {
        let first: [N1::Scalar; I1] = part(arr, 0);
        let second: [N1::Scalar; I2] = part(arr, I1);
        let n1o = self.n1.feed(&first);
        let n2o = self.n2.feed(&second);
        joined(&n1o, &n2o)
    }
}

impl<
    const I: usize,
    const O1: usize,
    const O2: usize,
    const O: usize,
    N1: NeuralNetwork<I, O1>,
    N2: NeuralNetwork<I, O2>,
> ReplicateInputNetwork<I, O1, O2, O, N1, N2> {
    /// The network whose outputs come first.
    pub closed spec fn n1(&self) -> N1 {
        self.n1
    }

    /// The network whose outputs come last.
    pub closed spec fn n2(&self) -> N2 {
        self.n2
    }

    /// `n1` and `n2` on one input, or the port whose declared length does
    /// not fit.
    pub fn new(n1: N1, n2: N2) -> (r: Result<Self, ShapeError>)
        ensures
            match r {
                Ok(n) => replicate_mismatch(O1, O2, O) is None && n.n1() == n1 && n.n2() == n2,
                Err(e) => replicate_mismatch(O1, O2, O) == Some(e),
            },
    {
        if O < O1 || O - O1 != O2 {
            Err(ShapeError::Output { declared: O, left: O1, right: O2 })
        } else {
            Ok(ReplicateInputNetwork { n1, n2 })
        }
    }

    /// The two networks, `n1` first.
    pub fn into_parts(self) -> (parts: (N1, N2))
        ensures
            parts.0 == self.n1(),
            parts.1 == self.n2(),
    {
        (self.n1, self.n2)
    }
}

impl<
    const I: usize,
    const O1: usize,
    const O2: usize,
    const O: usize,
    N1: NeuralNetwork<I, O1>,
    N2: NeuralNetwork<I, O2, Scalar = N1::Scalar>,
> NeuralNetwork<I, O> for ReplicateInputNetwork<I, O1, O2, O, N1, N2> where N1::Scalar: Scalar {
    type Scalar = N1::Scalar;

    open spec fn wf(&self) -> bool {
        O == O1 + O2 && self.n1().wf() && self.n2().wf()
    }

    open spec fn feed_spec(&self, input: Seq<N1::Scalar>) -> Seq<N1::Scalar> {
        self.n1().feed_spec(input) + self.n2().feed_spec(input)
    }

    proof fn lemma_feed_len(&self, input: Seq<N1::Scalar>) {
        self.n1().lemma_feed_len(input);
        self.n2().lemma_feed_len(input);
    }

    fn feed(&mut self, arr: &[N1::Scalar; I]) -> (out: [N1::Scalar; O]) {
        let n1o = self.n1.feed(arr);
        let n2o = self.n2.feed(arr);
        joined(&n1o, &n2o)
    }
}

/// Feeding a sequence is feeding its second network what the first one
/// gives: `a.and_then(b)` on `x` gives what `b` gives on what `a` gives on
/// `x`.
pub proof fn lemma_and_then_feeds_left_then_right<
    const I: usize,
    const M: usize,
    const O: usize,
    L: NeuralNetwork<I, M>,
    R: NeuralNetwork<M, O, Scalar = L::Scalar>,
>(n: AndThenNetwork<I, M, O, L, R>, a: L, b: R, x: Seq<L::Scalar>)
    requires
        n.left() == a,
        n.right() == b,
    ensures
        n.feed_spec(x) == b.feed_spec(a.feed_spec(x)),
{
}

/// Side by side, each network sees only its own inputs: on `x` followed by
/// `y`, the first `O1` outputs are what `a` gives on `x`, and the others are
/// what `b` gives on `y`.
pub proof fn lemma_alongside_feeds_each_its_part<
    const I1: usize,
    const I2: usize,
    const O1: usize,
    const O2: usize,
    const I: usize,
    const O: usize,
    N1: NeuralNetwork<I1, O1>,
    N2: NeuralNetwork<I2, O2, Scalar = N1::Scalar>,
>(
    n: AlongsideNetwork<I1, I2, O1, O2, I, O, N1, N2>,
    a: N1,
    b: N2,
    x: Seq<N1::Scalar>,
    y: Seq<N1::Scalar>,
) where N1::Scalar: Scalar
    requires
        n.wf(),
        n.n1() == a,
        n.n2() == b,
        x.len() == I1,
        y.len() == I2,
    ensures
        n.feed_spec(x + y).len() == O,
        n.feed_spec(x + y).subrange(0, O1 as int) == a.feed_spec(x),
        n.feed_spec(x + y).subrange(O1 as int, O as int) == b.feed_spec(y),
{
    a.lemma_feed_len(x);
    b.lemma_feed_len(y);
    assert((x + y).subrange(0, I1 as int) =~= x);
    assert((x + y).subrange(I1 as int, I1 + I2) =~= y);
    assert(n.feed_spec(x + y).subrange(0, O1 as int) =~= a.feed_spec(x));
    assert(n.feed_spec(x + y).subrange(O1 as int, O as int) =~= b.feed_spec(y));
}

/// On one input, each network sees all of it: the first `O1` outputs are
/// what `a` gives on `x`, and the others are what `b` gives on `x`.
pub proof fn lemma_replicate_feeds_both_the_input<
    const I: usize,
    const O1: usize,
    const O2: usize,
    const O: usize,
    N1: NeuralNetwork<I, O1>,
    N2: NeuralNetwork<I, O2, Scalar = N1::Scalar>,
>(n: ReplicateInputNetwork<I, O1, O2, O, N1, N2>, a: N1, b: N2, x: Seq<N1::Scalar>) where
    N1::Scalar: Scalar,

    requires
        n.wf(),
        n.n1() == a,
        n.n2() == b,
        x.len() == I,
    ensures
        n.feed_spec(x).len() == O,
        n.feed_spec(x).subrange(0, O1 as int) == a.feed_spec(x),
        n.feed_spec(x).subrange(O1 as int, O as int) == b.feed_spec(x),
{
    a.lemma_feed_len(x);
    b.lemma_feed_len(x);
    assert(n.feed_spec(x).subrange(0, O1 as int) =~= a.feed_spec(x));
    assert(n.feed_spec(x).subrange(O1 as int, O as int) =~= b.feed_spec(x));
}

} // verus!
