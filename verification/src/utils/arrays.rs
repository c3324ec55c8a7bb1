use vstd::prelude::*;

verus! {

/// A sequence of exactly `N` values, in order.
///
/// Its view is the `Seq` of its elements, whose length is always `N`.
#[derive(Debug, Clone, Copy, PartialEq, Eq, PartialOrd, Ord, Hash)]
pub struct Array<T, const N: usize> {
    inner: [T; N],
}

/// Why a sequence could not be read as an [`Array`]: it held `found`
/// elements where `expected` were declared.
#[derive(Debug, Clone, Copy, PartialEq, Eq, Structural, Hash)]
pub struct LengthMismatch {
    pub expected: usize,
    pub found: usize,
}

impl<T, const N: usize> View for Array<T, N> {
    type V = Seq<T>;

    closed spec fn view(&self) -> Seq<T> {
        self.inner@
    }
}

/// What [`Array::decode`] makes of a sequence of elements: the sequence
/// itself where it has exactly `n` elements, and otherwise the two lengths.
pub open spec fn decoded<T>(items: Seq<T>, n: usize) -> Result<Seq<T>, LengthMismatch> {
    if items.len() == n {
        Ok(items)
    } else {
        Err(
            LengthMismatch {
                expected: n,
                found: if items.len() <= usize::MAX {
                    items.len() as usize
                } else {
                    usize::MAX
                },
            },
        )
    }
}

impl<T, const N: usize> Array<T, N> {
    /// The container that holds the elements of `values`.
    pub fn new(values: [T; N]) -> (a: Self)
        ensures
            a@ == values@,
    {
        Array { inner: values }
    }

    /// The elements as a plain array.
    pub fn into_inner(self) -> (values: [T; N])
        ensures
            values@ == self@,
    {
        self.inner
    }

    /// The elements as a plain array, borrowed.
    pub fn as_array(&self) -> (values: &[T; N])
        ensures
            values@ == self@,
    {
        &self.inner
    }

    /// The number of elements, which is `N`.
    pub fn len(&self) -> (n: usize)
        ensures
            n == N,
            n == self@.len(),
    {
        N
    }

    /// The element at `idx`.
    pub fn get(&self, idx: usize) -> (item: &T)
        requires
            idx < N,
        ensures
            *item == self@[idx as int],
    {
        &self.inner[idx]
    }

    /// Replaces the element at `idx` and leaves the others as they were.
    pub fn set(&mut self, idx: usize, item: T)
        requires
            idx < N,
        ensures
            final(self)@ == old(self)@.update(idx as int, item),
    {
        self.inner[idx] = item;
    }

    /// Every array has `N` elements.
    pub proof fn lemma_len(self)
        ensures
            self@.len() == N,
    {
    }

    /// Two arrays with the same elements are the same array.
    pub proof fn lemma_view_injective(self, other: Self)
        requires
            self@ == other@,
        ensures
            self == other,
    {
        assert(self.inner =~= other.inner);
    }
}

impl<T: Copy, const N: usize> Array<T, N> {
    /// The container whose every element is `item`.
    pub fn filled(item: T) -> (a: Self)
        ensures
            a@ == Seq::new(N as nat, |i: int| item),
    {
        let a = Array { inner: [item;N] };
        assert(a@ =~= Seq::new(N as nat, |i: int| item));
        a
    }

    /// The elements in order, as a sequence of their own.
    pub fn encode(&self) -> (items: Vec<T>)
        ensures
            items@ == self@,
    {
        let mut items: Vec<T> = Vec::new();
        let mut idx: usize = 0;
        while idx < N
            invariant
                idx <= N,
                items@ == self@.take(idx as int),
            decreases N - idx,
        {
            items.push(self.inner[idx]);
            idx += 1;
            assert(self@.take(idx as int) =~= self@.take(idx - 1).push(self@[idx - 1]));
        }
        assert(self@.take(N as int) =~= self@);
        items
    }
}

impl<T: Copy + Default, const N: usize> Array<T, N> {
    /// Reads a sequence of elements back into a container.
    ///
    /// Succeeds exactly on sequences of `N` elements and keeps their order;
    /// a shorter or longer one is refused with both lengths.
    pub fn decode(items: &Vec<T>) -> (r: Result<Self, LengthMismatch>)
        ensures
            match (r, decoded::<T>(items@, N)) {
                (Ok(a), Ok(s)) => a@ == s,
                (Err(e), Err(d)) => e == d,
                _ => false,
            },
    {
        if items.len() != N {
            return Err(LengthMismatch { expected: N, found: items.len() });
        }
        let mut a = Array { inner: [T::default();N] };
        let mut idx: usize = 0;
        while idx < N
            invariant
                idx <= N,
                items@.len() == N,
                a@.len() == N,
                a@.take(idx as int) == items@.take(idx as int),
            decreases N - idx,
        {
            a.inner[idx] = items[idx];
            idx += 1;
            assert(a@.take(idx as int) =~= items@.take(idx as int)) by {
                assert forall|i: int| 0 <= i < idx implies a@[i] == items@[i] by {
                    if i < idx - 1 {
                        assert(a@[i] == a@.take(idx - 1)[i]);
                        assert(items@[i] == items@.take(idx - 1)[i]);
                    }
                }
            }
        }
        assert(a@ =~= a@.take(N as int));
        assert(items@ =~= items@.take(N as int));
        Ok(a)
    }
}

impl<T: Copy + Default, const N: usize> Default for Array<T, N> {
    /// The container whose every element is one default value of `T`.
    fn default() -> (a: Self)
        ensures
            forall|i: int, j: int| 0 <= i < N && 0 <= j < N ==> a@[i] == a@[j],
            forall|i: int| 0 <= i < N ==> call_ensures(T::default, (), #[trigger] a@[i]),
    {
        Array { inner: [T::default();N] }
    }
}

impl<T, const N: usize> From<[T; N]> for Array<T, N> {
    fn from(value: [T; N]) -> (a: Self)
        ensures
            a@ == value@,
    {
        Array { inner: value }
    }
}

impl<T, const N: usize> vstd::std_specs::convert::FromSpecImpl<[T; N]> for Array<T, N> {
    open spec fn obeys_from_spec() -> bool {
        true
    }

    closed spec fn from_spec(value: [T; N]) -> Self {
        Array { inner: value }
    }
}

impl<T, const N: usize> From<Array<T, N>> for [T; N] {
    fn from(value: Array<T, N>) -> (a: Self)
        ensures
            a@ == value@,
    {
        value.inner
    }
}

impl<T, const N: usize> vstd::std_specs::convert::FromSpecImpl<Array<T, N>> for [T; N] {
    open spec fn obeys_from_spec() -> bool {
        true
    }

    closed spec fn from_spec(value: Array<T, N>) -> Self {
        value.inner
    }
}

impl<T, const N: usize> core::ops::Deref for Array<T, N> {
    type Target = [T; N];

    fn deref(&self) -> (values: &[T; N])
        ensures
            values@ == self@,
    {
        &self.inner
    }
}

/// Encoding a container and decoding the result gives the container back:
/// what it encodes to is accepted, holds the container's elements, and no
/// other container has those elements.
pub proof fn lemma_decode_encode<T, const N: usize>(a: Array<T, N>)
    ensures
        decoded::<T>(a@, N) == Ok::<Seq<T>, LengthMismatch>(a@),
        forall|back: Array<T, N>| decoded::<T>(a@, N) == Ok::<Seq<T>, LengthMismatch>(back@) ==> back == a,
{
    assert forall|back: Array<T, N>|
        decoded::<T>(a@, N) == Ok::<Seq<T>, LengthMismatch>(back@) implies back == a by {
        back.lemma_view_injective(a);
    }
}

} // verus!
