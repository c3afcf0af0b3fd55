//! Constructors that build a container by running an index-to-value
//! generator once per slot, in ascending index order, so that a caller
//! never has to default-initialise a slot only to overwrite it.

use vstd::prelude::*;

verus! {

/// A container type whose element count is fixed by the type itself,
/// before any element exists.
pub trait FixedSize {
    /// The number of slots, fixed by the implementing type.
    spec fn spec_size() -> nat;
}

/// Builds a container whose element count is fixed by the implementing
/// type: slot `i` receives the generator's value for index `i`.
pub trait InitWithIndex<T, Func: Fn(usize) -> T>: Sized + View<V = Seq<T>> + FixedSize {
    /// Fills slots `0, 1, ..., spec_size() - 1`, each with a value the
    /// generator may return for that index.
    fn init_with(f: Func) -> (r: Self)
        requires
            forall|i: usize| i < Self::spec_size() ==> f.requires((i,)),
        ensures
            r@.len() == Self::spec_size(),
            forall|i: int|
                0 <= i < Self::spec_size() ==> f.ensures((i as usize,), #[trigger] r@[i]),
    ;
}

/// Builds a growable sequence whose element count is a runtime value:
/// slot `i` receives the generator's value for index `i`.
pub trait InitWithDynamicIndex<T, Func: Fn(usize) -> T>: Sized + View<V = Seq<T>> {
    /// Fills slots `0, 1, ..., size - 1`, each with a value the
    /// generator may return for that index.
    fn init_with_size(size: usize, f: Func) -> (r: Self)
        requires
            forall|i: usize| i < size ==> f.requires((i,)),
        ensures
            r@.len() == size,
            forall|i: int| 0 <= i < size ==> f.ensures((i as usize,), #[trigger] r@[i]),
    ;
}

/// A container of exactly `N` elements. Its length is set at the one
/// construction point and never changes afterwards; no slot ever holds
/// a placeholder value.
pub struct FixedArray<T, const N: usize> {
    elems: Vec<T>,
}

impl<T, const N: usize> FixedArray<T, N> {
    #[verifier::type_invariant]
    spec fn length_fixed(self) -> bool {
        self.elems.len() == N
    }

    /// The element count, always exactly `N`: a caller can never observe
    /// a partially filled `FixedArray`.
    pub fn len(&self) -> (n: usize)
        ensures
            n == N,
    {
        proof {
            use_type_invariant(&*self);
        }
        self.elems.len()
    }

    /// Read access to the slot at `index`.
    pub fn get(&self, index: usize) -> (e: &T)
        requires
            index < N,
        ensures
            *e == self@[index as int],
    {
        proof {
            use_type_invariant(&*self);
        }
        &self.elems[index]
    }
}

impl<T, const N: usize> View for FixedArray<T, N> {
    type V = Seq<T>;

    closed spec fn view(&self) -> Seq<T> {
        self.elems@
    }
}

impl<T, const N: usize> FixedSize for FixedArray<T, N> {
    open spec fn spec_size() -> nat {
        N as nat
    }
}

impl<T, const N: usize, Func: Fn(usize) -> T> InitWithIndex<T, Func> for FixedArray<T, N> {
    fn init_with(f: Func) -> (r: Self) {
        let mut elems: Vec<T> = Vec::with_capacity(N);
        for index in 0..N
            invariant
                elems.len() == index,
                forall|i: usize| i < N ==> f.requires((i,)),
                forall|i: int| 0 <= i < index ==> f.ensures((i as usize,), #[trigger] elems[i]),
        {
            elems.push(f(index));
        }
        FixedArray { elems }
    }
}

impl<T, Func: Fn(usize) -> T> InitWithDynamicIndex<T, Func> for Vec<T> {
    fn init_with_size(size: usize, f: Func) -> (r: Self) {
        let mut v: Vec<T> = Vec::with_capacity(size);
        for index in 0..size
            invariant
                v.len() == index,
                forall|i: usize| i < size ==> f.requires((i,)),
                forall|i: int| 0 <= i < index ==> f.ensures((i as usize,), #[trigger] v[i]),
        {
            v.push(f(index));
        }
        v
    }
}

/// Law: every element of a finished container is a value its generator
/// may return for that element's own index; hence a generator whose
/// contract admits exactly one value `g(i)` per index `i` determines the
/// whole content, `s[i] == g(i)` for every `i` in `[0, s.len())`.
pub proof fn lemma_content_determined<T, Func: Fn(usize) -> T>(
    f: Func,
    s: Seq<T>,
    g: spec_fn(usize) -> T,
)
    requires
        forall|i: int| 0 <= i < s.len() ==> f.ensures((i as usize,), #[trigger] s[i]),
        forall|i: usize, y: T| #[trigger] f.ensures((i,), y) ==> y == g(i),
    ensures
        forall|i: int| 0 <= i < s.len() ==> s[i] == g(i as usize),
{
    assert forall|i: int| 0 <= i < s.len() implies s[i] == g(i as usize) by {
        assert(f.ensures((i as usize,), s[i]));
    }
}

} // verus!
