//! A sequence container whose length is checked at compile time.
//!
//! A [`Vector<T, L>`] owns a backing store of elements of type `T` and
//! carries its length as the type-level natural number `L`.  Indexing takes
//! a token whose type must satisfy `LessThan<L>`, so an out-of-bounds access
//! with a statically known index is rejected before the program runs, and
//! the access itself needs no runtime bounds check.

use vstd::prelude::*;

pub mod index;
pub mod length;
pub mod render;
pub mod typenat;

use crate::length::{U1, U2, U3, U4, U5, U6, U7, U8};
use crate::typenat::{LessThan, TypeNat};

verus! {

/// A vector with compile-time length checking.
///
/// The type parameter `L` is a type-level natural number (see [`crate::typenat`])
/// giving the declared length.  A well-formed vector stores exactly
/// `L::val()` elements, and every verified construction path yields a
/// well-formed vector.
#[derive(Clone)]
pub struct Vector<T, L> {
    inner: Vec<T>,
    length: L,
}

impl<T, L> View for Vector<T, L> {
    type V = Seq<T>;

    closed spec fn view(&self) -> Seq<T> {
        self.inner@
    }
}

impl<T, L: TypeNat> Vector<T, L> {
    /// The size invariant: the backing store holds exactly as many elements
    /// as the declared length type says.
    pub open spec fn wf(&self) -> bool {
        self@.len() == L::val()
    }

    /// Returns the length of this `Vector`, read off the length type alone:
    /// the backing store is never consulted.
    pub fn len(&self) -> (r: usize)
        requires
            self.wf(),
        ensures
            r == L::val(),
    {
        proof {
            vstd::std_specs::vec::axiom_spec_len(&self.inner);
        }
        L::to_usize()
    }

    /// Creates a `Vector` of length `L` from a repeated element.
    pub fn from_elem(elem: T) -> (r: Vector<T, L>) where T: Clone
        requires
            L::val() <= usize::MAX as nat,
        ensures
            r.wf(),
            forall|i: int| 0 <= i < r@.len() ==> cloned(elem, #[trigger] r@[i]),
    {
        crate::from_elem::<L, T>(elem)
    }

    /// Wraps a runtime sequence, declaring its length to be `L`.
    ///
    /// The wrapped sequence is taken as it stands: the result is well formed
    /// exactly when the sequence's size equals the value of `L`.  A caller
    /// that supplies a sequence of any other size obtains a vector whose
    /// reported length disagrees with its actual element count.
    pub fn from(orig: Vec<T>) -> (r: Vector<T, L>)
        ensures
            r@ == orig@,
            r.wf() <==> orig@.len() == L::val(),
    {
        Vector { inner: orig, length: L::new() }
    }

    /// Returns the element at the position named by the token type `I`.
    ///
    /// The bound `I: LessThan<L>` is the bounds check: it can only be
    /// satisfied when the value of `I` lies strictly below the value of `L`,
    /// so the access performs no runtime comparison.
    pub fn index<I: LessThan<L>>(&self, _token: I) -> (r: &T)
        requires
            self.wf(),
        ensures
            *r == self@[I::val() as int],
    {
        proof {
            I::lt_witness();
            vstd::std_specs::vec::axiom_spec_len(&self.inner);
        }
        let i = I::to_usize();
        &self.inner[i]
    }

    /// Returns a mutable reference to the element at the position named by
    /// the token type `I`, under the same compile-time bounds check as
    /// [`Vector::index`].
    pub fn index_mut<I: LessThan<L>>(&mut self, _token: I) -> (r: &mut T)
        requires
            old(self).wf(),
        ensures
            *r == old(self)@[I::val() as int],
            final(self)@ == old(self)@.update(I::val() as int, *final(r)),
            final(self).wf(),
    {
        proof {
            I::lt_witness();
            vstd::std_specs::vec::axiom_spec_len(&self.inner);
        }
        let i = I::to_usize();
        &mut self.inner[i]
    }

    /// Renders this `Vector` for debugging: every stored element's debug
    /// text, comma-joined, beside the declared length in decimal.
    ///
    /// The contract fixes the whole shape of the text except the element
    /// pieces themselves, which are whatever the element type's `Debug`
    /// implementation writes: there is one piece per stored element, in
    /// order, and the rendered length is the value of `L`.
    pub fn debug_string(&self) -> (r: String) where T: core::fmt::Debug
        requires
            L::val() <= usize::MAX as nat,
        ensures
            exists|parts: Seq<Seq<char>>|
                parts.len() == self@.len() && r@ == crate::render::debug_render(
                    parts,
                    crate::render::dec_rep(L::val()),
                ),
    {
        let mut s = String::from_str("Vector { inner: [");
        let ghost mut parts: Seq<Seq<char>> = Seq::empty();
        let n = self.inner.len();
        let mut i: usize = 0;
        while i < n
            invariant
                i <= n,
                n == self.inner@.len(),
                parts.len() == i,
                s@ == "Vector { inner: ["@ + crate::render::comma_join(parts),
            decreases n - i,
        {
            if i > 0 {
                s.append(", ");
            }
            let piece = crate::render::debug_of(&self.inner[i]);
            s.append(piece.as_str());
            proof {
                let prev = parts;
                parts = parts.push(piece@);
                assert(parts.drop_last() =~= prev);
                assert(s@ =~= "Vector { inner: ["@ + crate::render::comma_join(parts));
            }
            i += 1;
        }
        s.append("], length: ");
        let len_text = crate::render::usize_to_string(L::to_usize());
        s.append(len_text.as_str());
        s.append(" }");
        proof {
            assert(s@ =~= crate::render::debug_render(
                parts,
                crate::render::dec_rep(L::val()),
            ));
        }
        s
    }
}

/// Creates a `Vector` of length `L` from a repeated element: the backing
/// store is built to the declared size, so the result is well formed by
/// construction, and every element is a clone of `elem`.
pub fn from_elem<L: TypeNat, T: Clone>(elem: T) -> (r: Vector<T, L>)
    requires
        L::val() <= usize::MAX as nat,
    ensures
        r.wf(),
        forall|i: int| 0 <= i < r@.len() ==> cloned(elem, #[trigger] r@[i]),
{
    let n = L::to_usize();
    let mut inner: Vec<T> = Vec::new();
    inner.resize(n, elem);
    Vector::<T, L>::from(inner)
}

/// Creates a `Vector` from a literal list of one expression; the length
/// type is the count of the expressions supplied.
pub fn vector1<T>(e0: T) -> (r: Vector<T, U1>)
    ensures
        r@ == seq![e0],
        r.wf(),
{
    Vector::<T, U1>::from(vec![e0])
}

/// Creates a `Vector` from a literal list of two expressions; the length
/// type is the count of the expressions supplied.
pub fn vector2<T>(e0: T, e1: T) -> (r: Vector<T, U2>)
    ensures
        r@ == seq![e0, e1],
        r.wf(),
{
    Vector::<T, U2>::from(vec![e0, e1])
}

/// Creates a `Vector` from a literal list of three expressions; the length
/// type is the count of the expressions supplied.
pub fn vector3<T>(e0: T, e1: T, e2: T) -> (r: Vector<T, U3>)
    ensures
        r@ == seq![e0, e1, e2],
        r.wf(),
{
    Vector::<T, U3>::from(vec![e0, e1, e2])
}

/// Creates a `Vector` from a literal list of four expressions; the length
/// type is the count of the expressions supplied.
pub fn vector4<T>(e0: T, e1: T, e2: T, e3: T) -> (r: Vector<T, U4>)
    ensures
        r@ == seq![e0, e1, e2, e3],
        r.wf(),
{
    Vector::<T, U4>::from(vec![e0, e1, e2, e3])
}

/// Creates a `Vector` from a literal list of five expressions; the length
/// type is the count of the expressions supplied.
pub fn vector5<T>(e0: T, e1: T, e2: T, e3: T, e4: T) -> (r: Vector<T, U5>)
    ensures
        r@ == seq![e0, e1, e2, e3, e4],
        r.wf(),
{
    Vector::<T, U5>::from(vec![e0, e1, e2, e3, e4])
}

/// Creates a `Vector` from a literal list of six expressions; the length
/// type is the count of the expressions supplied.
pub fn vector6<T>(e0: T, e1: T, e2: T, e3: T, e4: T, e5: T) -> (r: Vector<T, U6>)
    ensures
        r@ == seq![e0, e1, e2, e3, e4, e5],
        r.wf(),
{
    Vector::<T, U6>::from(vec![e0, e1, e2, e3, e4, e5])
}

/// Creates a `Vector` from a literal list of seven expressions; the length
/// type is the count of the expressions supplied.
pub fn vector7<T>(e0: T, e1: T, e2: T, e3: T, e4: T, e5: T, e6: T) -> (r: Vector<T, U7>)
    ensures
        r@ == seq![e0, e1, e2, e3, e4, e5, e6],
        r.wf(),
{
    Vector::<T, U7>::from(vec![e0, e1, e2, e3, e4, e5, e6])
}

/// Creates a `Vector` from a literal list of eight expressions; the length
/// type is the count of the expressions supplied.
pub fn vector8<T>(e0: T, e1: T, e2: T, e3: T, e4: T, e5: T, e6: T, e7: T) -> (r: Vector<T, U8>)
    ensures
        r@ == seq![e0, e1, e2, e3, e4, e5, e6, e7],
        r.wf(),
{
    Vector::<T, U8>::from(vec![e0, e1, e2, e3, e4, e5, e6, e7])
}

/// Law: repeated-element construction is uniform.  Whenever the element
/// type's `clone` returns a value equal to its argument, every element of a
/// sequence filled with clones of `elem` — the contents that `from_elem`
/// guarantees — equals `elem`, so each valid index yields the given
/// element's value.
pub proof fn lemma_repeated_element_uniform<T: Clone>(elem: T, s: Seq<T>, i: int)
    requires
        forall|a: &T, b: T| call_ensures(T::clone, (a,), b) ==> b == *a,
        forall|k: int| 0 <= k < s.len() ==> cloned(elem, #[trigger] s[k]),
        0 <= i < s.len(),
    ensures
        s[i] == elem,
{
    assert(cloned(elem, s[i]));
}

/// Law: a container wrapping a sequence of exactly the declared length is
/// well formed, and every index token the compiler admits names a position
/// inside that sequence, so indexing yields the element supplied at that
/// position, in the order the elements were written.
pub proof fn lemma_construction_indexing<T, L: TypeNat, I: LessThan<L>>(
    elems: Seq<T>,
    v: Vector<T, L>,
)
    requires
        v@ == elems,
        elems.len() == L::val(),
    ensures
        v.wf(),
        0 <= I::val() < elems.len(),
        v@[I::val() as int] == elems[I::val() as int],
{
    I::lt_witness();
}

/// Law: writing through the mutable index with a token and then reading
/// through the immutable index with the same token returns the written
/// value.  After a caller stores `x` through the reference that
/// `index_mut` returns, the contents stand at `update(I::val(), x)` of the
/// old contents, and `index` with the same token reads position `I::val()`
/// of that sequence.
pub proof fn lemma_write_then_read<T, L: TypeNat, I: LessThan<L>>(s: Seq<T>, x: T)
    requires
        s.len() == L::val(),
    ensures
        s.update(I::val() as int, x)[I::val() as int] == x,
{
    I::lt_witness();
}

} // verus!
