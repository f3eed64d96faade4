//! Type-level natural numbers.
//!
//! Each non-negative integer is represented by a distinct type: `Z` stands
//! for zero, and `S<N>` stands for the successor of `N`.  A value of such a
//! type carries no runtime payload; the number itself lives in the type and
//! is recovered with [`TypeNat::to_usize`].  The strict order between two of
//! these types is the trait [`LessThan`]: it is implemented exactly for the
//! pairs whose values are ordered, so demanding the bound `I: LessThan<L>`
//! rejects an out-of-range pair before the program can run.

use vstd::prelude::*;

verus! {

/// The type-level natural number zero.
#[derive(Clone, Copy)]
pub struct Z;

/// The successor of the type-level natural number `N`.
///
/// The single field holds a value of the predecessor type, so that a value
/// of `S<N>` can be formed; every such type is zero-sized at runtime.
#[derive(Clone, Copy)]
pub struct S<N>(pub N);

/// A type-level natural number: a type that stands for one fixed
/// non-negative integer.
pub trait TypeNat: Sized {
    /// The integer that this type stands for.
    spec fn val() -> nat;

    /// Returns the integer that this type stands for, saturated at
    /// `usize::MAX` for values the machine cannot hold.
    fn to_usize() -> (r: usize)
        ensures
            r == if Self::val() <= usize::MAX as nat {
                Self::val()
            } else {
                usize::MAX as nat
            },
    ;

    /// Produces the (zero-sized) value of this type.
    fn new() -> Self;
}

impl TypeNat for Z {
    open spec fn val() -> nat {
        0
    }

    fn to_usize() -> (r: usize) {
        0
    }

    fn new() -> Self {
        Z
    }
}

impl<N: TypeNat> TypeNat for S<N> {
    open spec fn val() -> nat {
        N::val() + 1
    }

    fn to_usize() -> (r: usize) {
        let n = N::to_usize();
        if n == usize::MAX {
            n
        } else {
            n + 1
        }
    }

    fn new() -> Self {
        S(N::new())
    }
}

/// The position that the index token `_token` requests: a token carries no
/// runtime payload, so its meaning is wholly the integer that its type
/// stands for.
pub open spec fn denotes<I: TypeNat>(_token: I, k: nat) -> bool {
    I::val() == k
}

/// The strict order on type-level natural numbers.
///
/// `I: LessThan<L>` holds exactly when the value of `I` is strictly below
/// the value of `L`: the two impls cover `0 < n + 1` and, whenever
/// `m < n`, also `m + 1 < n + 1`, and no other pair is covered.  A bound
/// `I: LessThan<L>` with `I` at least `L` therefore fails to compile; for
/// the pairs that do compile, [`LessThan::lt_witness`] proves that the
/// values are ordered.
pub trait LessThan<L: TypeNat>: TypeNat {
    /// The witness that the value of `Self` lies strictly below the value
    /// of `L`.
    proof fn lt_witness()
        ensures
            Self::val() < L::val(),
    ;
}

impl<N: TypeNat> LessThan<S<N>> for Z {
    proof fn lt_witness() {
    }
}

impl<M: TypeNat, N: TypeNat> LessThan<S<N>> for S<M> where M: LessThan<N> {
    proof fn lt_witness() {
        M::lt_witness();
    }
}

} // verus!
