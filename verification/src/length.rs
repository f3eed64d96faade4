//! Named length types.
//!
//! One alias per small integer, each naming the type-level natural number
//! of that value, for use as the length parameter of
//! [`Vector`](crate::Vector).

use vstd::prelude::*;

use crate::typenat::{S, Z};

verus! {

pub type U0 = Z;

pub type U1 = S<U0>;

pub type U2 = S<U1>;

pub type U3 = S<U2>;

pub type U4 = S<U3>;

pub type U5 = S<U4>;

pub type U6 = S<U5>;

pub type U7 = S<U6>;

pub type U8 = S<U7>;

pub type U9 = S<U8>;

pub type U10 = S<U9>;

pub type U11 = S<U10>;

pub type U12 = S<U11>;

pub type U13 = S<U12>;

pub type U14 = S<U13>;

pub type U15 = S<U14>;

pub type U16 = S<U15>;

} // verus!
