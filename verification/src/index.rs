//! Named index tokens.
//!
//! One zero-sized token per small integer, each of the length type of that
//! value, for use with [`Vector::index`](crate::Vector::index) and
//! [`Vector::index_mut`](crate::Vector::index_mut): the token `_2()`
//! requests the element at position 2, and the request compiles only
//! against a vector whose length type lies strictly above 2.

use vstd::prelude::*;

use crate::length::{U0, U1, U2, U3, U4, U5, U6, U7, U8, U9, U10, U11, U12, U13, U14, U15};
use crate::typenat::{denotes, TypeNat};

verus! {

pub fn _0() -> (r: U0)
    ensures
        denotes(r, 0),
{
    U0::new()
}

pub fn _1() -> (r: U1)
    ensures
        denotes(r, 1),
{
    U1::new()
}

pub fn _2() -> (r: U2)
    ensures
        denotes(r, 2),
{
    U2::new()
}

pub fn _3() -> (r: U3)
    ensures
        denotes(r, 3),
{
    U3::new()
}

pub fn _4() -> (r: U4)
    ensures
        denotes(r, 4),
{
    U4::new()
}

pub fn _5() -> (r: U5)
    ensures
        denotes(r, 5),
{
    U5::new()
}

pub fn _6() -> (r: U6)
    ensures
        denotes(r, 6),
{
    U6::new()
}

pub fn _7() -> (r: U7)
    ensures
        denotes(r, 7),
{
    U7::new()
}

pub fn _8() -> (r: U8)
    ensures
        denotes(r, 8),
{
    U8::new()
}

pub fn _9() -> (r: U9)
    ensures
        denotes(r, 9),
{
    U9::new()
}

pub fn _10() -> (r: U10)
    ensures
        denotes(r, 10),
{
    U10::new()
}

pub fn _11() -> (r: U11)
    ensures
        denotes(r, 11),
{
    U11::new()
}

pub fn _12() -> (r: U12)
    ensures
        denotes(r, 12),
{
    U12::new()
}

pub fn _13() -> (r: U13)
    ensures
        denotes(r, 13),
{
    U13::new()
}

pub fn _14() -> (r: U14)
    ensures
        denotes(r, 14),
{
    U14::new()
}

pub fn _15() -> (r: U15)
    ensures
        denotes(r, 15),
{
    U15::new()
}

} // verus!
