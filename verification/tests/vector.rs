use vector::index::{_0, _1, _10, _11, _12, _13, _14, _15, _2, _3, _4, _5, _6, _7, _8, _9};
use vector::length::{U0, U1, U16, U2, U3, U4, U5, U6, U7, U8};
use vector::typenat::TypeNat;
use vector::{
    from_elem, vector1, vector2, vector3, vector4, vector5, vector6, vector7, vector8, Vector,
};

#[test]
fn create() {
    let v = Vector::<_, U3>::from(vec![1, 3, 4]);
    assert_eq!(v.len(), 3);
    assert_eq!(*v.index(_0()), 1);
    assert_eq!(*v.index(_1()), 3);
    assert_eq!(*v.index(_2()), 4);

    let v = vector3(1, 3, 4);
    assert_eq!(v.len(), 3);
    assert_eq!(*v.index(_0()), 1);
    assert_eq!(*v.index(_1()), 3);
    assert_eq!(*v.index(_2()), 4);

    let v = from_elem::<U3, _>(1);
    assert_eq!(v.len(), 3);
    assert_eq!(*v.index(_0()), 1);
    assert_eq!(*v.index(_1()), 1);
    assert_eq!(*v.index(_2()), 1);
    // assert_eq!(*v.index(_3()), 1); // won't compile
}

#[test]
fn literal_list_three() {
    let v = vector3(1, 3, 4);
    assert_eq!(v.len(), 3);
    assert_eq!(*v.index(_0()), 1);
    assert_eq!(*v.index(_1()), 3);
    assert_eq!(*v.index(_2()), 4);
    // An index token of value 3 or above is rejected by the compiler:
    // assert_eq!(*v.index(_3()), 4); // won't compile
}

#[test]
fn repeated_three() {
    let v = Vector::<_, U3>::from_elem(1);
    assert_eq!(v.len(), 3);
    assert_eq!(*v.index(_0()), 1);
    assert_eq!(*v.index(_1()), 1);
    assert_eq!(*v.index(_2()), 1);
}

#[test]
fn repeated_all_lengths() {
    let a = from_elem::<U0, u8>(7);
    assert_eq!(a.len(), 0);
    let b = from_elem::<U1, u8>(7);
    assert_eq!(b.len(), 1);
    assert_eq!(*b.index(_0()), 7);
    let c = from_elem::<U4, u8>(7);
    assert_eq!(c.len(), 4);
    assert_eq!(*c.index(_0()), 7);
    assert_eq!(*c.index(_1()), 7);
    assert_eq!(*c.index(_2()), 7);
    assert_eq!(*c.index(_3()), 7);
}

#[test]
fn repeated_cloned_strings() {
    let v = from_elem::<U2, String>(String::from("ab"));
    assert_eq!(v.len(), 2);
    assert_eq!(*v.index(_0()), "ab");
    assert_eq!(*v.index(_1()), "ab");
}

#[test]
fn literal_lists_all_arities() {
    let v = vector1(10);
    assert_eq!(v.len(), 1);
    assert_eq!(*v.index(_0()), 10);
    let v = vector2(10, 11);
    assert_eq!(v.len(), 2);
    assert_eq!(*v.index(_1()), 11);
    let v = vector4(10, 11, 12, 13);
    assert_eq!(v.len(), 4);
    assert_eq!(*v.index(_3()), 13);
    let v = vector5(10, 11, 12, 13, 14);
    assert_eq!(v.len(), 5);
    assert_eq!(*v.index(_4()), 14);
    let v = vector6(10, 11, 12, 13, 14, 15);
    assert_eq!(v.len(), 6);
    assert_eq!(*v.index(_5()), 15);
    let v = vector7(10, 11, 12, 13, 14, 15, 16);
    assert_eq!(v.len(), 7);
    assert_eq!(*v.index(_6()), 16);
    let v = vector8(10, 11, 12, 13, 14, 15, 16, 17);
    assert_eq!(v.len(), 8);
    assert_eq!(*v.index(_0()), 10);
    assert_eq!(*v.index(_7()), 17);
}

#[test]
fn all_tokens_in_order() {
    let v = Vector::<_, U16>::from(vec![
        0, 1, 2, 3, 4, 5, 6, 7, 8, 9, 10, 11, 12, 13, 14, 15,
    ]);
    assert_eq!(v.len(), 16);
    assert_eq!(*v.index(_0()), 0);
    assert_eq!(*v.index(_1()), 1);
    assert_eq!(*v.index(_2()), 2);
    assert_eq!(*v.index(_3()), 3);
    assert_eq!(*v.index(_4()), 4);
    assert_eq!(*v.index(_5()), 5);
    assert_eq!(*v.index(_6()), 6);
    assert_eq!(*v.index(_7()), 7);
    assert_eq!(*v.index(_8()), 8);
    assert_eq!(*v.index(_9()), 9);
    assert_eq!(*v.index(_10()), 10);
    assert_eq!(*v.index(_11()), 11);
    assert_eq!(*v.index(_12()), 12);
    assert_eq!(*v.index(_13()), 13);
    assert_eq!(*v.index(_14()), 14);
    assert_eq!(*v.index(_15()), 15);
}

#[test]
fn mutate_then_read() {
    let mut v = vector3(1, 3, 4);
    *v.index_mut(_1()) = 9;
    assert_eq!(*v.index(_0()), 1);
    assert_eq!(*v.index(_1()), 9);
    assert_eq!(*v.index(_2()), 4);
    *v.index_mut(_0()) = 8;
    *v.index_mut(_2()) = 7;
    assert_eq!(*v.index(_0()), 8);
    assert_eq!(*v.index(_1()), 9);
    assert_eq!(*v.index(_2()), 7);
}

#[test]
fn mutate_repeated() {
    let mut v = from_elem::<U4, u32>(5);
    *v.index_mut(_2()) = 6;
    assert_eq!(*v.index(_0()), 5);
    assert_eq!(*v.index(_1()), 5);
    assert_eq!(*v.index(_2()), 6);
    assert_eq!(*v.index(_3()), 5);
}

#[test]
fn debug_rendering() {
    let v = vector3(1, 3, 4);
    assert_eq!(v.debug_string(), "Vector { inner: [1, 3, 4], length: 3 }");
    let v = from_elem::<U3, u8>(1);
    assert_eq!(v.debug_string(), "Vector { inner: [1, 1, 1], length: 3 }");
    let v = vector1("x");
    assert_eq!(v.debug_string(), "Vector { inner: [\"x\"], length: 1 }");
}

#[test]
fn debug_rendering_empty() {
    let v = Vector::<u8, U0>::from(vec![]);
    assert_eq!(v.len(), 0);
    assert_eq!(v.debug_string(), "Vector { inner: [], length: 0 }");
}

#[test]
fn debug_rendering_long_length() {
    let v = from_elem::<U16, u8>(2);
    assert_eq!(
        v.debug_string(),
        "Vector { inner: [2, 2, 2, 2, 2, 2, 2, 2, 2, 2, 2, 2, 2, 2, 2, 2], length: 16 }"
    );
}

#[test]
fn size_mismatch_is_silent_divergence() {
    // Wrapping a sequence of the wrong size is not rejected at run time:
    // the vector then reports the declared length while storing another
    // number of elements, and the debug text shows both.
    let v = Vector::<_, U3>::from(vec![1, 2]);
    assert_eq!(v.len(), 3);
    assert_eq!(v.debug_string(), "Vector { inner: [1, 2], length: 3 }");
}

#[test]
fn length_types_report_their_values() {
    assert_eq!(U0::to_usize(), 0);
    assert_eq!(U1::to_usize(), 1);
    assert_eq!(U2::to_usize(), 2);
    assert_eq!(U3::to_usize(), 3);
    assert_eq!(U4::to_usize(), 4);
    assert_eq!(U5::to_usize(), 5);
    assert_eq!(U6::to_usize(), 6);
    assert_eq!(U7::to_usize(), 7);
    assert_eq!(U8::to_usize(), 8);
    assert_eq!(U16::to_usize(), 16);
}
