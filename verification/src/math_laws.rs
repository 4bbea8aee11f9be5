//! What the comparison of numbers comes to, in terms of the parts of their encoding.
use vstd::prelude::*;
use vstd::std_specs::cmp::PartialEqSpec;

use crate::math::{Float32, Quat, Vec3};

verus! {

/// The exponent field of a number.
pub open spec fn exponent(number: Float32) -> int {
    number.bits as int / 0x80_0000 % 0x100
}

/// The fraction field of a number.
pub open spec fn fraction(number: Float32) -> int {
    number.bits as int % 0x80_0000
}

/// Whether two numbers are equal as IEEE 754 has it: neither is a NaN, which has all ones in its
/// exponent and something in its fraction, and they are encoded alike or both zero, whatever the sign.
pub open spec fn equal_numbers(a: Float32, b: Float32) -> bool {
    &&& !(exponent(a) == 0xff && fraction(a) != 0)
    &&& !(exponent(b) == 0xff && fraction(b) != 0)
    &&& a.bits == b.bits || {
        &&& exponent(a) == 0 && fraction(a) == 0
        &&& exponent(b) == 0 && fraction(b) == 0
    }
}

/// Numbers are compared as IEEE 754 has it.
pub proof fn law_numbers_are_equal_as_numbers(a: Float32, b: Float32)
    ensures
        a.eq_spec(&b) <==> equal_numbers(a, b),
        forall|r: bool| #[trigger]
            <Float32 as PartialEq>::eq.ensures((&a, &b), r) ==> r == equal_numbers(a, b),
{
    let x = a.bits;
    let y = b.bits;
    assert(x % 0x8000_0000 == (x / 0x80_0000 % 0x100) * 0x80_0000 + x % 0x80_0000) by (bit_vector);
    assert(y % 0x8000_0000 == (y / 0x80_0000 % 0x100) * 0x80_0000 + y % 0x80_0000) by (bit_vector);
}

/// Only a pattern with all ones in its exponent and something in its fraction is not a number.
pub proof fn law_what_is_not_a_number(a: Float32, r: bool)
    requires
        Float32::is_nan.ensures((&a,), r),
    ensures
        r <==> exponent(a) == 0xff && fraction(a) != 0,
{
    let x = a.bits;
    assert(x % 0x8000_0000 == (x / 0x80_0000 % 0x100) * 0x80_0000 + x % 0x80_0000) by (bit_vector);
}

/// Vectors are equal exactly if they are in each of their components.
pub proof fn law_vectors_are_compared_by_component(a: Vec3, b: Vec3)
    ensures
        a.eq_spec(&b) <==> {
            &&& equal_numbers(a.x, b.x)
            &&& equal_numbers(a.y, b.y)
            &&& equal_numbers(a.z, b.z)
        },
{
    law_numbers_are_equal_as_numbers(a.x, b.x);
    law_numbers_are_equal_as_numbers(a.y, b.y);
    law_numbers_are_equal_as_numbers(a.z, b.z);
}

/// Rotations are equal exactly if they are in each of their components.
pub proof fn law_rotations_are_compared_by_component(a: Quat, b: Quat)
    ensures
        a.eq_spec(&b) <==> {
            &&& equal_numbers(a.x, b.x)
            &&& equal_numbers(a.y, b.y)
            &&& equal_numbers(a.z, b.z)
            &&& equal_numbers(a.w, b.w)
        },
{
    law_numbers_are_equal_as_numbers(a.x, b.x);
    law_numbers_are_equal_as_numbers(a.y, b.y);
    law_numbers_are_equal_as_numbers(a.z, b.z);
    law_numbers_are_equal_as_numbers(a.w, b.w);
}

/// A number keeps the bits that it is made from, and zero has none set.
pub proof fn law_numbers_keep_their_bits(bits: u32, made: Float32, zero: Float32)
    requires
        Float32::from_bits.ensures((bits,), made),
        Float32::zero.ensures((), zero),
    ensures
        made.bits == bits,
        zero.bits == 0,
{
}

/// Vectors and rotations have the components that they are made from, each in its place.
pub proof fn law_components_keep_their_places(
    x: Float32,
    y: Float32,
    z: Float32,
    w: Float32,
    vector: Vec3,
    rotation: Quat,
)
    requires
        Vec3::new.ensures((x, y, z), vector),
        Quat::new.ensures((x, y, z, w), rotation),
    ensures
        vector.x == x && vector.y == y && vector.z == z,
        rotation.x == x && rotation.y == y && rotation.z == z && rotation.w == w,
{
}

} // verus!
