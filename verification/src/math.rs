//! Single-precision numbers as bit patterns, and the vectors made of them.
//!
//! Camera poses and Gaussians are only moved around and compared by this crate, never computed
//! with. Holding each number as its IEEE 754 bit pattern keeps every value, infinities and NaN
//! payloads included, and makes the comparison a statement about integers.
use vstd::prelude::*;

verus! {

/// What remains of a bit pattern when its sign bit is dropped.
pub open spec fn magnitude(bits: u32) -> int {
    bits as int % 0x8000_0000
}

/// Whether a bit pattern encodes "not a number": an exponent of all ones with a non-zero fraction.
pub open spec fn is_nan(bits: u32) -> bool {
    magnitude(bits) > 0x7f80_0000
}

/// IEEE 754 equality of the encoded numbers: a NaN differs from everything, itself included, the
/// two zeros are equal, and otherwise the patterns have to agree.
pub open spec fn same_number(a: u32, b: u32) -> bool {
    &&& !is_nan(a)
    &&& !is_nan(b)
    &&& a == b || (magnitude(a) == 0 && magnitude(b) == 0)
}

/// A single-precision floating-point number, held as its bit pattern.
#[derive(Debug, Clone, Copy)]
pub struct Float32 {
    pub bits: u32,
}

impl Float32 {
    /// Positive zero.
    pub open spec fn spec_zero() -> Float32 {
        Float32 { bits: 0 }
    }

    /// Positive zero.
    #[verifier::when_used_as_spec(spec_zero)]
    pub fn zero() -> (r: Float32)
        ensures
            r == Float32::spec_zero(),
    {
        Float32 { bits: 0 }
    }

    /// The number with the given bit pattern.
    pub fn from_bits(bits: u32) -> (r: Float32)
        ensures
            r.bits == bits,
    {
        Float32 { bits }
    }

    /// Whether this is not a number.
    pub fn is_nan(&self) -> (r: bool)
        ensures
            r == is_nan(self.bits),
    {
        self.bits % 0x8000_0000 > 0x7f80_0000
    }
}

impl PartialEq for Float32 {
    fn eq(&self, other: &Float32) -> (r: bool) {
        !self.is_nan() && !other.is_nan() && (self.bits == other.bits || (self.bits % 0x8000_0000
            == 0 && other.bits % 0x8000_0000 == 0))
    }
}

impl vstd::std_specs::cmp::PartialEqSpecImpl for Float32 {
    open spec fn obeys_eq_spec() -> bool {
        true
    }

    open spec fn eq_spec(&self, other: &Float32) -> bool {
        same_number(self.bits, other.bits)
    }
}

/// A position, a scale or one spherical-harmonics coefficient per colour channel.
#[derive(Debug, Clone, Copy)]
pub struct Vec3 {
    pub x: Float32,
    pub y: Float32,
    pub z: Float32,
}

impl Vec3 {
    /// The vector of the given components.
    pub fn new(x: Float32, y: Float32, z: Float32) -> (r: Vec3)
        ensures
            r == (Vec3 { x, y, z }),
    {
        Vec3 { x, y, z }
    }
}

impl PartialEq for Vec3 {
    fn eq(&self, other: &Vec3) -> (r: bool) {
        self.x == other.x && self.y == other.y && self.z == other.z
    }
}

impl vstd::std_specs::cmp::PartialEqSpecImpl for Vec3 {
    open spec fn obeys_eq_spec() -> bool {
        true
    }

    open spec fn eq_spec(&self, other: &Vec3) -> bool {
        &&& same_number(self.x.bits, other.x.bits)
        &&& same_number(self.y.bits, other.y.bits)
        &&& same_number(self.z.bits, other.z.bits)
    }
}

/// A rotation, as a quaternion.
#[derive(Debug, Clone, Copy)]
pub struct Quat {
    pub x: Float32,
    pub y: Float32,
    pub z: Float32,
    pub w: Float32,
}

impl Quat {
    /// The quaternion of the given components.
    pub fn new(x: Float32, y: Float32, z: Float32, w: Float32) -> (r: Quat)
        ensures
            r == (Quat { x, y, z, w }),
    {
        Quat { x, y, z, w }
    }
}

impl PartialEq for Quat {
    fn eq(&self, other: &Quat) -> (r: bool) {
        self.x == other.x && self.y == other.y && self.z == other.z && self.w == other.w
    }
}

impl vstd::std_specs::cmp::PartialEqSpecImpl for Quat {
    open spec fn obeys_eq_spec() -> bool {
        true
    }

    open spec fn eq_spec(&self, other: &Quat) -> bool {
        &&& same_number(self.x.bits, other.x.bits)
        &&& same_number(self.y.bits, other.y.bits)
        &&& same_number(self.z.bits, other.z.bits)
        &&& same_number(self.w.bits, other.w.bits)
    }
}

} // verus!
