//! Numbers and vectors as the shapes hold them.

use vstd::prelude::*;

verus! {

/// Bit pattern of `0.0` in IEEE 754 binary32.
pub const ZERO_BITS: u32 = 0x0000_0000;

/// Bit pattern of `-1.0` in IEEE 754 binary32: sign bit set, biased exponent
/// 127, empty fraction.
pub const NEG_ONE_BITS: u32 = 0xBF80_0000;

/// A single-precision number, held as its IEEE 754 binary32 bit pattern.
///
/// Scalars are carried, stored and compared, never computed with. Two scalars
/// are equal when their bits are equal, so `0.0` and `-0.0` differ and a NaN
/// equals itself.
#[derive(Clone, Copy, Debug, PartialEq, Eq, Structural)]
pub struct Scalar {
    pub bits: u32,
}

impl Scalar {
    /// The number `0.0`.
    pub open spec fn zero() -> Scalar {
        Scalar { bits: ZERO_BITS }
    }

    /// The number `-1.0`.
    pub open spec fn neg_one() -> Scalar {
        Scalar { bits: NEG_ONE_BITS }
    }

    /// The scalar with the given bit pattern.
    pub fn from_bits(bits: u32) -> (s: Scalar)
        ensures
            s == (Scalar { bits }),
    {
        Scalar { bits }
    }

    /// The bit pattern of the scalar.
    pub fn to_bits(self) -> (bits: u32)
        ensures
            bits == self.bits,
    {
        self.bits
    }
}

/// A pair of scalars: an extent or a point in the plane.
#[derive(Clone, Copy, Debug, PartialEq, Eq, Structural)]
pub struct Vec2 {
    pub x: Scalar,
    pub y: Scalar,
}

impl Vec2 {
    pub fn new(x: Scalar, y: Scalar) -> (v: Vec2)
        ensures
            v == (Vec2 { x, y }),
    {
        Vec2 { x, y }
    }
}

/// A triple of scalars: a point in space.
#[derive(Clone, Copy, Debug, PartialEq, Eq, Structural)]
pub struct Vec3 {
    pub x: Scalar,
    pub y: Scalar,
    pub z: Scalar,
}

impl Vec3 {
    pub fn new(x: Scalar, y: Scalar, z: Scalar) -> (v: Vec3)
        ensures
            v == (Vec3 { x, y, z }),
    {
        Vec3 { x, y, z }
    }
}

} // verus!
