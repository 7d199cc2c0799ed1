//! Positions, rotations and scales in world space.
//!
//! Every coordinate is a single-precision number, held as its IEEE 754 bit
//! pattern: the transform store keeps and hands back what it was given, bit
//! for bit, and never computes with it.

use vstd::prelude::*;

verus! {

/// The bit pattern of the number zero.
pub const ZERO: u32 = 0;

/// The bit pattern of the number one.
pub const ONE: u32 = 0x3f80_0000;

/// A homogeneous 4-vector.
#[derive(Debug, Clone, Copy, PartialEq, Eq, Structural)]
pub struct Vector4 {
    pub x: u32,
    pub y: u32,
    pub z: u32,
    pub w: u32,
}

/// A rotation in three dimensions, as the rows of its 3 × 3 matrix.
#[derive(Debug, Clone, Copy, PartialEq, Eq, Structural)]
pub struct Rotation3 {
    pub m11: u32,
    pub m12: u32,
    pub m13: u32,
    pub m21: u32,
    pub m22: u32,
    pub m23: u32,
    pub m31: u32,
    pub m32: u32,
    pub m33: u32,
}

/// A scale with a factor of its own for each homogeneous coordinate.
#[derive(Debug, Clone, Copy, PartialEq, Eq, Structural)]
pub struct Scale4 {
    pub x: u32,
    pub y: u32,
    pub z: u32,
    pub w: u32,
}

impl Vector4 {
    /// The origin of homogeneous space: (0, 0, 0, 1).
    pub open spec fn spec_origin() -> Vector4 {
        Vector4 { x: ZERO, y: ZERO, z: ZERO, w: ONE }
    }

    #[verifier::when_used_as_spec(spec_origin)]
    pub fn origin() -> (v: Vector4)
        ensures
            v == Self::spec_origin(),
    {
        Vector4 { x: ZERO, y: ZERO, z: ZERO, w: ONE }
    }
}

impl Rotation3 {
    /// The rotation that turns nothing: the unit matrix.
    pub open spec fn spec_identity() -> Rotation3 {
        Rotation3 {
            m11: ONE,
            m12: ZERO,
            m13: ZERO,
            m21: ZERO,
            m22: ONE,
            m23: ZERO,
            m31: ZERO,
            m32: ZERO,
            m33: ONE,
        }
    }

    #[verifier::when_used_as_spec(spec_identity)]
    pub fn identity() -> (r: Rotation3)
        ensures
            r == Self::spec_identity(),
    {
        Rotation3 {
            m11: ONE,
            m12: ZERO,
            m13: ZERO,
            m21: ZERO,
            m22: ONE,
            m23: ZERO,
            m31: ZERO,
            m32: ZERO,
            m33: ONE,
        }
    }
}

impl Scale4 {
    /// The scale that leaves every coordinate as it is: (1, 1, 1, 1).
    pub open spec fn spec_identity() -> Scale4 {
        Scale4 { x: ONE, y: ONE, z: ONE, w: ONE }
    }

    #[verifier::when_used_as_spec(spec_identity)]
    pub fn identity() -> (s: Scale4)
        ensures
            s == Self::spec_identity(),
    {
        Scale4 { x: ONE, y: ONE, z: ONE, w: ONE }
    }
}

} // verus!
