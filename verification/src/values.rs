//! Plain values that travel to the shader as uniforms.
//!
//! A floating-point component is carried as its IEEE-754 single-precision bit
//! pattern: the library moves such values around and never computes on them.

use vstd::prelude::*;

verus! {

/// One single-precision number, held as its bit pattern.
#[derive(Clone, Copy, Debug, PartialEq, Eq, Structural)]
pub struct Scalar {
    pub bits: u32,
}

impl Scalar {
    /// The bit pattern of `0.0`.
    pub open spec fn zero_spec() -> Scalar {
        Scalar { bits: 0 }
    }

    /// The bit pattern of `1.0`.
    pub open spec fn one_spec() -> Scalar {
        Scalar { bits: 0x3F80_0000 }
    }

    pub fn from_bits(bits: u32) -> (s: Scalar)
        ensures
            s.bits == bits,
    {
        Scalar { bits }
    }

    pub fn to_bits(self) -> (bits: u32)
        ensures
            bits == self.bits,
    {
        self.bits
    }

    #[verifier::when_used_as_spec(zero_spec)]
    pub fn zero() -> (s: Scalar)
        ensures
            s == Scalar::zero_spec(),
    {
        Scalar { bits: 0 }
    }

    #[verifier::when_used_as_spec(one_spec)]
    pub fn one() -> (s: Scalar)
        ensures
            s == Scalar::one_spec(),
    {
        Scalar { bits: 0x3F80_0000 }
    }
}

/// A vector of two components.
#[derive(Clone, Copy, Debug, PartialEq, Eq, Structural)]
pub struct Vec2 {
    pub x: Scalar,
    pub y: Scalar,
}

/// A vector of three components.
#[derive(Clone, Copy, Debug, PartialEq, Eq, Structural)]
pub struct Vec3 {
    pub x: Scalar,
    pub y: Scalar,
    pub z: Scalar,
}

/// A vector of four components.
#[derive(Clone, Copy, Debug, PartialEq, Eq, Structural)]
pub struct Vec4 {
    pub x: Scalar,
    pub y: Scalar,
    pub z: Scalar,
    pub w: Scalar,
}

/// A 4x4 matrix, held by columns.
#[derive(Clone, Copy, Debug, PartialEq, Eq, Structural)]
pub struct Mat4 {
    pub c0: Vec4,
    pub c1: Vec4,
    pub c2: Vec4,
    pub c3: Vec4,
}

impl Vec2 {
    pub open spec fn zero_spec() -> Vec2 {
        Vec2 { x: Scalar::zero_spec(), y: Scalar::zero_spec() }
    }

    #[verifier::when_used_as_spec(zero_spec)]
    pub fn zero() -> (v: Vec2)
        ensures
            v == Vec2::zero_spec(),
    {
        Vec2 { x: Scalar::zero(), y: Scalar::zero() }
    }
}

impl Vec3 {
    pub open spec fn zero_spec() -> Vec3 {
        Vec3 { x: Scalar::zero_spec(), y: Scalar::zero_spec(), z: Scalar::zero_spec() }
    }

    #[verifier::when_used_as_spec(zero_spec)]
    pub fn zero() -> (v: Vec3)
        ensures
            v == Vec3::zero_spec(),
    {
        Vec3 { x: Scalar::zero(), y: Scalar::zero(), z: Scalar::zero() }
    }
}

impl Vec4 {
    pub open spec fn zero_spec() -> Vec4 {
        Vec4 {
            x: Scalar::zero_spec(),
            y: Scalar::zero_spec(),
            z: Scalar::zero_spec(),
            w: Scalar::zero_spec(),
        }
    }

    #[verifier::when_used_as_spec(zero_spec)]
    pub fn zero() -> (v: Vec4)
        ensures
            v == Vec4::zero_spec(),
    {
        Vec4 { x: Scalar::zero(), y: Scalar::zero(), z: Scalar::zero(), w: Scalar::zero() }
    }
}

/// A value of one of the kinds that the raytracing shader declares.
#[derive(Clone, Copy, Debug, PartialEq, Eq, Structural)]
pub enum UniformValue {
    /// An unsigned integer.
    UInt(u32),
    /// One float.
    Float(Scalar),
    /// Two floats.
    Float2(Vec2),
    /// Three floats.
    Float3(Vec3),
    /// A 4x4 float matrix.
    Matrix4(Mat4),
}

} // verus!
