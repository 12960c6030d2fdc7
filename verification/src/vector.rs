//! Pairs and quadruples of binary32 bit patterns.

use vstd::prelude::*;
use crate::binary32::{HUNDRED, ONE, ZERO};

verus! {

/// Two binary32 patterns: a position `(x, y)` or a size `(w, h)`.
#[derive(Debug, Clone, Copy, PartialEq, Eq, Structural)]
pub struct Vec2Bits {
    pub x: u32,
    pub y: u32,
}

/// Four binary32 patterns: a colour `(r, g, b, a)` or four corner radii
/// (top-left, top-right, bottom-right, bottom-left).
#[derive(Debug, Clone, Copy, PartialEq, Eq, Structural)]
pub struct Vec4Bits {
    pub x: u32,
    pub y: u32,
    pub z: u32,
    pub w: u32,
}

impl Vec2Bits {
    /// Both components zero.
    pub open spec fn spec_zero() -> Vec2Bits {
        Vec2Bits { x: ZERO, y: ZERO }
    }

    /// Both components one hundred.
    pub open spec fn spec_hundred() -> Vec2Bits {
        Vec2Bits { x: HUNDRED, y: HUNDRED }
    }

    pub fn new(x: u32, y: u32) -> (v: Self)
        ensures
            v == (Vec2Bits { x, y }),
    {
        Vec2Bits { x, y }
    }

    #[verifier::when_used_as_spec(spec_zero)]
    pub fn zero() -> (v: Self)
        ensures
            v == Vec2Bits::spec_zero(),
    {
        Vec2Bits { x: ZERO, y: ZERO }
    }

    #[verifier::when_used_as_spec(spec_hundred)]
    pub fn hundred() -> (v: Self)
        ensures
            v == Vec2Bits::spec_hundred(),
    {
        Vec2Bits { x: HUNDRED, y: HUNDRED }
    }
}

impl Vec4Bits {
    /// All four components zero.
    pub open spec fn spec_zero() -> Vec4Bits {
        Vec4Bits { x: ZERO, y: ZERO, z: ZERO, w: ZERO }
    }

    /// All four components one.
    pub open spec fn spec_one() -> Vec4Bits {
        Vec4Bits { x: ONE, y: ONE, z: ONE, w: ONE }
    }

    /// The components in order.
    pub open spec fn spec_to_array(&self) -> [u32; 4] {
        [self.x, self.y, self.z, self.w]
    }

    pub fn new(x: u32, y: u32, z: u32, w: u32) -> (v: Self)
        ensures
            v == (Vec4Bits { x, y, z, w }),
    {
        Vec4Bits { x, y, z, w }
    }

    #[verifier::when_used_as_spec(spec_zero)]
    pub fn zero() -> (v: Self)
        ensures
            v == Vec4Bits::spec_zero(),
    {
        Vec4Bits { x: ZERO, y: ZERO, z: ZERO, w: ZERO }
    }

    #[verifier::when_used_as_spec(spec_one)]
    pub fn one() -> (v: Self)
        ensures
            v == Vec4Bits::spec_one(),
    {
        Vec4Bits { x: ONE, y: ONE, z: ONE, w: ONE }
    }

    #[verifier::when_used_as_spec(spec_to_array)]
    pub fn to_array(&self) -> (a: [u32; 4])
        ensures
            a == self.spec_to_array(),
    {
        [self.x, self.y, self.z, self.w]
    }
}

} // verus!
