//! Matrix-stack modes and the integer vector and matrix layouts it shares.

use vstd::prelude::*;

pub use super::types::{
    IMatrix2, IMatrix3, IMatrix4, IMatrix4Unaligned, IRect, IVector2, IVector3, IVector4, L64Rect,
    L64Vector2, L64Vector3, L64Vector4, SRect, SVector2, SVector3, SVector4,
};

verus! {

/// Context of the vector floating-point unit.
pub struct VfpuContext {}

#[derive(Clone, Copy, Debug, PartialEq, Eq, Structural)]
pub enum Mode {
    Projection,
    View,
    Model,
    Texture,
}

impl Mode {
    /// The value of this variant in the system interface.
    pub open spec fn spec_to_i32(self) -> i32 {
        match self {
            Mode::Projection => 0,
            Mode::View => 1,
            Mode::Model => 2,
            Mode::Texture => 3,
        }
    }

    /// The value of this variant in the system interface.
    pub fn to_i32(self) -> (v: i32)
        ensures
            v == self.spec_to_i32(),
    {
        match self {
            Mode::Projection => 0,
            Mode::View => 1,
            Mode::Model => 2,
            Mode::Texture => 3,
        }
    }
}

} // verus!
