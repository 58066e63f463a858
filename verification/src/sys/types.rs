//! Integer rectangles, vectors and matrices.

use vstd::prelude::*;

verus! {

#[derive(Debug, Copy, Clone)]
pub struct SRect {
    pub x: i16,
    pub y: i16,
    pub w: i16,
    pub h: i16,
}

#[derive(Debug, Copy, Clone)]
pub struct IRect {
    pub x: i32,
    pub y: i32,
    pub w: i32,
    pub h: i32,
}

#[derive(Debug, Copy, Clone)]
pub struct L64Rect {
    pub x: u64,
    pub y: u64,
    pub w: u64,
    pub h: u64,
}

#[derive(Debug, Copy, Clone)]
pub struct SVector2 {
    pub x: i16,
    pub y: i16,
}

#[derive(Debug, Copy, Clone)]
pub struct IVector2 {
    pub x: i32,
    pub y: i32,
}

#[derive(Debug, Copy, Clone)]
pub struct L64Vector2 {
    pub x: u64,
    pub y: u64,
}

#[derive(Debug, Copy, Clone)]
pub struct SVector3 {
    pub x: i16,
    pub y: i16,
    pub z: i16,
}

#[derive(Debug, Copy, Clone)]
pub struct IVector3 {
    pub x: i32,
    pub y: i32,
    pub z: i32,
}

#[derive(Debug, Copy, Clone)]
pub struct L64Vector3 {
    pub x: u64,
    pub y: u64,
    pub z: u64,
}

#[derive(Debug, Copy, Clone)]
pub struct SVector4 {
    pub x: i16,
    pub y: i16,
    pub z: i16,
    pub w: i16,
}

#[derive(Debug, Copy, Clone)]
pub struct IVector4 {
    pub x: i32,
    pub y: i32,
    pub z: i32,
    pub w: i32,
}

#[derive(Debug, Copy, Clone)]
pub struct L64Vector4 {
    pub x: u64,
    pub y: u64,
    pub z: u64,
    pub w: u64,
}

#[derive(Debug, Copy, Clone)]
pub struct IMatrix2 {
    pub x: IVector2,
    pub y: IVector2,
}

#[derive(Debug, Copy, Clone)]
pub struct IMatrix3 {
    pub x: IVector3,
    pub y: IVector3,
    pub z: IVector3,
}

#[derive(Debug, Copy, Clone)]
pub struct IMatrix4 {
    pub x: IVector4,
    pub y: IVector4,
    pub z: IVector4,
    pub w: IVector4,
}

#[derive(Debug, Copy, Clone)]
pub struct IMatrix4Unaligned {
    pub x: IVector4,
    pub y: IVector4,
    pub z: IVector4,
    pub w: IVector4,
}

} // verus!
