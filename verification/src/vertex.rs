use vstd::prelude::*;

verus! {

/// The bit pattern of the float 0.
pub const ZERO: u32 = 0;

/// The bit pattern of the float 1.
pub const ONE: u32 = 0x3F80_0000;

/// The bit pattern of the float -1.
pub const MINUS_ONE: u32 = 0xBF80_0000;

/// Two floats, each as its IEEE 754 single-precision bit pattern.
#[derive(Debug, Clone, Copy, PartialEq, Eq, Structural)]
pub struct Vector2 {
    pub x: u32,
    pub y: u32,
}

/// Three floats, each as its bit pattern.
#[derive(Debug, Clone, Copy, PartialEq, Eq, Structural)]
pub struct Vector3 {
    pub x: u32,
    pub y: u32,
    pub z: u32,
}

/// Four floats, each as its bit pattern.
#[derive(Debug, Clone, Copy, PartialEq, Eq, Structural)]
pub struct Vector4 {
    pub x: u32,
    pub y: u32,
    pub z: u32,
    pub w: u32,
}

/// A matrix of four columns of four floats.
#[derive(Debug, Clone, Copy, PartialEq, Eq, Structural)]
pub struct Matrix4 {
    pub x: Vector4,
    pub y: Vector4,
    pub z: Vector4,
    pub w: Vector4,
}

/// One vertex as the device reads it.
///
/// The library moves vertices and never computes with them, so it holds
/// every component as the bit pattern of its float.
#[derive(Debug, Clone, Copy, PartialEq, Eq, Structural)]
pub struct Vertex {
    pub position: Vector3,
    pub normal: Vector3,
    pub tex_coord: Vector2,
    pub tangent: Vector3,
    pub bitangent: Vector3,
}

/// Where each component of a [`Vertex`] starts, in bytes from the start of the vertex.
#[derive(Debug, Clone, Copy, PartialEq, Eq, Structural)]
pub struct VertexOffsets {
    pub position: u32,
    pub normal: u32,
    pub tex_coord: u32,
    pub tangent: u32,
    pub bitangent: u32,
}

/// The vector of three zeros.
pub open spec fn zero3() -> Vector3 {
    Vector3 { x: ZERO, y: ZERO, z: ZERO }
}

impl Vector2 {
    pub fn new(x: u32, y: u32) -> (v: Vector2)
        ensures
            v == (Vector2 { x, y }),
    {
        Vector2 { x, y }
    }
}

impl Vector3 {
    pub fn new(x: u32, y: u32, z: u32) -> (v: Vector3)
        ensures
            v == (Vector3 { x, y, z }),
    {
        Vector3 { x, y, z }
    }
}

impl Vector4 {
    pub fn new(x: u32, y: u32, z: u32, w: u32) -> (v: Vector4)
        ensures
            v == (Vector4 { x, y, z, w }),
    {
        Vector4 { x, y, z, w }
    }
}

impl Matrix4 {
    /// The matrix that leaves every vector where it is.
    pub open spec fn unit() -> Matrix4 {
        Matrix4 {
            x: Vector4 { x: ONE, y: ZERO, z: ZERO, w: ZERO },
            y: Vector4 { x: ZERO, y: ONE, z: ZERO, w: ZERO },
            z: Vector4 { x: ZERO, y: ZERO, z: ONE, w: ZERO },
            w: Vector4 { x: ZERO, y: ZERO, z: ZERO, w: ONE },
        }
    }

    /// The matrix that leaves every vector where it is.
    pub fn identity() -> (m: Matrix4)
        ensures
            m == Matrix4::unit(),
    {
        Matrix4 {
            x: Vector4 { x: ONE, y: ZERO, z: ZERO, w: ZERO },
            y: Vector4 { x: ZERO, y: ONE, z: ZERO, w: ZERO },
            z: Vector4 { x: ZERO, y: ZERO, z: ONE, w: ZERO },
            w: Vector4 { x: ZERO, y: ZERO, z: ZERO, w: ONE },
        }
    }
}

impl Default for Vertex {
    /// The vertex whose components are all zero.
    fn default() -> (v: Vertex)
        ensures
            v == (Vertex {
                position: zero3(),
                normal: zero3(),
                tex_coord: Vector2 { x: ZERO, y: ZERO },
                tangent: zero3(),
                bitangent: zero3(),
            }),
    {
        Vertex {
            position: Vector3 { x: ZERO, y: ZERO, z: ZERO },
            normal: Vector3 { x: ZERO, y: ZERO, z: ZERO },
            tex_coord: Vector2 { x: ZERO, y: ZERO },
            tangent: Vector3 { x: ZERO, y: ZERO, z: ZERO },
            bitangent: Vector3 { x: ZERO, y: ZERO, z: ZERO },
        }
    }
}

} // verus!
