//! The vertex and index structure of procedurally generated meshes.
//!
//! A layout names each vertex symbolically (a corner of the unit cube, a
//! sample on a cylinder's ring) together with the direction of its normal; the
//! caller scales these into coordinates. Indices list triangles, three to a
//! triangle, and point into the vertex list.
use vstd::prelude::*;

verus! {

/// One of the six unit vectors along a coordinate axis.
#[derive(Clone, Copy, Debug, PartialEq, Eq, Structural)]
pub enum AxisNormal {
    PosX,
    NegX,
    PosY,
    NegY,
    PosZ,
    NegZ,
}

impl AxisNormal {
    /// The vector itself.
    pub open spec fn vector(self) -> (int, int, int) {
        match self {
            AxisNormal::PosX => (1, 0, 0),
            AxisNormal::NegX => (-1, 0, 0),
            AxisNormal::PosY => (0, 1, 0),
            AxisNormal::NegY => (0, -1, 0),
            AxisNormal::PosZ => (0, 0, 1),
            AxisNormal::NegZ => (0, 0, -1),
        }
    }

    /// `p` lies on the side of the unit cube that this vector points out of:
    /// its coordinate along the vector's axis is the vector's sign.
    pub open spec fn on_face(self, p: (int, int, int)) -> bool {
        match self {
            AxisNormal::PosX => p.0 == 1,
            AxisNormal::NegX => p.0 == -1,
            AxisNormal::PosY => p.1 == 1,
            AxisNormal::NegY => p.1 == -1,
            AxisNormal::PosZ => p.2 == 1,
            AxisNormal::NegZ => p.2 == -1,
        }
    }

    /// The x, y and z components of the vector.
    pub fn components(self) -> (r: (i8, i8, i8))
        ensures
            (r.0 as int, r.1 as int, r.2 as int) == self.vector(),
    {
        match self {
            AxisNormal::PosX => (1, 0, 0),
            AxisNormal::NegX => (-1, 0, 0),
            AxisNormal::PosY => (0, 1, 0),
            AxisNormal::NegY => (0, -1, 0),
            AxisNormal::PosZ => (0, 0, 1),
            AxisNormal::NegZ => (0, 0, -1),
        }
    }
}

/// A vertex index: a mesh has at most 65536 vertices.
pub type Index = u16;

/// A mesh whose vertices are described by `V`, with triangles as indices
/// into them.
pub struct MeshLayout<V> {
    pub vertices: Vec<V>,
    pub indices: Vec<Index>,
}

impl<V> MeshLayout<V> {
    /// Whole triangles only, every index naming a vertex, and no more
    /// vertices than a 16-bit index can name.
    pub open spec fn well_formed(&self) -> bool {
        &&& self.vertices.len() <= 0x1_0000
        &&& self.indices.len() % 3 == 0
        &&& forall|j: int|
            0 <= j < self.indices.len() ==> (#[trigger] self.indices@[j]) < self.vertices.len()
    }
}

/// Entry `c` of a triple.
pub open spec fn pick(p: (int, int, int), c: int) -> int {
    if c == 0 {
        p.0
    } else if c == 1 {
        p.1
    } else {
        p.2
    }
}

/// The dot product of two integer vectors.
pub open spec fn dot(a: (int, int, int), b: (int, int, int)) -> int {
    a.0 * b.0 + a.1 * b.1 + a.2 * b.2
}

/// The cross product of two integer vectors.
pub open spec fn cross(a: (int, int, int), b: (int, int, int)) -> (int, int, int) {
    (a.1 * b.2 - a.2 * b.1, a.2 * b.0 - a.0 * b.2, a.0 * b.1 - a.1 * b.0)
}

/// `a - b`, component by component.
pub open spec fn minus(a: (int, int, int), b: (int, int, int)) -> (int, int, int) {
    (a.0 - b.0, a.1 - b.1, a.2 - b.2)
}

} // verus!
