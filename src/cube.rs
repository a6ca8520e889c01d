//! The cube mesh: the unit cube's corners, four to a face so that every face
//! carries its own flat normal, and two triangles per face.
use vstd::prelude::*;
use crate::mesh::{cross, dot, minus, pick, AxisNormal, MeshLayout};

verus! {

/// A corner of the cube that spans -1 to 1 on each axis.
#[derive(Clone, Copy, Debug, PartialEq, Eq, Structural)]
pub struct Corner {
    pub x: i8,
    pub y: i8,
    pub z: i8,
}

impl Corner {
    /// The corner's coordinates.
    pub open spec fn coords(self) -> (int, int, int) {
        (self.x as int, self.y as int, self.z as int)
    }
}

/// A vertex of the cube mesh: where it sits and which way its face looks.
#[derive(Clone, Copy, Debug, PartialEq, Eq, Structural)]
pub struct CubeVertex {
    pub corner: Corner,
    pub normal: AxisNormal,
}

/// Number of vertices of the cube mesh: four for each of its six faces.
pub const CUBE_POINT_COUNT: u16 = 24;

/// Number of indices of the cube mesh: two triangles for each face.
pub const CUBE_INDEX_COUNT: u16 = 36;

/// The outward normal of face `f` of the cube. Faces come in pairs, across z,
/// then x, then y, each pair with its negative side first.
pub open spec fn cube_face_normal(f: int) -> AxisNormal {
    if f == 0 {
        AxisNormal::NegZ
    } else if f == 1 {
        AxisNormal::PosZ
    } else if f == 2 {
        AxisNormal::NegX
    } else if f == 3 {
        AxisNormal::PosX
    } else if f == 4 {
        AxisNormal::NegY
    } else {
        AxisNormal::PosY
    }
}

/// Corner `k` of a square going round from (-1, -1) to (1, -1), (1, 1)
/// and (-1, 1).
pub open spec fn square_corner(k: int) -> (int, int) {
    if k == 0 {
        (-1, -1)
    } else if k == 1 {
        (1, -1)
    } else if k == 2 {
        (1, 1)
    } else {
        (-1, 1)
    }
}

/// Corner `k` of face `f` of the cube. The face lies where its normal's axis
/// is at the normal's sign; the square is walked over the two axes that
/// follow that one in the order x, y, z, x.
pub open spec fn cube_corner(f: int, k: int) -> (int, int, int) {
    let s = if f % 2 == 0 { -1int } else { 1int };
    let (u, v) = square_corner(k);
    if f / 2 == 0 {
        (u, v, s)
    } else if f / 2 == 1 {
        (s, u, v)
    } else {
        (v, s, u)
    }
}

/// Vertex `i` of the cube mesh: corner `i % 4` of face `i / 4`.
pub open spec fn cube_vertex_matches(v: CubeVertex, i: int) -> bool {
    &&& v.corner.coords() == cube_corner(i / 4, i % 4)
    &&& v.normal == cube_face_normal(i / 4)
}

/// The three vertex numbers of triangle `t` of the cube mesh. Face `f` has
/// triangles `2f` and `2f + 1` over its vertices `4f` to `4f + 3`, wound so
/// that they run clockwise when seen from outside the cube.
pub open spec fn cube_triangle(t: int) -> (int, int, int) {
    let b = 4 * (t / 2);
    if (t / 2) % 2 == 0 {
        if t % 2 == 0 {
            (b, b + 1, b + 2)
        } else {
            (b, b + 2, b + 3)
        }
    } else {
        if t % 2 == 0 {
            (b + 2, b + 1, b)
        } else {
            (b + 3, b + 2, b)
        }
    }
}

/// Index `j` of the cube mesh.
pub open spec fn cube_index(j: int) -> int {
    pick(cube_triangle(j / 3), j % 3)
}

fn square_corner_exec(k: u16) -> (r: (i8, i8))
    requires
        k < 4,
    ensures
        (r.0 as int, r.1 as int) == square_corner(k as int),
{
    if k == 0 {
        (-1, -1)
    } else if k == 1 {
        (1, -1)
    } else if k == 2 {
        (1, 1)
    } else {
        (-1, 1)
    }
}

fn cube_face_normal_exec(f: u16) -> (r: AxisNormal)
    requires
        f < 6,
    ensures
        r == cube_face_normal(f as int),
{
    if f == 0 {
        AxisNormal::NegZ
    } else if f == 1 {
        AxisNormal::PosZ
    } else if f == 2 {
        AxisNormal::NegX
    } else if f == 3 {
        AxisNormal::PosX
    } else if f == 4 {
        AxisNormal::NegY
    } else {
        AxisNormal::PosY
    }
}

fn cube_vertex(f: u16, k: u16) -> (r: CubeVertex)
    requires
        f < 6,
        k < 4,
    ensures
        r.corner.coords() == cube_corner(f as int, k as int),
        r.normal == cube_face_normal(f as int),
{
    let s: i8 = if f % 2 == 0 { -1 } else { 1 };
    let (u, v) = square_corner_exec(k);
    let corner = if f / 2 == 0 {
        Corner { x: u, y: v, z: s }
    } else if f / 2 == 1 {
        Corner { x: s, y: u, z: v }
    } else {
        Corner { x: v, y: s, z: u }
    };
    CubeVertex { corner, normal: cube_face_normal_exec(f) }
}

/// `m` is the cube mesh: vertex `i` is corner `i % 4` of face `i / 4`, and
/// the indices are those of `cube_index`.
pub open spec fn is_cube_layout(m: MeshLayout<CubeVertex>) -> bool {
    &&& m.vertices.len() == CUBE_POINT_COUNT
    &&& m.indices.len() == CUBE_INDEX_COUNT
    &&& forall|i: int| 0 <= i < 24 ==> cube_vertex_matches(#[trigger] m.vertices@[i], i)
    &&& forall|j: int| 0 <= j < 36 ==> (#[trigger] m.indices@[j]) as int == cube_index(j)
}

/// The cube mesh: 24 vertices, four to a face so that each face carries its
/// own flat normal, and 12 triangles.
pub fn cube_layout() -> (r: MeshLayout<CubeVertex>)
    ensures
        is_cube_layout(r),
        r.well_formed(),
{
    let mut vertices: Vec<CubeVertex> = Vec::new();
    let mut f: u16 = 0;
    while f < 6
        invariant
            f <= 6,
            vertices.len() == 4 * f,
            forall|i: int| 0 <= i < 4 * f ==> cube_vertex_matches(#[trigger] vertices@[i], i),
        decreases 6 - f,
    {
        let mut k: u16 = 0;
        while k < 4
            invariant
                f < 6,
                k <= 4,
                vertices.len() == 4 * f + k,
                forall|i: int| 0 <= i < 4 * f + k ==> cube_vertex_matches(#[trigger] vertices@[i], i),
            decreases 4 - k,
        {
            vertices.push(cube_vertex(f, k));
            k = k + 1;
        }
        f = f + 1;
    }
    let mut indices: Vec<u16> = Vec::new();
    let mut f: u16 = 0;
    while f < 6
        invariant
            f <= 6,
            indices.len() == 6 * f,
            forall|j: int| 0 <= j < 6 * f ==> (#[trigger] indices@[j]) as int == cube_index(j),
        decreases 6 - f,
    {
        let b = 4 * f;
        if f % 2 == 0 {
            indices.push(b);
            indices.push(b + 1);
            indices.push(b + 2);
            indices.push(b);
            indices.push(b + 2);
            indices.push(b + 3);
        } else {
            indices.push(b + 2);
            indices.push(b + 1);
            indices.push(b);
            indices.push(b + 3);
            indices.push(b + 2);
            indices.push(b);
        }
        f = f + 1;
    }
    let r = MeshLayout { vertices, indices };
    proof {
        lemma_cube_indices_in_range(r);
    }
    r
}

/// Triangle `t` of the cube mesh is wound clockwise seen from outside: the
/// cross product of its two edges from the first vertex points into the cube,
/// against the normal of the face that holds all three of its vertices.
pub open spec fn cube_triangle_clockwise(t: int) -> bool {
    let (a, b, c) = cube_triangle(t);
    let f = a / 4;
    &&& b / 4 == f
    &&& c / 4 == f
    &&& dot(
        cross(
            minus(cube_corner(f, b % 4), cube_corner(f, a % 4)),
            minus(cube_corner(f, c % 4), cube_corner(f, a % 4)),
        ),
        cube_face_normal(f).vector(),
    ) < 0
}

proof fn lemma_cube_triangle_clockwise(t: int)
    requires
        0 <= t < 12,
    ensures
        cube_triangle_clockwise(t),
{
    let f = t / 2;
    let (a, b, c) = cube_triangle(t);
    assert(a / 4 == f && b / 4 == f && c / 4 == f);
    let p0 = cube_corner(f, a % 4);
    let p1 = cube_corner(f, b % 4);
    let p2 = cube_corner(f, c % 4);
    let n = cube_face_normal(f).vector();
    if t == 0 {
        assert(p0 == (-1int, -1int, -1int) && p1 == (1int, -1int, -1int) && p2 == (1int, 1int, -1int) && n == (0int, 0int, -1int));
        assert(dot(cross(minus(p1, p0), minus(p2, p0)), n) < 0) by (nonlinear_arith)
            requires
                p0 == (-1int, -1int, -1int),
                p1 == (1int, -1int, -1int),
                p2 == (1int, 1int, -1int),
                n == (0int, 0int, -1int),
        ;
    } else if t == 1 {
        assert(p0 == (-1int, -1int, -1int) && p1 == (1int, 1int, -1int) && p2 == (-1int, 1int, -1int) && n == (0int, 0int, -1int));
        assert(dot(cross(minus(p1, p0), minus(p2, p0)), n) < 0) by (nonlinear_arith)
            requires
                p0 == (-1int, -1int, -1int),
                p1 == (1int, 1int, -1int),
                p2 == (-1int, 1int, -1int),
                n == (0int, 0int, -1int),
        ;
    } else if t == 2 {
        assert(p0 == (1int, 1int, 1int) && p1 == (1int, -1int, 1int) && p2 == (-1int, -1int, 1int) && n == (0int, 0int, 1int));
        assert(dot(cross(minus(p1, p0), minus(p2, p0)), n) < 0) by (nonlinear_arith)
            requires
                p0 == (1int, 1int, 1int),
                p1 == (1int, -1int, 1int),
                p2 == (-1int, -1int, 1int),
                n == (0int, 0int, 1int),
        ;
    } else if t == 3 {
        assert(p0 == (-1int, 1int, 1int) && p1 == (1int, 1int, 1int) && p2 == (-1int, -1int, 1int) && n == (0int, 0int, 1int));
        assert(dot(cross(minus(p1, p0), minus(p2, p0)), n) < 0) by (nonlinear_arith)
            requires
                p0 == (-1int, 1int, 1int),
                p1 == (1int, 1int, 1int),
                p2 == (-1int, -1int, 1int),
                n == (0int, 0int, 1int),
        ;
    } else if t == 4 {
        assert(p0 == (-1int, -1int, -1int) && p1 == (-1int, 1int, -1int) && p2 == (-1int, 1int, 1int) && n == (-1int, 0int, 0int));
        assert(dot(cross(minus(p1, p0), minus(p2, p0)), n) < 0) by (nonlinear_arith)
            requires
                p0 == (-1int, -1int, -1int),
                p1 == (-1int, 1int, -1int),
                p2 == (-1int, 1int, 1int),
                n == (-1int, 0int, 0int),
        ;
    } else if t == 5 {
        assert(p0 == (-1int, -1int, -1int) && p1 == (-1int, 1int, 1int) && p2 == (-1int, -1int, 1int) && n == (-1int, 0int, 0int));
        assert(dot(cross(minus(p1, p0), minus(p2, p0)), n) < 0) by (nonlinear_arith)
            requires
                p0 == (-1int, -1int, -1int),
                p1 == (-1int, 1int, 1int),
                p2 == (-1int, -1int, 1int),
                n == (-1int, 0int, 0int),
        ;
    } else if t == 6 {
        assert(p0 == (1int, 1int, 1int) && p1 == (1int, 1int, -1int) && p2 == (1int, -1int, -1int) && n == (1int, 0int, 0int));
        assert(dot(cross(minus(p1, p0), minus(p2, p0)), n) < 0) by (nonlinear_arith)
            requires
                p0 == (1int, 1int, 1int),
                p1 == (1int, 1int, -1int),
                p2 == (1int, -1int, -1int),
                n == (1int, 0int, 0int),
        ;
    } else if t == 7 {
        assert(p0 == (1int, -1int, 1int) && p1 == (1int, 1int, 1int) && p2 == (1int, -1int, -1int) && n == (1int, 0int, 0int));
        assert(dot(cross(minus(p1, p0), minus(p2, p0)), n) < 0) by (nonlinear_arith)
            requires
                p0 == (1int, -1int, 1int),
                p1 == (1int, 1int, 1int),
                p2 == (1int, -1int, -1int),
                n == (1int, 0int, 0int),
        ;
    } else if t == 8 {
        assert(p0 == (-1int, -1int, -1int) && p1 == (-1int, -1int, 1int) && p2 == (1int, -1int, 1int) && n == (0int, -1int, 0int));
        assert(dot(cross(minus(p1, p0), minus(p2, p0)), n) < 0) by (nonlinear_arith)
            requires
                p0 == (-1int, -1int, -1int),
                p1 == (-1int, -1int, 1int),
                p2 == (1int, -1int, 1int),
                n == (0int, -1int, 0int),
        ;
    } else if t == 9 {
        assert(p0 == (-1int, -1int, -1int) && p1 == (1int, -1int, 1int) && p2 == (1int, -1int, -1int) && n == (0int, -1int, 0int));
        assert(dot(cross(minus(p1, p0), minus(p2, p0)), n) < 0) by (nonlinear_arith)
            requires
                p0 == (-1int, -1int, -1int),
                p1 == (1int, -1int, 1int),
                p2 == (1int, -1int, -1int),
                n == (0int, -1int, 0int),
        ;
    } else if t == 10 {
        assert(p0 == (1int, 1int, 1int) && p1 == (-1int, 1int, 1int) && p2 == (-1int, 1int, -1int) && n == (0int, 1int, 0int));
        assert(dot(cross(minus(p1, p0), minus(p2, p0)), n) < 0) by (nonlinear_arith)
            requires
                p0 == (1int, 1int, 1int),
                p1 == (-1int, 1int, 1int),
                p2 == (-1int, 1int, -1int),
                n == (0int, 1int, 0int),
        ;
    } else if t == 11 {
        assert(p0 == (1int, 1int, -1int) && p1 == (1int, 1int, 1int) && p2 == (-1int, 1int, -1int) && n == (0int, 1int, 0int));
        assert(dot(cross(minus(p1, p0), minus(p2, p0)), n) < 0) by (nonlinear_arith)
            requires
                p0 == (1int, 1int, -1int),
                p1 == (1int, 1int, 1int),
                p2 == (-1int, 1int, -1int),
                n == (0int, 1int, 0int),
        ;
    }
}

proof fn lemma_cube_indices_in_range(m: MeshLayout<CubeVertex>)
    requires
        is_cube_layout(m),
    ensures
        m.well_formed(),
{
    assert forall|j: int| 0 <= j < 36 implies (#[trigger] m.indices@[j]) < m.vertices.len() by {
        assert(m.indices@[j] as int == cube_index(j));
    }
}

proof fn lemma_cube_faces_flat(m: MeshLayout<CubeVertex>)
    requires
        is_cube_layout(m),
    ensures
        forall|i: int|
            0 <= i < 24 ==> {
                let v = #[trigger] m.vertices@[i];
                v.normal == cube_face_normal(i / 4) && v.normal.on_face(v.corner.coords())
            },
{
    assert forall|i: int| 0 <= i < 24 implies {
        let v = #[trigger] m.vertices@[i];
        v.normal == cube_face_normal(i / 4) && v.normal.on_face(v.corner.coords())
    } by {
        assert(cube_vertex_matches(m.vertices@[i], i));
    }
}

proof fn lemma_cube_triangles(m: MeshLayout<CubeVertex>)
    requires
        is_cube_layout(m),
    ensures
        forall|t: int| 0 <= t < 12 ==> #[trigger] cube_triangle_clockwise(t),
        forall|t: int|
            0 <= t < 12 ==> {
                let a = m.indices@[3 * t] as int;
                let b = m.indices@[3 * t + 1] as int;
                let c = m.indices@[3 * t + 2] as int;
                (a, b, c) == #[trigger] cube_triangle(t)
            },
{
    assert forall|t: int| 0 <= t < 12 implies #[trigger] cube_triangle_clockwise(t) by {
        lemma_cube_triangle_clockwise(t);
    }
    assert forall|t: int| 0 <= t < 12 implies {
        let a = m.indices@[3 * t] as int;
        let b = m.indices@[3 * t + 1] as int;
        let c = m.indices@[3 * t + 2] as int;
        (a, b, c) == #[trigger] cube_triangle(t)
    } by {
        assert(m.indices@[3 * t] as int == cube_index(3 * t));
        assert(m.indices@[3 * t + 1] as int == cube_index(3 * t + 1));
        assert(m.indices@[3 * t + 2] as int == cube_index(3 * t + 2));
    }
}

/// The cube mesh has 24 vertices and 36 indices, and every index names one
/// of its vertices. Each run of four vertices `4f` to `4f + 3` shares the
/// axis normal of face `f` and lies on the side of the cube that normal points
/// out of. Every triangle keeps to one face and is wound clockwise seen from
/// outside.
pub proof fn lemma_cube_mesh_invariants(m: MeshLayout<CubeVertex>)
    requires
        is_cube_layout(m),
    ensures
        m.vertices.len() == 24,
        m.indices.len() == 36,
        m.well_formed(),
        forall|i: int|
            0 <= i < 24 ==> {
                let v = #[trigger] m.vertices@[i];
                v.normal == cube_face_normal(i / 4) && v.normal.on_face(v.corner.coords())
            },
        forall|t: int|
            0 <= t < 12 ==> {
                let a = m.indices@[3 * t] as int;
                let b = m.indices@[3 * t + 1] as int;
                let c = m.indices@[3 * t + 2] as int;
                (a, b, c) == #[trigger] cube_triangle(t)
            },
        forall|t: int| 0 <= t < 12 ==> #[trigger] cube_triangle_clockwise(t),
{
    lemma_cube_indices_in_range(m);
    lemma_cube_faces_flat(m);
    lemma_cube_triangles(m);
}

} // verus!
