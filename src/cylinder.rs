//! The cylinder mesh: a ring of samples around the z axis at a top and a
//! bottom height, with a fan of triangles closing each end and a strip of
//! triangles joining the two rings.
//!
//! For a ring of `n` samples the vertices are laid out as
//! - `0`: the centre of the top cap;
//! - `1 ..= n`: the top cap's ring, with the cap's normal;
//! - `n + 1 ..= 2n`: the top ring again, with normals pointing out radially;
//! - `2n + 1 ..= 3n`: the bottom ring, with normals pointing out radially;
//! - `3n + 1 ..= 4n`: the bottom cap's ring, with the cap's normal;
//! - `4n + 1`: the centre of the bottom cap.
//!
//! The triangles come in four runs of `n`: the top cap's fan, the strip's
//! triangles with an edge on the top ring, those with an edge on the bottom
//! ring, and the bottom cap's fan.
use vstd::prelude::*;
use vstd::arithmetic::div_mod::lemma_fundamental_div_mod_converse;
use crate::mesh::{pick, AxisNormal, MeshLayout};

verus! {

/// Which way the normal of a cylinder vertex points.
#[derive(Clone, Copy, Debug, PartialEq, Eq, Structural)]
pub enum Facing {
    /// Along a coordinate axis.
    Axis(AxisNormal),
    /// Straight out from the z axis through ring sample `k`: for a ring of `n`
    /// samples, `(cos a, sin a, 0)` with `a = 2 pi k / n`, a unit vector
    /// with no z component.
    Radial(u16),
}

/// A vertex of the cylinder mesh.
#[derive(Clone, Copy, Debug, PartialEq, Eq, Structural)]
pub struct CylinderVertex {
    /// The ring sample the vertex sits on, or `None` on the z axis.
    pub sample: Option<u16>,
    /// At the top height, `z = scale.z`, rather than the bottom one,
    /// `z = -scale.z`.
    pub top: bool,
    /// Which way its normal points.
    pub normal: Facing,
}

/// Number of samples on the ring of the cylinder mesh.
pub const RING_POINT_COUNT: u16 = 16;

/// Number of vertices of the cylinder mesh: each cap's ring and centre, and
/// the two rings of the side.
pub const CYLINDER_POINT_COUNT: u16 = (RING_POINT_COUNT + 1 + RING_POINT_COUNT) * 2;

/// Number of indices of the cylinder mesh: four triangles for each ring sample.
pub const CYLINDER_INDEX_COUNT: u16 = RING_POINT_COUNT * 12;

/// The normal of the cap at the top (`top`) or bottom height: it points away
/// from the cylinder, so along +z for the higher cap. The top height is the
/// higher one when `z_scale_positive`.
pub open spec fn cap_normal(top: bool, z_scale_positive: bool) -> AxisNormal {
    if top == z_scale_positive {
        AxisNormal::PosZ
    } else {
        AxisNormal::NegZ
    }
}

/// Vertex `i` of the cylinder mesh with a ring of `n` samples.
pub open spec fn cylinder_vertex(n: int, z_scale_positive: bool, i: int) -> CylinderVertex {
    let top_cap = Facing::Axis(cap_normal(true, z_scale_positive));
    let bottom_cap = Facing::Axis(cap_normal(false, z_scale_positive));
    if i == 0 {
        CylinderVertex { sample: None, top: true, normal: top_cap }
    } else if i <= n {
        CylinderVertex { sample: Some((i - 1) as u16), top: true, normal: top_cap }
    } else if i <= 2 * n {
        let k = (i - n - 1) as u16;
        CylinderVertex { sample: Some(k), top: true, normal: Facing::Radial(k) }
    } else if i <= 3 * n {
        let k = (i - 2 * n - 1) as u16;
        CylinderVertex { sample: Some(k), top: false, normal: Facing::Radial(k) }
    } else if i <= 4 * n {
        CylinderVertex { sample: Some((i - 3 * n - 1) as u16), top: false, normal: bottom_cap }
    } else {
        CylinderVertex { sample: None, top: false, normal: bottom_cap }
    }
}

/// The three vertex numbers of triangle `t` of the cylinder mesh with a ring
/// of `n` samples. Triangle `t` belongs to run `t / n` and ring sample
/// `k = t % n`, and reaches over to the next sample round the ring.
pub open spec fn cylinder_triangle(n: int, t: int) -> (int, int, int) {
    let run = t / n;
    let k = t % n;
    let next = (k + 1) % n;
    if run == 0 {
        (1 + next, 1 + k, 0)
    } else if run == 1 {
        (n + 1 + k, n + 1 + next, 2 * n + 1 + k)
    } else if run == 2 {
        (n + 1 + next, 2 * n + 1 + next, 2 * n + 1 + k)
    } else {
        (4 * n + 1, 3 * n + 1 + k, 3 * n + 1 + next)
    }
}

/// Index `j` of the cylinder mesh with a ring of `n` samples.
pub open spec fn cylinder_index(n: int, j: int) -> int {
    pick(cylinder_triangle(n, j / 3), j % 3)
}

/// The ring sizes for which the mesh exists: at least one sample, and few
/// enough that every vertex has a 16-bit index.
pub open spec fn valid_ring(n: int) -> bool {
    1 <= n && 4 * n + 2 <= 0x1_0000
}

/// `m` is the cylinder mesh with a ring of `n` samples.
pub open spec fn is_cylinder_layout(m: MeshLayout<CylinderVertex>, n: int, z_scale_positive: bool) -> bool {
    &&& m.vertices.len() == 4 * n + 2
    &&& m.indices.len() == 12 * n
    &&& forall|i: int|
        0 <= i < 4 * n + 2 ==> #[trigger] m.vertices@[i] == cylinder_vertex(n, z_scale_positive, i)
    &&& forall|j: int| 0 <= j < 12 * n ==> (#[trigger] m.indices@[j]) as int == cylinder_index(n, j)
}

/// Triangle `run * n + k` lies in run `run` at sample `k`.
proof fn lemma_run_and_sample(n: int, run: int, k: int)
    requires
        0 < n,
        0 <= k < n,
    ensures
        (run * n + k) / n == run,
        (run * n + k) % n == k,
{
    lemma_fundamental_div_mod_converse(run * n + k, n, run, k);
}

fn cylinder_vertices(n: u16, z_scale_positive: bool) -> (r: Vec<CylinderVertex>)
    requires
        valid_ring(n as int),
    ensures
        r.len() == 4 * n + 2,
        forall|i: int| 0 <= i < 4 * n + 2 ==> #[trigger] r@[i] == cylinder_vertex(n as int, z_scale_positive, i),
{
    let top_cap = Facing::Axis(if z_scale_positive { AxisNormal::PosZ } else { AxisNormal::NegZ });
    let bottom_cap = Facing::Axis(if z_scale_positive { AxisNormal::NegZ } else { AxisNormal::PosZ });
    let ghost up = z_scale_positive;
    let mut r: Vec<CylinderVertex> = Vec::new();
    r.push(CylinderVertex { sample: None, top: true, normal: top_cap });
    let mut k: u16 = 0;
    while k < n
        invariant
            valid_ring(n as int),
            k <= n,
            top_cap == Facing::Axis(cap_normal(true, up)),
            r.len() == 1 + k,
            forall|i: int| 0 <= i < r.len() ==> #[trigger] r@[i] == cylinder_vertex(n as int, up, i),
        decreases n - k,
    {
        r.push(CylinderVertex { sample: Some(k), top: true, normal: top_cap });
        k = k + 1;
    }
    let mut k: u16 = 0;
    while k < n
        invariant
            valid_ring(n as int),
            k <= n,
            r.len() == 1 + n + k,
            forall|i: int| 0 <= i < r.len() ==> #[trigger] r@[i] == cylinder_vertex(n as int, up, i),
        decreases n - k,
    {
        r.push(CylinderVertex { sample: Some(k), top: true, normal: Facing::Radial(k) });
        k = k + 1;
    }
    let mut k: u16 = 0;
    while k < n
        invariant
            valid_ring(n as int),
            k <= n,
            r.len() == 1 + 2 * n + k,
            forall|i: int| 0 <= i < r.len() ==> #[trigger] r@[i] == cylinder_vertex(n as int, up, i),
        decreases n - k,
    {
        r.push(CylinderVertex { sample: Some(k), top: false, normal: Facing::Radial(k) });
        k = k + 1;
    }
    let mut k: u16 = 0;
    while k < n
        invariant
            valid_ring(n as int),
            k <= n,
            bottom_cap == Facing::Axis(cap_normal(false, up)),
            r.len() == 1 + 3 * n + k,
            forall|i: int| 0 <= i < r.len() ==> #[trigger] r@[i] == cylinder_vertex(n as int, up, i),
        decreases n - k,
    {
        r.push(CylinderVertex { sample: Some(k), top: false, normal: bottom_cap });
        k = k + 1;
    }
    r.push(CylinderVertex { sample: None, top: false, normal: bottom_cap });
    r
}

fn cylinder_indices(n: u16) -> (r: Vec<u16>)
    requires
        valid_ring(n as int),
    ensures
        r.len() == 12 * n,
        forall|j: int| 0 <= j < 12 * n ==> (#[trigger] r@[j]) as int == cylinder_index(n as int, j),
{
    let mut r: Vec<u16> = Vec::new();
    let mut k: u16 = 0;
    while k < n
        invariant
            valid_ring(n as int),
            k <= n,
            r.len() == 3 * (k),
            forall|j: int| 0 <= j < r.len() ==> (#[trigger] r@[j]) as int == cylinder_index(n as int, j),
        decreases n - k,
    {
        proof {
            lemma_run_and_sample(n as int, 0, k as int);
        }
        r.push((k + 1) % n + 1);
        r.push(k + 1);
        r.push(0);
        k = k + 1;
    }
    let mut k: u16 = 0;
    while k < n
        invariant
            valid_ring(n as int),
            k <= n,
            r.len() == 3 * (n + k),
            forall|j: int| 0 <= j < r.len() ==> (#[trigger] r@[j]) as int == cylinder_index(n as int, j),
        decreases n - k,
    {
        proof {
            lemma_run_and_sample(n as int, 1, k as int);
        }
        r.push(n + 1 + k);
        r.push(n + 1 + (k + 1) % n);
        r.push(2 * n + 1 + k);
        k = k + 1;
    }
    let mut k: u16 = 0;
    while k < n
        invariant
            valid_ring(n as int),
            k <= n,
            r.len() == 3 * (2 * n + k),
            forall|j: int| 0 <= j < r.len() ==> (#[trigger] r@[j]) as int == cylinder_index(n as int, j),
        decreases n - k,
    {
        proof {
            lemma_run_and_sample(n as int, 2, k as int);
        }
        r.push(n + 1 + (k + 1) % n);
        r.push(2 * n + 1 + (k + 1) % n);
        r.push(2 * n + 1 + k);
        k = k + 1;
    }
    let mut k: u16 = 0;
    while k < n
        invariant
            valid_ring(n as int),
            k <= n,
            r.len() == 3 * (3 * n + k),
            forall|j: int| 0 <= j < r.len() ==> (#[trigger] r@[j]) as int == cylinder_index(n as int, j),
        decreases n - k,
    {
        proof {
            lemma_run_and_sample(n as int, 3, k as int);
        }
        r.push(4 * n + 1);
        r.push(3 * n + 1 + k);
        r.push(3 * n + 1 + (k + 1) % n);
        k = k + 1;
    }
    r
}

/// The cylinder mesh with a ring of `ring_points` samples. The caps' normals
/// point along +z at the top height and -z at the bottom one when
/// `z_scale_positive`, and the other way round when not, so that each points
/// away from the cylinder whichever way the heights are scaled.
pub fn cylinder_layout(ring_points: u16, z_scale_positive: bool) -> (r: MeshLayout<CylinderVertex>)
    requires
        valid_ring(ring_points as int),
    ensures
        is_cylinder_layout(r, ring_points as int, z_scale_positive),
        r.well_formed(),
{
    let r = MeshLayout {
        vertices: cylinder_vertices(ring_points, z_scale_positive),
        indices: cylinder_indices(ring_points),
    };
    proof {
        lemma_cylinder_mesh_invariants(r, ring_points as int, z_scale_positive);
    }
    r
}

/// The vertex at corner `c` of triangle `t` of `m`.
pub open spec fn corner_vertex(m: MeshLayout<CylinderVertex>, t: int, c: int) -> CylinderVertex {
    m.vertices@[m.indices@[3 * t + c] as int]
}

/// Triangle `t` of `m` closes the cap at the top (`top`) or bottom height:
/// its three vertices sit at that height and carry that cap's normal.
pub open spec fn cap_triangle(
    m: MeshLayout<CylinderVertex>,
    t: int,
    top: bool,
    z_scale_positive: bool,
) -> bool {
    forall|c: int|
        0 <= c < 3 ==> {
            let v = #[trigger] corner_vertex(m, t, c);
            v.top == top && v.normal == Facing::Axis(cap_normal(top, z_scale_positive))
        }
}

/// Triangle `t` of `m` belongs to the side: its vertices sit on the ring with
/// the radial normal of their own sample, its first at the top height and its
/// last at the bottom one.
pub open spec fn side_triangle(m: MeshLayout<CylinderVertex>, t: int) -> bool {
    &&& forall|c: int|
        0 <= c < 3 ==> {
            let v = #[trigger] corner_vertex(m, t, c);
            v.normal is Radial && v.sample == Some(v.normal->Radial_0)
        }
    &&& corner_vertex(m, t, 0).top
    &&& !corner_vertex(m, t, 2).top
}

/// The sample after `k` round a ring of `n`.
spec fn next_sample(n: int, k: int) -> int {
    if k + 1 < n {
        k + 1
    } else {
        0
    }
}

/// The triangles of each run, written without division.
proof fn lemma_triangle_by_run(n: int, t: int)
    requires
        valid_ring(n),
        0 <= t < 4 * n,
    ensures
        t < n ==> cylinder_triangle(n, t) == (1 + next_sample(n, t), 1 + t, 0int),
        n <= t < 2 * n ==> cylinder_triangle(n, t) == (
            t + 1,
            n + 1 + next_sample(n, t - n),
            n + 1 + t,
        ),
        2 * n <= t < 3 * n ==> cylinder_triangle(n, t) == (
            n + 1 + next_sample(n, t - 2 * n),
            2 * n + 1 + next_sample(n, t - 2 * n),
            t + 1,
        ),
        3 * n <= t ==> cylinder_triangle(n, t) == (
            4 * n + 1,
            t + 1,
            3 * n + 1 + next_sample(n, t - 3 * n),
        ),
{
    let run = if t < n { 0 } else if t < 2 * n { 1 } else if t < 3 * n { 2 } else { 3int };
    let k = t - run * n;
    lemma_run_and_sample(n, run, k);
    if k + 1 < n {
        lemma_run_and_sample(n, 0, k + 1);
    } else {
        lemma_run_and_sample(n, 1, 0);
    }
}

proof fn lemma_triangle_indices(m: MeshLayout<CylinderVertex>, n: int, z_scale_positive: bool, t: int)
    requires
        valid_ring(n),
        is_cylinder_layout(m, n, z_scale_positive),
        0 <= t < 4 * n,
    ensures
        forall|c: int|
            #![trigger corner_vertex(m, t, c)]
            0 <= c < 3 ==> {
                let i = m.indices@[3 * t + c] as int;
                &&& 0 <= i < 4 * n + 2
                &&& i == pick(cylinder_triangle(n, t), c)
                &&& corner_vertex(m, t, c) == cylinder_vertex(n, z_scale_positive, i)
            },
{
    lemma_triangle_by_run(n, t);
    assert forall|c: int| #![trigger corner_vertex(m, t, c)] 0 <= c < 3 implies {
        let i = m.indices@[3 * t + c] as int;
        &&& 0 <= i < 4 * n + 2
        &&& i == pick(cylinder_triangle(n, t), c)
        &&& corner_vertex(m, t, c) == cylinder_vertex(n, z_scale_positive, i)
    } by {
        assert(m.indices@[3 * t + c] as int == cylinder_index(n, 3 * t + c));
    }
}

proof fn lemma_cylinder_triangle(m: MeshLayout<CylinderVertex>, n: int, z_scale_positive: bool, t: int)
    requires
        valid_ring(n),
        is_cylinder_layout(m, n, z_scale_positive),
        0 <= t < 4 * n,
    ensures
        forall|c: int|
            #![trigger corner_vertex(m, t, c)]
            0 <= c < 3 ==> {
                let i = m.indices@[3 * t + c] as int;
                0 <= i < 4 * n + 2
            },
        t < n ==> cap_triangle(m, t, true, z_scale_positive),
        n <= t < 3 * n ==> side_triangle(m, t),
        3 * n <= t ==> cap_triangle(m, t, false, z_scale_positive),
{
    lemma_triangle_by_run(n, t);
    lemma_triangle_indices(m, n, z_scale_positive, t);
    assert(corner_vertex(m, t, 0) == cylinder_vertex(n, z_scale_positive, m.indices@[3 * t] as int));
    assert(corner_vertex(m, t, 2) == cylinder_vertex(n, z_scale_positive, m.indices@[3 * t + 2] as int));
}

/// The cylinder mesh with a ring of `n` samples has `2 (n + 1) + 2 n`
/// vertices and `12 n` indices, and every index names one of its vertices.
/// The vertices of the side's two rings carry the radial normal of their
/// sample, which has no z component; all others carry their cap's normal along
/// the z axis. The first `n` triangles close the top cap and the last `n` the
/// bottom cap, each from vertices of its own height only; the `2 n` between
/// them join the two rings of the side.
pub proof fn lemma_cylinder_mesh_invariants(m: MeshLayout<CylinderVertex>, n: int, z_scale_positive: bool)
    requires
        valid_ring(n),
        is_cylinder_layout(m, n, z_scale_positive),
    ensures
        m.vertices.len() == 2 * (n + 1) + 2 * n,
        m.indices.len() == 12 * n,
        m.well_formed(),
        forall|i: int|
            n + 1 <= i <= 3 * n ==> {
                let v = #[trigger] m.vertices@[i];
                v.normal is Radial && v.sample == Some(v.normal->Radial_0)
            },
        forall|i: int|
            0 <= i < 4 * n + 2 && !(n + 1 <= i <= 3 * n) ==> {
                let v = #[trigger] m.vertices@[i];
                v.normal == Facing::Axis(cap_normal(v.top, z_scale_positive))
            },
        forall|t: int| 0 <= t < n ==> #[trigger] cap_triangle(m, t, true, z_scale_positive),
        forall|t: int| n <= t < 3 * n ==> #[trigger] side_triangle(m, t),
        forall|t: int| 3 * n <= t < 4 * n ==> #[trigger] cap_triangle(m, t, false, z_scale_positive),
{
    assert forall|j: int| 0 <= j < m.indices.len() implies (#[trigger] m.indices@[j]) < m.vertices.len() by {
        let t = j / 3;
        lemma_cylinder_triangle(m, n, z_scale_positive, t);
        assert(j == 3 * t + j % 3);
    }
    assert(m.well_formed());
    assert forall|t: int| 0 <= t < n implies #[trigger] cap_triangle(m, t, true, z_scale_positive) by {
        lemma_cylinder_triangle(m, n, z_scale_positive, t);
    }
    assert forall|t: int| n <= t < 3 * n implies #[trigger] side_triangle(m, t) by {
        lemma_cylinder_triangle(m, n, z_scale_positive, t);
    }
    assert forall|t: int| 3 * n <= t < 4 * n implies #[trigger] cap_triangle(m, t, false, z_scale_positive) by {
        lemma_cylinder_triangle(m, n, z_scale_positive, t);
    }
}

} // verus!
