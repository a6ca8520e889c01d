use math::cube::{cube_layout, Corner, CUBE_INDEX_COUNT, CUBE_POINT_COUNT};
use math::mesh::AxisNormal;

fn coords(c: Corner) -> [i32; 3] {
    [c.x as i32, c.y as i32, c.z as i32]
}

fn sub(a: [i32; 3], b: [i32; 3]) -> [i32; 3] {
    [a[0] - b[0], a[1] - b[1], a[2] - b[2]]
}

fn cross(a: [i32; 3], b: [i32; 3]) -> [i32; 3] {
    [a[1] * b[2] - a[2] * b[1], a[2] * b[0] - a[0] * b[2], a[0] * b[1] - a[1] * b[0]]
}

#[test]
fn cube_has_24_points_and_36_indices() {
    let m = cube_layout();
    assert_eq!(m.vertices.len(), 24);
    assert_eq!(m.indices.len(), 36);
    assert_eq!(CUBE_POINT_COUNT, 24);
    assert_eq!(CUBE_INDEX_COUNT, 36);
    assert!(m.indices.iter().all(|&i| i < 24));
}

#[test]
fn cube_indices_match_the_table() {
    let m = cube_layout();
    let expected: Vec<u16> = vec![
        0, 1, 2, 0, 2, 3,
        6, 5, 4, 7, 6, 4,
        8, 9, 10, 8, 10, 11,
        14, 13, 12, 15, 14, 12,
        16, 17, 18, 16, 18, 19,
        22, 21, 20, 23, 22, 20,
    ];
    assert_eq!(m.indices, expected);
}

#[test]
fn cube_faces_share_an_axis_normal() {
    let m = cube_layout();
    let normals = [
        AxisNormal::NegZ,
        AxisNormal::PosZ,
        AxisNormal::NegX,
        AxisNormal::PosX,
        AxisNormal::NegY,
        AxisNormal::PosY,
    ];
    for (i, v) in m.vertices.iter().enumerate() {
        assert_eq!(v.normal, normals[i / 4]);
        let (x, y, z) = v.normal.components();
        assert_eq!(x.abs() + y.abs() + z.abs(), 1);
        // The vertex lies on the side of the cube its normal points out of.
        let p = coords(v.corner);
        assert_eq!(p[0] * x as i32 + p[1] * y as i32 + p[2] * z as i32, 1);
    }
}

#[test]
fn cube_corners_are_unit_cube_corners() {
    let m = cube_layout();
    assert_eq!(m.vertices[0].corner, Corner { x: -1, y: -1, z: -1 });
    assert_eq!(m.vertices[6].corner, Corner { x: 1, y: 1, z: 1 });
    assert_eq!(m.vertices[9].corner, Corner { x: -1, y: 1, z: -1 });
    assert_eq!(m.vertices[17].corner, Corner { x: -1, y: -1, z: 1 });
    assert_eq!(m.vertices[23].corner, Corner { x: 1, y: 1, z: -1 });
    for f in 0..6 {
        let face: Vec<[i32; 3]> = (0..4).map(|k| coords(m.vertices[4 * f + k].corner)).collect();
        for a in 0..4 {
            for b in 0..a {
                assert_ne!(face[a], face[b]);
            }
        }
    }
}

#[test]
fn cube_triangles_run_clockwise_from_outside() {
    let m = cube_layout();
    for t in m.indices.chunks(3) {
        let (a, b, c) = (t[0] as usize, t[1] as usize, t[2] as usize);
        assert_eq!(a / 4, b / 4);
        assert_eq!(a / 4, c / 4);
        let p0 = coords(m.vertices[a].corner);
        let n = cross(sub(coords(m.vertices[b].corner), p0), sub(coords(m.vertices[c].corner), p0));
        let (x, y, z) = m.vertices[a].normal.components();
        assert!(n[0] * x as i32 + n[1] * y as i32 + n[2] * (z as i32) < 0);
    }
}
