use math::cylinder::{
    cylinder_layout, CylinderVertex, Facing, CYLINDER_INDEX_COUNT, CYLINDER_POINT_COUNT,
    RING_POINT_COUNT,
};
use math::mesh::AxisNormal;

#[test]
fn cylinder_counts_for_sixteen_samples() {
    let m = cylinder_layout(RING_POINT_COUNT, true);
    let n = RING_POINT_COUNT as usize;
    assert_eq!(m.indices.len(), 16 * 12);
    assert_eq!(m.vertices.len(), 2 * (n + 1) + 2 * n);
    assert_eq!(CYLINDER_INDEX_COUNT as usize, m.indices.len());
    assert_eq!(CYLINDER_POINT_COUNT as usize, m.vertices.len());
    assert!(m.indices.iter().all(|&i| (i as usize) < m.vertices.len()));
}

#[test]
fn cylinder_cap_centres_sit_on_the_axis() {
    let m = cylinder_layout(16, true);
    assert_eq!(
        m.vertices[0],
        CylinderVertex { sample: None, top: true, normal: Facing::Axis(AxisNormal::PosZ) }
    );
    assert_eq!(
        m.vertices[65],
        CylinderVertex { sample: None, top: false, normal: Facing::Axis(AxisNormal::NegZ) }
    );
}

#[test]
fn cylinder_side_normals_are_radial() {
    let m = cylinder_layout(16, true);
    for i in 17..=48 {
        let v = m.vertices[i];
        assert_eq!(v.normal, Facing::Radial(((i - 17) % 16) as u16));
        assert_eq!(v.sample, Some(((i - 17) % 16) as u16));
        assert_eq!(v.top, i <= 32);
    }
}

#[test]
fn cylinder_cap_normals_flip_with_the_sign_of_z() {
    let up = cylinder_layout(16, true);
    let down = cylinder_layout(16, false);
    for i in (0..=16).chain(49..=65) {
        let top = i <= 16;
        assert_eq!(up.vertices[i].top, top);
        let (a, b) = if top {
            (AxisNormal::PosZ, AxisNormal::NegZ)
        } else {
            (AxisNormal::NegZ, AxisNormal::PosZ)
        };
        assert_eq!(up.vertices[i].normal, Facing::Axis(a));
        assert_eq!(down.vertices[i].normal, Facing::Axis(b));
    }
    assert_eq!(up.indices, down.indices);
}

#[test]
fn cylinder_triangles_keep_to_their_height() {
    let m = cylinder_layout(16, true);
    for (t, tri) in m.indices.chunks(3).enumerate() {
        let vs: Vec<CylinderVertex> = tri.iter().map(|&i| m.vertices[i as usize]).collect();
        if t < 16 {
            assert!(vs.iter().all(|v| v.top && v.normal == Facing::Axis(AxisNormal::PosZ)));
        } else if t < 48 {
            assert!(vs.iter().all(|v| matches!(v.normal, Facing::Radial(k) if v.sample == Some(k))));
            assert!(vs[0].top);
            assert!(!vs[2].top);
        } else {
            assert!(vs.iter().all(|v| !v.top && v.normal == Facing::Axis(AxisNormal::NegZ)));
        }
    }
}

#[test]
fn cylinder_triangles_match_the_formulas() {
    let m = cylinder_layout(16, true);
    assert_eq!(&m.indices[0..6], &[2, 1, 0, 3, 2, 0]);
    assert_eq!(&m.indices[45..48], &[1, 16, 0]);
    assert_eq!(&m.indices[48..51], &[17, 18, 33]);
    assert_eq!(&m.indices[93..96], &[32, 17, 48]);
    assert_eq!(&m.indices[96..99], &[18, 34, 33]);
    assert_eq!(&m.indices[141..144], &[17, 33, 48]);
    assert_eq!(&m.indices[144..147], &[65, 49, 50]);
    assert_eq!(&m.indices[189..192], &[65, 64, 49]);
}

#[test]
fn cylinder_with_three_samples() {
    let m = cylinder_layout(3, true);
    assert_eq!(m.vertices.len(), 14);
    assert_eq!(m.indices.len(), 36);
    assert_eq!(
        m.indices,
        vec![
            2, 1, 0, 3, 2, 0, 1, 3, 0,
            4, 5, 7, 5, 6, 8, 6, 4, 9,
            5, 8, 7, 6, 9, 8, 4, 7, 9,
            13, 10, 11, 13, 11, 12, 13, 12, 10,
        ]
    );
}
