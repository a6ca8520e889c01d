use math::matrix::{row_col, Mat4};

fn sample() -> [f32; 16] {
    [
        2., 3., 5., 7.,
        11., 13., 17., 19.,
        23., 29., 31., 37.,
        41., 43., 47., 53.,
    ]
}

#[test]
fn row_col_is_row_major_position() {
    assert_eq!(row_col(0, 0), 0);
    assert_eq!(row_col(0, 3), 3);
    assert_eq!(row_col(1, 0), 4);
    assert_eq!(row_col(2, 1), 9);
    assert_eq!(row_col(3, 3), 15);
}

#[test]
fn from_row_major_keeps_rows() {
    let m = Mat4::from_row_major(sample());
    assert_eq!(m.get(0, 1), 3.);
    assert_eq!(m.get(1, 0), 11.);
    assert_eq!(m.get(3, 2), 47.);
    assert_eq!(m.to_row_major(), sample());
}

#[test]
fn from_column_major_reads_columns() {
    let m = Mat4::from_column_major(sample());
    assert_eq!(m.get(0, 1), 11.);
    assert_eq!(m.get(1, 0), 3.);
    assert_eq!(m.get(2, 3), 47.);
}

#[test]
fn to_column_major_lists_columns() {
    let m = Mat4::from_row_major(sample());
    assert_eq!(
        m.to_column_major(),
        [
            2., 11., 23., 41.,
            3., 13., 29., 43.,
            5., 17., 31., 47.,
            7., 19., 37., 53.,
        ]
    );
}

#[test]
fn transpose_swaps_rows_and_columns() {
    let m = Mat4::from_row_major(sample()).transpose();
    for row in 0..4u8 {
        for col in 0..4u8 {
            assert_eq!(m.get(row, col), sample()[(4 * col + row) as usize]);
        }
    }
}

#[test]
fn transpose_twice_gives_the_matrix_back() {
    let m = Mat4::from_row_major(sample());
    assert_eq!(m.transpose().transpose().to_row_major(), sample());
    let asymmetric = Mat4::from_row_major([
        0., 1., 2., 3.,
        0., 0., 4., 5.,
        0., 0., 0., 6.,
        0., 0., 0., 0.,
    ]);
    assert_eq!(
        asymmetric.transpose().transpose().to_row_major(),
        asymmetric.to_row_major()
    );
}

#[test]
fn column_major_round_trip() {
    let m = Mat4::from_row_major(sample());
    let back = Mat4::from_column_major(m.to_column_major());
    assert_eq!(back.to_row_major(), sample());
}

#[test]
fn set_replaces_one_element() {
    let mut m = Mat4::from_row_major(sample());
    m.set(2, 3, -1.);
    let mut expected = sample();
    expected[11] = -1.;
    assert_eq!(m.to_row_major(), expected);
}

#[test]
fn axes_are_the_tops_of_the_first_three_columns() {
    let m = Mat4::from_row_major(sample());
    assert_eq!(m.x_axis(), [2., 11., 23.]);
    assert_eq!(m.y_axis(), [3., 13., 29.]);
    assert_eq!(m.z_axis(), [5., 17., 31.]);
}
