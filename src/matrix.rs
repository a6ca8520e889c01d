//! A 4x4 matrix of any element type, stored row-major.
use vstd::prelude::*;

verus! {

/// Number of columns in a matrix.
pub const WIDTH: u8 = 4;

/// Number of rows in a matrix.
pub const HEIGHT: u8 = 4;

/// Number of elements in a matrix.
pub const LENGTH: u8 = WIDTH * HEIGHT;

/// Flat position of the element at `row`, `col` in row-major order.
pub open spec fn flat(row: int, col: int) -> int {
    4 * row + col
}

/// The row-major sequence whose element at `row`, `col` is the one at
/// `col`, `row` of `s`.
pub open spec fn transposed<T>(s: Seq<T>) -> Seq<T> {
    Seq::new(16, |i: int| s[flat(i % 4, i / 4)])
}

/// A 4x4 matrix. The elements are kept row-major; callers see them only
/// through the conversions below, so that the layout can change freely.
#[derive(Clone, Copy, Debug)]
pub struct Mat4<T> {
    elements: [T; 16],
}

impl<T> View for Mat4<T> {
    type V = Seq<T>;

    /// The sixteen elements, row by row.
    closed spec fn view(&self) -> Seq<T> {
        self.elements@
    }
}

/// Flat row-major position of the element at `row`, `col`.
pub fn row_col(row: u8, col: u8) -> (r: u8)
    requires
        row < HEIGHT,
        col < WIDTH,
    ensures
        r == flat(row as int, col as int),
{
    WIDTH * row + col
}

impl<T: Copy> Mat4<T> {
    /// The element at `row`, `col` of a row-major sequence.
    pub open spec fn entry(s: Seq<T>, row: int, col: int) -> T {
        s[flat(row, col)]
    }

    /// The matrix whose rows are read one after the other from `elements`.
    pub fn from_row_major(elements: [T; 16]) -> (r: Self)
        ensures
            r@ == elements@,
    {
        Mat4 { elements }
    }

    /// The matrix whose columns are read one after the other from `elements`.
    pub fn from_column_major(elements: [T; 16]) -> (r: Self)
        ensures
            r@ == transposed(elements@),
    {
        Mat4 { elements }.transpose()
    }

    /// The elements, row by row.
    pub fn to_row_major(self) -> (r: [T; 16])
        ensures
            r@ == self@,
    {
        self.elements
    }

    /// The elements, column by column.
    pub fn to_column_major(self) -> (r: [T; 16])
        ensures
            r@ == transposed(self@),
    {
        self.transpose().elements
    }

    /// The element at `row`, `col`.
    pub fn get(self, row: u8, col: u8) -> (r: T)
        requires
            row < HEIGHT,
            col < WIDTH,
        ensures
            r == Self::entry(self@, row as int, col as int),
    {
        self.elements[row_col(row, col) as usize]
    }

    /// Replaces the element at `row`, `col` with `value`.
    pub fn set(&mut self, row: u8, col: u8, value: T)
        requires
            row < HEIGHT,
            col < WIDTH,
        ensures
            final(self)@ == old(self)@.update(flat(row as int, col as int), value),
    {
        let i = row_col(row, col) as usize;
        self.elements[i] = value;
        assert(self@ =~= old(self)@.update(flat(row as int, col as int), value));
    }

    /// The first three elements of column `col`: the image of that basis
    /// direction under the linear part of the transform.
    fn axis(self, col: u8) -> (r: [T; 3])
        requires
            col < WIDTH,
        ensures
            r@ == seq![
                Self::entry(self@, 0, col as int),
                Self::entry(self@, 1, col as int),
                Self::entry(self@, 2, col as int),
            ],
    {
        let r = [self.get(0, col), self.get(1, col), self.get(2, col)];
        assert(r@ =~= seq![
            Self::entry(self@, 0, col as int),
            Self::entry(self@, 1, col as int),
            Self::entry(self@, 2, col as int),
        ]);
        r
    }

    /// Where the transform sends the x direction: the top of column 0.
    pub fn x_axis(self) -> (r: [T; 3])
        ensures
            r@ == seq![Self::entry(self@, 0, 0), Self::entry(self@, 1, 0), Self::entry(self@, 2, 0)],
    {
        self.axis(0)
    }

    /// Where the transform sends the y direction: the top of column 1.
    pub fn y_axis(self) -> (r: [T; 3])
        ensures
            r@ == seq![Self::entry(self@, 0, 1), Self::entry(self@, 1, 1), Self::entry(self@, 2, 1)],
    {
        self.axis(1)
    }

    /// Where the transform sends the z direction: the top of column 2.
    pub fn z_axis(self) -> (r: [T; 3])
        ensures
            r@ == seq![Self::entry(self@, 0, 2), Self::entry(self@, 1, 2), Self::entry(self@, 2, 2)],
    {
        self.axis(2)
    }

    /// The matrix whose element at `row`, `col` is `self`'s at `col`, `row`.
    pub fn transpose(self) -> (r: Self)
        ensures
            r@ == transposed(self@),
    {
        let e = self.elements;
        let r = Mat4 {
            elements: [
                e[0], e[4], e[8], e[12],
                e[1], e[5], e[9], e[13],
                e[2], e[6], e[10], e[14],
                e[3], e[7], e[11], e[15],
            ],
        };
        assert(r@ =~= transposed(self@));
        r
    }
}

/// Transposing swaps rows and columns: the element at `row`, `col` of the
/// transpose is the one at `col`, `row` of the original.
pub proof fn lemma_transposed_entry<T: Copy>(s: Seq<T>, row: int, col: int)
    requires
        s.len() == 16,
        0 <= row < 4,
        0 <= col < 4,
    ensures
        Mat4::<T>::entry(transposed(s), row, col) == Mat4::<T>::entry(s, col, row),
{
}

/// Transposing twice gives back the matrix one started with.
pub proof fn lemma_transpose_involution<T>(m: Mat4<T>)
    ensures
        transposed(transposed(m@)) == m@,
{
    assert(transposed(transposed(m@)) =~= m@);
}

/// Reading back, as a column-major matrix, the elements that
/// `to_column_major` gives of a matrix yields that same matrix.
pub proof fn lemma_column_major_round_trip<T>(m: Mat4<T>, column_major: Seq<T>)
    requires
        column_major == transposed(m@),
    ensures
        transposed(column_major) == m@,
{
    lemma_transpose_involution(m);
}

} // verus!
