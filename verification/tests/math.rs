//! Matrices and rationals on concrete values.

use vea::matrix::Matrix;
use vea::rational::Rational;

#[test]
fn matrix_shape_and_entries() {
    let m: Matrix<2, 3> = Matrix::new([[1, 2, 3], [4, 5, 6]]);
    assert_eq!(m.rows(), 2);
    assert_eq!(m.columns(), 3);
    assert_eq!(m.size(), 6);
}

#[test]
fn matrix_transpose_swaps_axes() {
    let m: Matrix<2, 3> = Matrix::new([[1, 2, 3], [4, 5, 6]]);
    let t = m.transpose();
    assert_eq!(t.rows(), 3);
    assert_eq!(t.columns(), 2);
    assert_eq!(t.get_n(1), 4);
}

#[test]
fn matrix_identity_has_unit_diagonal() {
    let m: Matrix<3, 3> = Matrix::<3, 3>::identity::<3>(0, 1);
    assert_eq!(m.get_n(0), 1);
    assert_eq!(m.get_n(1), 0);
    assert_eq!(m.get_n(4), 1);
}

#[test]
fn matrix_row_operations() {
    let mut m: Matrix<2, 2> = Matrix::new([[1, 2], [3, 4]]);
    m.swap_row(0, 1);
    assert_eq!(m.get_n(0), 3);
    m.row_mul(0, 10);
    assert_eq!(m.get_n(0), 30);
    m.multiply(&Matrix::new([[1, 0], [0, 1]]));
}

#[test]
fn matrix_map_applies_elementwise() {
    let m: Matrix<2, 2> = Matrix::new([[1, 2], [3, 4]]);
    let d = m.map(|x: i64| x + 1);
    assert_eq!(d.get_n(0), 2);
    assert_eq!(d.get_n(3), 5);
}

#[test]
fn rational_reduces_to_lowest_terms() {
    let r = Rational::new(6, 4);
    assert_eq!(r.n, 3);
    assert_eq!(r.d, 2);
    let s = Rational::new(-6, 4);
    assert_eq!(s.n, -3);
    assert_eq!(s.d, 2);
    let z = Rational::new(0, 5);
    assert_eq!(z.n, 0);
    assert_eq!(z.d, 1);
}
