use lazy_reach::error::Error;
use lazy_reach::matrix::Matrix;
use lazy_reach::scalar::Scalar;

fn s(x: f64) -> Scalar {
    Scalar::from_bits(x.to_bits())
}

fn v(xs: &[f64]) -> Vec<Scalar> {
    xs.iter().map(|x| s(*x)).collect()
}

#[test]
fn column_major_layout() {
    let m = Matrix::from_column_major(2, 3, v(&[1.0, 2.0, 3.0, 4.0, 5.0, 6.0])).unwrap();
    assert_eq!(m.nrows(), 2);
    assert_eq!(m.ncols(), 3);
    assert_eq!(m.get(0, 0), s(1.0));
    assert_eq!(m.get(1, 0), s(2.0));
    assert_eq!(m.get(0, 1), s(3.0));
    assert_eq!(m.get(1, 2), s(6.0));
    assert_eq!(m.row_vec(0), v(&[1.0, 3.0, 5.0]));
    assert_eq!(m.row_vec(1), v(&[2.0, 4.0, 6.0]));
    assert_eq!(m.column_major(), &v(&[1.0, 2.0, 3.0, 4.0, 5.0, 6.0]));
}

#[test]
fn row_major_layout() {
    let m = Matrix::from_row_major(2, 3, &v(&[1.0, 2.0, 3.0, 4.0, 5.0, 6.0])).unwrap();
    assert_eq!(m.row_vec(0), v(&[1.0, 2.0, 3.0]));
    assert_eq!(m.row_vec(1), v(&[4.0, 5.0, 6.0]));
    assert_eq!(m.get(1, 0), s(4.0));
    assert_eq!(m.column_major(), &v(&[1.0, 4.0, 2.0, 5.0, 3.0, 6.0]));
}

#[test]
fn rows_become_a_matrix() {
    let rows = vec![v(&[1.0, 0.0]), v(&[-1.0, 0.0]), v(&[0.0, 1.0])];
    let m = Matrix::from_rows(&rows, 2).unwrap();
    assert_eq!(m.nrows(), 3);
    assert_eq!(m.ncols(), 2);
    for i in 0..3 {
        assert_eq!(m.row_vec(i), rows[i]);
    }
    assert_eq!(m.column_major(), &v(&[1.0, -1.0, 0.0, 0.0, 0.0, 1.0]));
}

#[test]
fn no_rows_keep_the_column_count() {
    let m = Matrix::from_rows(&Vec::new(), 5).unwrap();
    assert_eq!(m.nrows(), 0);
    assert_eq!(m.ncols(), 5);
    assert!(m.column_major().is_empty());
}

#[test]
fn wrong_shapes_are_refused() {
    assert_eq!(Matrix::from_column_major(2, 2, v(&[1.0, 2.0, 3.0])), Err(Error::DimensionMismatch));
    assert_eq!(Matrix::from_row_major(2, 2, &v(&[1.0; 5])), Err(Error::DimensionMismatch));
    assert_eq!(
        Matrix::from_column_major(usize::MAX, 2, v(&[1.0, 2.0])),
        Err(Error::DimensionMismatch)
    );
    assert_eq!(Matrix::from_row_major(usize::MAX, usize::MAX, &v(&[1.0])), Err(Error::DimensionMismatch));
    let ragged = vec![v(&[1.0, 0.0]), v(&[1.0])];
    assert_eq!(Matrix::from_rows(&ragged, 2), Err(Error::DimensionMismatch));
}

#[test]
fn clone_keeps_shape_and_entries() {
    let m = Matrix::from_column_major(2, 2, v(&[1.0, 2.0, 3.0, 4.0])).unwrap();
    let c = m.clone();
    assert_eq!(c, m);
}
