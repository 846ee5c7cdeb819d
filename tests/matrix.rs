use lingebra::{Error, Matrix};

fn sample() -> Matrix<f64> {
    Matrix::new(vec![
        vec![0.0, 1.0, 2.0, 3.0],
        vec![1.0, 0.0, 1.0, 0.0],
        vec![5.0, 5.0, 5.0, 5.0],
    ])
    .unwrap()
}

#[test]
fn new_keeps_rows() {
    let m = sample();
    assert_eq!(m[0], vec![0.0, 1.0, 2.0, 3.0]);
    assert_eq!(m[2][3], 5.0);
}

#[test]
fn new_rejects_ragged_rows() {
    let r = Matrix::new(vec![vec![1.0, 2.0], vec![3.0, 4.0, 5.0]]);
    assert_eq!(r, Err(Error::Shape));
}

#[test]
fn new_rejects_no_rows() {
    let r: Result<Matrix<f64>, Error> = Matrix::new(vec![]);
    assert_eq!(r, Err(Error::Shape));
}

#[test]
fn row_vector_is_one_row() {
    let m = Matrix::row_vector(vec![0.0, 1.0, 2.0, 3.0]);
    assert_eq!(m, Matrix::new(vec![vec![0.0, 1.0, 2.0, 3.0]]).unwrap());
}

#[test]
fn column_vector_is_one_column() {
    let m = Matrix::column_vector(vec![0.0, 1.0, 2.0, 3.0]);
    let expected = Matrix::new(vec![vec![0.0], vec![1.0], vec![2.0], vec![3.0]]).unwrap();
    assert_eq!(m, expected);
    assert_eq!(m.col(0), Ok(vec![0.0, 1.0, 2.0, 3.0]));
}

#[test]
fn zeroes_and_ones_fill_every_cell() {
    let z: Matrix<f64> = Matrix::zeroes(2, 3);
    let o: Matrix<f64> = Matrix::ones(2, 3);
    assert_eq!(z, Matrix::new(vec![vec![0.0; 3], vec![0.0; 3]]).unwrap());
    assert_eq!(o, Matrix::new(vec![vec![1.0; 3], vec![1.0; 3]]).unwrap());
}

#[test]
fn identity_has_ones_on_diagonal() {
    let m: Matrix<f64> = Matrix::identity(3);
    assert_eq!(m[0][0], 1.0);
    assert_eq!(m[1][1], 1.0);
    assert_eq!(m[2][2], 1.0);
    assert_eq!(m[0][1], 0.0);
    assert_eq!(m[2][0], 0.0);
}

#[test]
fn zeroes_plus_ones_is_ones() {
    for (h, w) in [(1, 1), (2, 3), (4, 2)] {
        let z: Matrix<f64> = Matrix::zeroes(h, w);
        let o: Matrix<f64> = Matrix::ones(h, w);
        assert_eq!(z.add(&o), Ok(o.clone()));
    }
}

#[test]
fn zeroes_plus_ones_is_ones_on_integers() {
    let z: Matrix<i64> = Matrix::zeroes(3, 2);
    let o: Matrix<i64> = Matrix::ones(3, 2);
    assert_eq!(z.add(&o), Ok(o.clone()));
}

#[test]
fn adding_zero_matrix_keeps_matrix() {
    let m = sample();
    let z = Matrix::zeroes(3, 4);
    assert_eq!(m.add(&z), Ok(m.clone()));
}

#[test]
fn add_is_cell_by_cell() {
    let m: Matrix<f64> = Matrix::ones(2, 2);
    let expected = Matrix::new(vec![vec![2.0, 2.0], vec![2.0, 2.0]]).unwrap();
    assert_eq!(m.add(&m), Ok(expected));
}

#[test]
fn add_rejects_other_dimensions() {
    let a: Matrix<f64> = Matrix::ones(2, 2);
    let b: Matrix<f64> = Matrix::ones(2, 3);
    assert_eq!(a.add(&b), Err(Error::Shape));
}

#[test]
fn sub_is_cell_by_cell() {
    let a: Matrix<f64> = Matrix::ones(2, 2);
    let b: Matrix<f64> = Matrix::identity(2);
    let expected = Matrix::new(vec![vec![0.0, 1.0], vec![1.0, 0.0]]).unwrap();
    assert_eq!(a.sub(&b), Ok(expected));
}

#[test]
fn sub_rejects_other_dimensions() {
    let a: Matrix<f64> = Matrix::ones(3, 2);
    let b: Matrix<f64> = Matrix::ones(2, 2);
    assert_eq!(a.sub(&b), Err(Error::Shape));
}

#[test]
fn mul_scales_every_cell() {
    let m: Matrix<f64> = Matrix::identity(2);
    let expected = Matrix::new(vec![vec![42.0, 0.0], vec![0.0, 42.0]]).unwrap();
    assert_eq!(m.mul(42.0), expected);
}

#[test]
fn div_scales_every_cell() {
    let m: Matrix<f64> = Matrix::identity(2);
    let expected = Matrix::new(vec![vec![0.2, 0.0], vec![0.0, 0.2]]).unwrap();
    assert_eq!(m.div(5.0), expected);
}

#[test]
fn div_by_zero_gives_infinities_and_nan() {
    let m: Matrix<f64> = Matrix::identity(2);
    let r = m.div(0.0);
    assert_eq!(r[0][0], f64::INFINITY);
    assert!(r[0][1].is_nan());
}

#[test]
fn mul_vec_takes_row_products() {
    let m = Matrix::new(vec![
        vec![1.0, 2.0, 3.0, 4.0],
        vec![1.0, 0.0, 1.0, 0.0],
        vec![0.0, 1.0, 0.0, 1.0],
    ])
    .unwrap();
    let v = vec![1.0, 2.0, 3.0, 5.0];
    assert_eq!(m.mul_vec(&v), Ok(vec![34.0, 4.0, 7.0]));
}

#[test]
fn mul_vec_rejects_other_length() {
    let m = sample();
    assert_eq!(m.mul_vec(&vec![1.0, 2.0, 3.0]), Err(Error::Shape));
}

#[test]
fn basis_vector_selects_column() {
    let m = Matrix::new(vec![
        vec![1.0, 2.0, 3.0],
        vec![4.0, 5.0, 6.0],
        vec![7.0, 8.0, 9.0],
    ])
    .unwrap();
    let id: Matrix<f64> = Matrix::identity(3);
    for j in 0..3 {
        let e = id.col(j).unwrap();
        assert_eq!(m.mul_vec(&e), m.col(j));
    }
}

#[test]
fn transpose_swaps_cells() {
    let m = Matrix::new(vec![
        vec![1.0, 2.0, 3.0],
        vec![4.0, 5.0, 6.0],
        vec![7.0, 8.0, 9.0],
    ])
    .unwrap();
    let expected = Matrix::new(vec![
        vec![1.0, 4.0, 7.0],
        vec![2.0, 5.0, 8.0],
        vec![3.0, 6.0, 9.0],
    ])
    .unwrap();
    assert_eq!(m.transpose(), Ok(expected));
}

#[test]
fn transpose_twice_gives_matrix_back() {
    let m = Matrix::new(vec![vec![1.5, -2.0], vec![0.25, 7.0]]).unwrap();
    let t = m.clone().transpose().unwrap();
    assert_ne!(t, m);
    assert_eq!(t.transpose(), Ok(m));
}

#[test]
fn transpose_rejects_non_square() {
    assert_eq!(sample().transpose(), Err(Error::Shape));
}

#[test]
fn equality_compares_cells() {
    let a: Matrix<f64> = Matrix::identity(2);
    let b = Matrix::new(vec![vec![1.0, 0.0], vec![0.0, 1.0]]).unwrap();
    let c: Matrix<f64> = Matrix::ones(2, 2);
    let d: Matrix<f64> = Matrix::zeroes(1, 1);
    assert_eq!(a, b);
    assert_ne!(a, c);
    assert_ne!(a, d);
}

#[test]
fn row_and_col_extract() {
    let m = sample();
    assert_eq!(m.row(1), Ok(vec![1.0, 0.0, 1.0, 0.0]));
    assert_eq!(m.col(1), Ok(vec![1.0, 0.0, 5.0]));
}

#[test]
fn row_and_col_reject_out_of_range() {
    let m = sample();
    assert_eq!(m.row(3), Err(Error::Index));
    assert_eq!(m.col(4), Err(Error::Index));
    assert_eq!(m.col(3), Ok(vec![3.0, 0.0, 5.0]));
}
