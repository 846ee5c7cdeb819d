use lingebra::{all_orthogonal, change_base, orthogonal, vector_dot_product, vector_sum, Error};

#[test]
fn dot_product_of_small_vectors() {
    assert_eq!(vector_dot_product(&[3.0, 4.0], &[2.0, 1.0]), 10.0);
    assert_eq!(vector_dot_product::<f64>(&[3.0, 4.0], &[3.0, 4.0]).sqrt(), 5.0);
}

#[test]
fn dot_product_stops_at_shorter_vector() {
    assert_eq!(vector_dot_product(&[1.0, 2.0, 3.0], &[4.0, 5.0]), 14.0);
    assert_eq!(vector_dot_product::<i64>(&[], &[4, 5]), 0);
}

#[test]
fn sum_is_element_wise_and_truncated() {
    assert_eq!(vector_sum(&[1.0, 2.0, 3.0], &[0.5, 0.5]), vec![1.5, 2.5]);
    assert_eq!(vector_sum::<i64>(&[7, 8], &[1, 2]), vec![8, 10]);
}

#[test]
fn orthogonal_pair() {
    assert!(orthogonal(&[2.0, 1.0, 0.0], &[-1.0, 2.0, 5.0]));
    assert!(!orthogonal(&[1.0, 1.0], &[1.0, 0.0]));
}

#[test]
fn all_orthogonal_basis() {
    let a = vec![1.0, 0.0, 0.0, 0.0];
    let b = vec![0.0, 2.0, -1.0, 0.0];
    let c = vec![0.0, 1.0, 2.0, 0.0];
    let d = vec![0.0, 0.0, 0.0, 3.0];
    assert!(all_orthogonal(&[&a, &b, &c, &d]));
}

#[test]
fn all_orthogonal_rejects_one_bad_pair() {
    let a = vec![1.0, 0.0, 0.0];
    let b = vec![0.0, 1.0, 0.0];
    let c = vec![0.0, 1.0, 1.0];
    assert!(!all_orthogonal(&[&a, &b, &c]));
}

#[test]
fn all_orthogonal_holds_for_few_vectors() {
    let a = vec![1.0, 2.0];
    let none: [&Vec<f64>; 0] = [];
    assert!(all_orthogonal(&none));
    assert!(all_orthogonal(&[&a]));
}

fn projection(a: &[f64], b: &Vec<f64>) -> f64 {
    vector_dot_product(a, b) / vector_dot_product(b, b)
}

#[test]
fn change_base_projects_on_each_basis_vector() {
    let b1 = vec![1.0, 1.0];
    let b2 = vec![1.0, -1.0];
    let v = [3.0, 1.0];
    assert_eq!(change_base(&v, &[&b1, &b2], projection), Ok(vec![2.0, 1.0]));
}

#[test]
fn change_base_rejects_non_orthogonal_basis() {
    let b1 = vec![1.0, 0.0];
    let b2 = vec![1.0, 1.0];
    let v = [3.0, 1.0];
    assert_eq!(change_base(&v, &[&b1, &b2], projection), Err(Error::Precondition));
}

#[test]
fn change_base_on_integers() {
    let b1: Vec<i64> = vec![2, 0, 0];
    let b2: Vec<i64> = vec![0, 0, 5];
    let v: [i64; 3] = [4, 9, 10];
    let coords = change_base(&v, &[&b1, &b2], |a: &[i64], b: &Vec<i64>| {
        vector_dot_product(a, b) / vector_dot_product(b, b)
    });
    assert_eq!(coords, Ok(vec![2, 2]));
}
