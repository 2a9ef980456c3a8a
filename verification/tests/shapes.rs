use kalman_2d_multivariate_xy_car::error::FilterError;
use kalman_2d_multivariate_xy_car::shape::{add_vec, Shape};

#[test]
fn product_of_fitting_shapes() {
    let a = Shape::new(2, 3);
    let b = Shape::new(3, 4);
    assert_eq!(a.mul(&b), Ok(Shape::new(2, 4)));
    assert_eq!(b.mul(&a), Err(FilterError::ShapeMismatch));
}

#[test]
fn product_with_vector() {
    assert_eq!(Shape::new(2, 3).mul_vec(3), Ok(2));
    assert_eq!(Shape::new(2, 3).mul_vec(2), Err(FilterError::ShapeMismatch));
}

#[test]
fn sums_need_equal_shapes() {
    assert_eq!(Shape::new(2, 3).add(&Shape::new(2, 3)), Ok(Shape::new(2, 3)));
    assert_eq!(Shape::new(2, 3).add(&Shape::new(3, 2)), Err(FilterError::ShapeMismatch));
    assert_eq!(add_vec(4, 4), Ok(4));
    assert_eq!(add_vec(4, 5), Err(FilterError::ShapeMismatch));
}

#[test]
fn column_wise_sum_needs_matching_rows() {
    assert_eq!(Shape::new(3, 7).add_each_col(3), Ok(Shape::new(3, 7)));
    assert_eq!(Shape::new(3, 7).add_each_col(7), Err(FilterError::ShapeMismatch));
}

#[test]
fn transpose_and_inverse() {
    assert_eq!(Shape::new(2, 5).transpose(), Shape::new(5, 2));
    assert_eq!(Shape::new(2, 5).transpose().transpose(), Shape::new(2, 5));
    assert_eq!(Shape::square(3).inverse(), Ok(Shape::square(3)));
    assert_eq!(Shape::new(2, 3).inverse(), Err(FilterError::ShapeMismatch));
}
