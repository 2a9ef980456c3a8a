use kalman_2d_multivariate_xy_car::error::FilterError;
use kalman_2d_multivariate_xy_car::filters::{KalmanCore, KalmanModel, UKF_ObservationModel, UKF_TransitionModel, UKF};
use kalman_2d_multivariate_xy_car::shape::Shape;

fn radar_filter() -> UKF {
    UKF::new(6, 2, 0, UKF_TransitionModel::Linear { F: Shape::square(6) }, UKF_ObservationModel::NonLinear, None)
        .unwrap()
}

#[test]
fn ukf_new_sets_weights_and_empty_sigma_points() {
    let f = radar_filter();
    assert_eq!(f.weights, 13);
    assert_eq!(f.weights_diag, Shape::square(13));
    assert_eq!(f.sigma_points_prior, Shape::new(0, 0));
    assert_eq!(f.state_dim(), 6);
    assert_eq!(f.meas_dim(), 2);
}

#[test]
fn ukf_new_refuses_wrong_models() {
    assert_eq!(
        UKF::new(2, 1, 0, UKF_TransitionModel::Linear { F: Shape::square(3) }, UKF_ObservationModel::NonLinear, None).err(),
        Some(FilterError::StateTransition { expected: Shape::square(2), found: Shape::square(3) })
    );
    assert_eq!(
        UKF::new(2, 1, 0, UKF_TransitionModel::NonLinear, UKF_ObservationModel::Linear { H: Shape::new(2, 2) }, None).err(),
        Some(FilterError::Observation { expected: Shape::new(1, 2), found: Shape::new(2, 2) })
    );
    assert_eq!(
        UKF::new(2, 1, 1, UKF_TransitionModel::NonLinear, UKF_ObservationModel::NonLinear, Some(Shape::new(2, 1))).err(),
        Some(FilterError::ControlUnused)
    );
}

#[test]
fn ukf_update_before_predict_fails() {
    let f = radar_filter();
    assert_eq!(f.update(6, 2, &None, &Shape::square(6), &Shape::square(2)), Err(FilterError::ShapeMismatch));
}

#[test]
fn ukf_predict_then_update() {
    let mut f = radar_filter();
    let sq = Shape::square(6);
    assert_eq!(f.predict(6, &None, &sq, &sq), Ok((6, sq)));
    assert_eq!(f.sigma_points_prior, Shape::new(6, 13));
    assert_eq!(f.update(6, 2, &None, &sq, &Shape::square(2)), Ok((6, sq, Shape::new(6, 2))));
    assert_eq!(f.update(6, 3, &None, &sq, &Shape::square(2)), Err(FilterError::ShapeMismatch));
}

#[test]
fn ukf_predict_control_rules() {
    let sq = Shape::square(2);
    let lin = UKF_TransitionModel::Linear { F: sq };
    let mut with_g = UKF::new(2, 1, 1, lin, UKF_ObservationModel::NonLinear, Some(Shape::new(2, 1))).unwrap();
    assert_eq!(with_g.predict(2, &Some(1), &sq, &sq), Ok((2, sq)));
    assert_eq!(with_g.predict(2, &Some(3), &sq, &sq), Err(FilterError::InputVector { expected: 1, found: 3 }));
    assert_eq!(with_g.predict(2, &None, &sq, &sq), Err(FilterError::ControlMismatch));
    let mut without_g = UKF::new(2, 1, 1, lin, UKF_ObservationModel::NonLinear, None).unwrap();
    assert_eq!(without_g.predict(2, &Some(1), &sq, &sq), Err(FilterError::ControlMismatch));
    // failures leave the sigma points as they were
    assert_eq!(without_g.sigma_points_prior, Shape::new(0, 0));
}

#[test]
fn ukf_predict_reads_state_and_square_covariance() {
    let mut f = radar_filter();
    let sq = Shape::square(6);
    assert_eq!(f.predict(5, &None, &sq, &sq), Err(FilterError::ShapeMismatch));
    assert_eq!(f.predict(6, &None, &Shape::new(6, 7), &sq), Err(FilterError::ShapeMismatch));
    assert_eq!(f.predict(6, &None, &sq, &Shape::square(5)), Err(FilterError::ShapeMismatch));
    // a longer state and a larger covariance are read only in their leading part
    assert_eq!(f.predict(7, &None, &Shape::square(7), &sq), Ok((6, sq)));
}

#[test]
fn ukf_core_runs_radar_sized_steps() {
    let mut core = KalmanCore::new(radar_filter(), 6, Shape::square(6), Shape::square(6), Shape::square(2)).unwrap();
    for _ in 0..35 {
        assert_eq!(core.step(2, &None), Ok(()));
    }
    assert_eq!(core.kalman_gain(), Shape::new(6, 2));
    assert_eq!(core.model.sigma_points_prior, Shape::new(6, 13));
}

#[test]
fn weights_layout() {
    let (w, d) = UKF::calculate_weights(0.5f64, 1.5, 0.25, 0.0, 3);
    assert_eq!(w, vec![0.5, 0.25, 0.25]);
    assert_eq!(d, vec![1.5, 0.0, 0.0, 0.0, 0.25, 0.0, 0.0, 0.0, 0.25]);
}

#[test]
fn weights_diagonal_repeats_vector_after_first() {
    let (w, d) = UKF::calculate_weights(-2i64, 7, 3, 0, 5);
    assert_eq!(d[0], 7);
    for k in 1..5 {
        assert_eq!(d[k * 5 + k], w[k]);
    }
    assert_eq!(d.iter().filter(|&&v| v == 0).count(), 20);
}

#[test]
fn weights_of_single_point() {
    let (w, d) = UKF::calculate_weights(1u8, 2u8, 3u8, 4u8, 1);
    assert_eq!(w, vec![1u8]);
    assert_eq!(d, vec![2u8]);
}

#[test]
fn sigma_points_layout() {
    let f = UKF::new(2, 1, 0, UKF_TransitionModel::NonLinear, UKF_ObservationModel::NonLinear, None).unwrap();
    let x = vec![10.0f64, 20.0];
    // square root stored row by row: [[1, 2], [3, 4]]
    let root = vec![1.0f64, 2.0, 3.0, 4.0];
    let s = f.calculate_sigma_points(&x, &root, |a: f64, b: f64| a + b, |a: f64, b: f64| a - b);
    assert_eq!(s, vec![10.0, 11.0, 12.0, 9.0, 8.0, 20.0, 23.0, 24.0, 17.0, 16.0]);
}

#[test]
fn sigma_points_of_empty_state() {
    let f = UKF::new(0, 1, 0, UKF_TransitionModel::NonLinear, UKF_ObservationModel::NonLinear, None).unwrap();
    let s = f.calculate_sigma_points(&Vec::<i32>::new(), &Vec::new(), |a: i32, b: i32| a + b, |a: i32, b: i32| a - b);
    assert!(s.is_empty());
}
