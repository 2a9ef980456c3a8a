use kalman_2d_multivariate_xy_car::error::FilterError;
use kalman_2d_multivariate_xy_car::filters::{EKF_ObservationModel, EKF_TransitionModel, KalmanCore, KalmanModel, EKF};
use kalman_2d_multivariate_xy_car::shape::Shape;

fn linear_transition(n: usize) -> EKF_TransitionModel {
    EKF_TransitionModel::Linear { F: Shape::square(n), F_transpose: Shape::square(n) }
}

fn linear_observation(n_z: usize, n_x: usize) -> EKF_ObservationModel {
    EKF_ObservationModel::Linear { H: Shape::new(n_z, n_x), H_transpose: Shape::new(n_x, n_z) }
}

#[test]
fn ekf_new_checks_linear_models() {
    let f = EKF::new(3, 1, 2, linear_transition(3), linear_observation(1, 3), None).unwrap();
    assert_eq!(f.I, Shape::square(3));
    assert_eq!(
        EKF::new(3, 1, 2, linear_transition(2), linear_observation(1, 3), None).err(),
        Some(FilterError::StateTransition { expected: Shape::square(3), found: Shape::square(2) })
    );
    assert_eq!(
        EKF::new(3, 1, 2, linear_transition(3), linear_observation(2, 3), None).err(),
        Some(FilterError::Observation { expected: Shape::new(1, 3), found: Shape::new(2, 3) })
    );
}

#[test]
fn ekf_new_refuses_control_for_nonlinear_transition() {
    assert_eq!(
        EKF::new(3, 1, 2, EKF_TransitionModel::NonLinear, EKF_ObservationModel::NonLinear, Some(Shape::new(3, 2))).err(),
        Some(FilterError::ControlUnused)
    );
    assert!(EKF::new(3, 1, 2, EKF_TransitionModel::NonLinear, EKF_ObservationModel::NonLinear, None).is_ok());
    // a linear transition does not have its control matrix checked
    assert!(EKF::new(3, 1, 2, linear_transition(3), linear_observation(1, 3), Some(Shape::new(7, 7))).is_ok());
}

#[test]
fn ekf_predict_linear_and_nonlinear() {
    let sq = Shape::square(3);
    let mut lin = EKF::new(3, 1, 2, linear_transition(3), linear_observation(1, 3), Some(Shape::new(3, 2))).unwrap();
    assert_eq!(lin.predict(3, &Some(2), &sq, &sq), Ok((3, sq)));
    assert_eq!(lin.predict(3, &None, &sq, &sq), Err(FilterError::ControlWithoutInput));
    assert_eq!(lin.predict(2, &Some(2), &sq, &sq), Err(FilterError::StateVector { expected: 3, found: 2 }));
    let mut non = EKF::new(3, 1, 2, EKF_TransitionModel::NonLinear, linear_observation(1, 3), None).unwrap();
    // a nonlinear transition passes the input to its function unchecked
    assert_eq!(non.predict(3, &Some(5), &sq, &sq), Ok((3, sq)));
}

#[test]
fn ekf_predict_needs_fitting_transpose_and_control() {
    let sq = Shape::square(3);
    let bad_transpose = EKF_TransitionModel::Linear { F: sq, F_transpose: Shape::new(3, 2) };
    let mut f = EKF::new(3, 1, 2, bad_transpose, linear_observation(1, 3), None).unwrap();
    assert_eq!(f.predict(3, &None, &sq, &sq), Err(FilterError::ShapeMismatch));
    let mut g = EKF::new(3, 1, 2, linear_transition(3), linear_observation(1, 3), Some(Shape::new(3, 5))).unwrap();
    assert_eq!(g.predict(3, &Some(2), &sq, &sq), Err(FilterError::ShapeMismatch));
    assert_eq!(g.predict(3, &Some(5), &sq, &sq), Err(FilterError::InputVector { expected: 2, found: 5 }));
}

#[test]
fn ekf_update_checks_sizes_and_transpose() {
    let sq = Shape::square(3);
    let r = Shape::square(1);
    let f = EKF::new(3, 1, 0, linear_transition(3), linear_observation(1, 3), None).unwrap();
    assert_eq!(f.update(3, 1, &None, &sq, &r), Ok((3, sq, Shape::new(3, 1))));
    assert_eq!(f.update(3, 2, &None, &sq, &r), Err(FilterError::MeasurementVector { expected: 1, found: 2 }));
    let bad = EKF_ObservationModel::Linear { H: Shape::new(1, 3), H_transpose: Shape::new(1, 3) };
    let g = EKF::new(3, 1, 0, linear_transition(3), bad, None).unwrap();
    assert_eq!(g.update(3, 1, &None, &sq, &r), Err(FilterError::ShapeMismatch));
    let h = EKF::new(3, 1, 0, linear_transition(3), EKF_ObservationModel::NonLinear, None).unwrap();
    assert_eq!(h.update(3, 1, &None, &sq, &r), Ok((3, sq, Shape::new(3, 1))));
}

#[test]
fn ekf_core_steps() {
    let f = EKF::new(2, 2, 0, EKF_TransitionModel::NonLinear, EKF_ObservationModel::NonLinear, None).unwrap();
    let mut core = KalmanCore::new(f, 2, Shape::square(2), Shape::square(2), Shape::square(2)).unwrap();
    assert_eq!(core.step(2, &None), Ok(()));
    assert_eq!(core.kalman_gain(), Shape::new(2, 2));
    assert_eq!(core.step(1, &None), Err(FilterError::MeasurementVector { expected: 2, found: 1 }));
}
